//! The identifier sanitizer: maps declared parameter names, possibly empty or
//! colliding with a reserved word, to valid call-site identifiers.

use vstd::prelude::*;
use vstd::string::StringExecFns;

use crate::param::Param;

verus! {

/// What `heck`'s snake case conversion returns for a given character
/// sequence.  The conversion depends on the characters alone, so the result
/// can be named without being spelled out.
pub uninterp spec fn snake_of(s: Seq<char>) -> Seq<char>;

/// Relies on heck's `str::to_snake_case`: a deterministic case conversion
/// whose result depends on the input characters alone, and which maps the
/// empty string to the empty string.
#[verifier::external_body]
fn heck_snake_case(s: &str) -> (r: String)
    ensures
        r@ == snake_of(s@),
        s@.len() == 0 ==> r@.len() == 0,
{
    heck::ToSnakeCase::to_snake_case(s)
}

/// Relies on std's `String::push`: appends the given character to the end of
/// the string.
#[verifier::external_body]
fn push_char(s: &mut String, c: char)
    ensures
        final(s)@ == old(s)@.push(c),
{
    s.push(c)
}

/// The character for a single decimal digit.
pub open spec fn spec_digit_char(n: nat) -> char {
    ((48 + n % 10) as u8) as char
}

/// The decimal rendering of a nonnegative integer, most significant digit
/// first, with no leading zero except for zero itself.
pub open spec fn spec_decimal(n: nat) -> Seq<char>
    decreases n,
{
    if n < 10 {
        seq![spec_digit_char(n)]
    } else {
        spec_decimal(n / 10).push(spec_digit_char(n % 10))
    }
}

/// Renders a number in decimal.
pub fn decimal_string(n: usize) -> (r: String)
    ensures
        r@ == spec_decimal(n as nat),
    decreases n,
{
    let digit: u8 = 48 + (n % 10) as u8;
    if n < 10 {
        let mut s = String::new();
        push_char(&mut s, digit as char);
        s
    } else {
        let mut s = decimal_string(n / 10);
        push_char(&mut s, digit as char);
        s
    }
}

/// The sanitized form of a declared parameter name: its snake case
/// conversion, escaped with a leading underscore where the conversion
/// collides with the reserved self-reference keyword.
pub open spec fn spec_rust_variable(name: Seq<char>) -> Seq<char> {
    if snake_of(name) == "self"@ {
        "_self"@
    } else {
        snake_of(name)
    }
}

/// Converts a declared name into a valid call-site identifier.
///
/// The conversion is deterministic; a name whose snake case form would
/// collide with the self-reference keyword is escaped rather than rejected.
pub fn rust_variable(name: &str) -> (r: String)
    ensures
        r@ == spec_rust_variable(name@),
{
    let snake = heck_snake_case(name);
    if snake == String::from_str("self") {
        String::from_str("_self")
    } else {
        snake
    }
}

/// The call-site identifier of the parameter at a given position: a
/// positional placeholder where the declared name is empty, the sanitized
/// declared name otherwise.
pub open spec fn spec_input_name(name: Seq<char>, index: nat) -> Seq<char> {
    if name.len() == 0 {
        "param"@ + spec_decimal(index)
    } else {
        spec_rust_variable(name)
    }
}

/// Produces the ordered call-site identifiers of a parameter list.
///
/// Unnamed parameters receive distinct positional placeholders; named ones
/// are sanitized.  Two differently spelled names whose sanitized forms
/// coincide are handed on as they come: the description is taken to name
/// its parameters apart.
pub fn input_names(inputs: &[Param]) -> (r: Vec<String>)
    ensures
        r@.len() == inputs@.len(),
        forall|i: int|
            0 <= i < inputs@.len() ==> r@[i]@ == spec_input_name(inputs@[i].name@, i as nat),
{
    let mut r: Vec<String> = Vec::new();
    let mut i: usize = 0;
    while i < inputs.len()
        invariant
            i <= inputs@.len(),
            r@.len() == i,
            forall|j: int|
                0 <= j < i ==> r@[j]@ == spec_input_name(inputs@[j].name@, j as nat),
        decreases inputs@.len() - i,
    {
        let p = &inputs[i];
        if p.name.as_str().is_empty() {
            let mut s = String::from_str("param");
            let tail = decimal_string(i);
            s.append(tail.as_str());
            r.push(s);
        } else {
            r.push(rust_variable(p.name.as_str()));
        }
        i += 1;
    }
    r
}

/// The name of the generic type slot at a given position.
pub open spec fn spec_template_name(index: nat) -> Seq<char> {
    "T"@ + spec_decimal(index)
}

/// Produces the ordered generic slot names `T0`, `T1`, ... for a parameter
/// list of the given length.
pub fn get_template_names(count: usize) -> (r: Vec<String>)
    ensures
        r@.len() == count,
        forall|i: int| 0 <= i < count ==> r@[i]@ == spec_template_name(i as nat),
{
    let mut r: Vec<String> = Vec::new();
    let mut i: usize = 0;
    while i < count
        invariant
            i <= count,
            r@.len() == i,
            forall|j: int| 0 <= j < i ==> r@[j]@ == spec_template_name(j as nat),
        decreases count - i,
    {
        let mut s = String::from_str("T");
        let tail = decimal_string(i);
        s.append(tail.as_str());
        r.push(s);
        i += 1;
    }
    r
}

} // verus!
