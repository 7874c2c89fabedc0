//! The reference codec over the generic token domain: the meaning of the
//! generated encode and decode expressions, executable over concrete values,
//! with the proof that the two directions round-trip for every type shape.

use vstd::prelude::*;
use vstd::pervasive::unreached;

use crate::param::ParamType;

verus! {

/// The wide integer representation shared by every declared integer width.
#[derive(Debug, Clone, Copy, PartialEq, Eq, Structural)]
pub struct Wide {
    pub hi: u128,
    pub lo: u128,
}

/// The tagged wire-format value that carries an encoded parameter: one
/// variant per parameter type kind.
#[derive(Debug, PartialEq, Eq)]
pub enum Token {
    Address(Vec<u8>),
    Bytes(Vec<u8>),
    FixedBytes(Vec<u8>),
    Int(Wide),
    Uint(Wide),
    Bool(bool),
    Str(String),
    Array(Vec<Token>),
    FixedArray(Vec<Token>),
}

/// A concrete native value: what a value of the canonical native type of
/// some parameter type holds.
#[derive(Debug, PartialEq, Eq)]
pub enum Value {
    /// An address handle: 20 bytes.
    Address(Vec<u8>),
    /// A dynamic byte buffer.
    Bytes(Vec<u8>),
    /// The distinguished 32-byte hash value.
    Hash(Vec<u8>),
    /// A fixed-size byte array of some other length.
    FixedBytes(Vec<u8>),
    Int(Wide),
    Uint(Wide),
    Bool(bool),
    Str(String),
    /// A variable-length sequence of element values.
    Array(Vec<Value>),
    /// A fixed-size array of element values.
    FixedArr(Vec<Value>),
}

/// The decode fault: the wire data disagrees with the statically declared
/// interface shape.  It is unrecoverable by design, so it carries nothing.
#[derive(Debug, Clone, Copy, PartialEq, Eq)]
pub struct DecodeFault;

/// Whether a value is representable by the canonical native type of a
/// parameter type: the variant agrees with the type, fixed lengths agree,
/// and every element of a composite is representable by the element type.
pub open spec fn value_matches(v: Value, t: ParamType) -> bool
    decreases t,
{
    match t {
        ParamType::Address => v is Address && v->Address_0@.len() == 20,
        ParamType::Bytes => v is Bytes,
        ParamType::Int(_) => v is Int,
        ParamType::Uint(_) => v is Uint,
        ParamType::Bool => v is Bool,
        ParamType::Str => v is Str,
        ParamType::FixedBytes(n) => if n == 32 {
            v is Hash && v->Hash_0@.len() == 32
        } else {
            v is FixedBytes && v->FixedBytes_0@.len() == n
        },
        ParamType::Array(k) => v is Array && (forall|i: int|
            0 <= i < v->Array_0@.len() ==> value_matches(#[trigger] v->Array_0@[i], *k)),
        ParamType::FixedArray(k, n) => {
            &&& v is FixedArr
            &&& v->FixedArr_0@.len() == n
            &&& forall|i: int|
                0 <= i < v->FixedArr_0@.len() ==> value_matches(#[trigger] v->FixedArr_0@[i], *k)
        },
    }
}

/// Observable equality of two values at a parameter type: the payloads a
/// consumer can read are equal, element-wise through composites.
pub open spec fn value_eq_at(a: Value, b: Value, t: ParamType) -> bool
    decreases t,
{
    match t {
        ParamType::Address => a is Address && b is Address
            && a->Address_0@ == b->Address_0@,
        ParamType::Bytes => a is Bytes && b is Bytes && a->Bytes_0@ == b->Bytes_0@,
        ParamType::Int(_) => a is Int && b is Int && a->Int_0 == b->Int_0,
        ParamType::Uint(_) => a is Uint && b is Uint && a->Uint_0 == b->Uint_0,
        ParamType::Bool => a is Bool && b is Bool && a->Bool_0 == b->Bool_0,
        ParamType::Str => a is Str && b is Str && a->Str_0@ == b->Str_0@,
        ParamType::FixedBytes(n) => if n == 32 {
            a is Hash && b is Hash && a->Hash_0@ == b->Hash_0@
        } else {
            a is FixedBytes && b is FixedBytes && a->FixedBytes_0@ == b->FixedBytes_0@
        },
        ParamType::Array(k) => {
            &&& a is Array
            &&& b is Array
            &&& a->Array_0@.len() == b->Array_0@.len()
            &&& forall|i: int|
                0 <= i < a->Array_0@.len() ==> value_eq_at(
                    #[trigger] a->Array_0@[i],
                    b->Array_0@[i],
                    *k,
                )
        },
        ParamType::FixedArray(k, n) => {
            &&& a is FixedArr
            &&& b is FixedArr
            &&& a->FixedArr_0@.len() == n
            &&& b->FixedArr_0@.len() == n
            &&& forall|i: int|
                0 <= i < a->FixedArr_0@.len() ==> value_eq_at(
                    #[trigger] a->FixedArr_0@[i],
                    b->FixedArr_0@[i],
                    *k,
                )
        },
    }
}

/// What encoding a value at a parameter type produces: leaves wrap the
/// payload in the matching token variant, a fixed-bytes value is carried as
/// its bytes, and composites encode element-wise into the matching array
/// token variant.
pub open spec fn encodes(v: Value, t: ParamType, tok: Token) -> bool
    decreases t,
{
    match t {
        ParamType::Address => tok is Address && v is Address
            && tok->Address_0@ == v->Address_0@,
        ParamType::Bytes => tok is Bytes && v is Bytes && tok->Bytes_0@ == v->Bytes_0@,
        ParamType::Int(_) => tok is Int && v is Int && tok->Int_0 == v->Int_0,
        ParamType::Uint(_) => tok is Uint && v is Uint && tok->Uint_0 == v->Uint_0,
        ParamType::Bool => tok is Bool && v is Bool && tok->Bool_0 == v->Bool_0,
        ParamType::Str => tok is Str && v is Str && tok->Str_0@ == v->Str_0@,
        ParamType::FixedBytes(n) => tok is FixedBytes && (if n == 32 {
            v is Hash && tok->FixedBytes_0@ == v->Hash_0@
        } else {
            v is FixedBytes && tok->FixedBytes_0@ == v->FixedBytes_0@
        }),
        ParamType::Array(k) => {
            &&& tok is Array
            &&& v is Array
            &&& tok->Array_0@.len() == v->Array_0@.len()
            &&& forall|i: int|
                0 <= i < v->Array_0@.len() ==> encodes(
                    v->Array_0@[i],
                    *k,
                    #[trigger] tok->Array_0@[i],
                )
        },
        ParamType::FixedArray(k, _) => {
            &&& tok is FixedArray
            &&& v is FixedArr
            &&& tok->FixedArray_0@.len() == v->FixedArr_0@.len()
            &&& forall|i: int|
                0 <= i < v->FixedArr_0@.len() ==> encodes(
                    v->FixedArr_0@[i],
                    *k,
                    #[trigger] tok->FixedArray_0@[i],
                )
        },
    }
}

/// The element sequence of a token, as the array extraction operation sees
/// it: either array token variant exposes its elements.
pub open spec fn token_elems(tok: Token) -> Option<Vec<Token>> {
    match tok {
        Token::Array(ts) => Some(ts),
        Token::FixedArray(ts) => Some(ts),
        _ => None,
    }
}

/// Whether decoding a token at a parameter type succeeds.  A leaf requires
/// the matching tag, a fixed-bytes leaf also the declared payload length; an
/// array requires every extracted element to decode; a fixed-size array
/// requires at least its declared number of elements, of which exactly that
/// many are materialized, so only those must decode.
pub open spec fn decode_ok(tok: Token, t: ParamType) -> bool
    decreases t,
{
    match t {
        ParamType::Address => tok is Address,
        ParamType::Bytes => tok is Bytes,
        ParamType::Int(_) => tok is Int,
        ParamType::Uint(_) => tok is Uint,
        ParamType::Bool => tok is Bool,
        ParamType::Str => tok is Str,
        ParamType::FixedBytes(n) => tok is FixedBytes && tok->FixedBytes_0@.len() == n,
        ParamType::Array(k) => match token_elems(tok) {
            Some(ts) => forall|i: int|
                0 <= i < ts@.len() ==> decode_ok(#[trigger] ts@[i], *k),
            None => false,
        },
        ParamType::FixedArray(k, n) => match token_elems(tok) {
            Some(ts) => ts@.len() >= n && (forall|i: int|
                0 <= i < n ==> decode_ok(#[trigger] ts@[i], *k)),
            None => false,
        },
    }
}

/// What decoding a token at a parameter type yields, as a relation: holds
/// exactly when decoding succeeds and produces the given value.
pub open spec fn decoded(tok: Token, t: ParamType, v: Value) -> bool
    decreases t,
{
    match t {
        ParamType::Address => tok is Address && v is Address
            && v->Address_0@ == tok->Address_0@,
        ParamType::Bytes => tok is Bytes && v is Bytes && v->Bytes_0@ == tok->Bytes_0@,
        ParamType::Int(_) => tok is Int && v is Int && v->Int_0 == tok->Int_0,
        ParamType::Uint(_) => tok is Uint && v is Uint && v->Uint_0 == tok->Uint_0,
        ParamType::Bool => tok is Bool && v is Bool && v->Bool_0 == tok->Bool_0,
        ParamType::Str => tok is Str && v is Str && v->Str_0@ == tok->Str_0@,
        ParamType::FixedBytes(n) => tok is FixedBytes && tok->FixedBytes_0@.len() == n && (
        if n == 32 {
            v is Hash && v->Hash_0@ == tok->FixedBytes_0@
        } else {
            v is FixedBytes && v->FixedBytes_0@ == tok->FixedBytes_0@
        }),
        ParamType::Array(k) => match token_elems(tok) {
            Some(ts) => {
                &&& v is Array
                &&& v->Array_0@.len() == ts@.len()
                &&& forall|i: int|
                    0 <= i < ts@.len() ==> decoded(ts@[i], *k, #[trigger] v->Array_0@[i])
            },
            None => false,
        },
        ParamType::FixedArray(k, n) => match token_elems(tok) {
            Some(ts) => {
                &&& v is FixedArr
                &&& ts@.len() >= n
                &&& v->FixedArr_0@.len() == n
                &&& forall|i: int|
                    0 <= i < n ==> decoded(ts@[i], *k, #[trigger] v->FixedArr_0@[i])
            },
            None => false,
        },
    }
}

/// Encodes the elements of a sequence, in order, at one element type.
fn encode_elems(vs: Vec<Value>, k: &ParamType) -> (r: Vec<Token>)
    requires
        forall|i: int| 0 <= i < vs@.len() ==> value_matches(#[trigger] vs@[i], *k),
    ensures
        r@.len() == vs@.len(),
        forall|i: int| 0 <= i < vs@.len() ==> encodes(vs@[i], *k, #[trigger] r@[i]),
    decreases k, 1int,
{
    let ghost orig = vs@;
    let mut rest = vs;
    let mut out: Vec<Token> = Vec::new();
    while rest.len() > 0
        invariant
            out@.len() + rest@.len() == orig.len(),
            rest@ == orig.skip(out@.len() as int),
            forall|i: int| 0 <= i < orig.len() ==> value_matches(#[trigger] orig[i], *k),
            forall|j: int| 0 <= j < out@.len() ==> encodes(orig[j], *k, #[trigger] out@[j]),
        decreases rest@.len(),
    {
        let e = rest.remove(0);
        proof {
            assert(e == orig[out@.len() as int]);
            assert(rest@ =~= orig.skip(out@.len() as int + 1));
        }
        let tok = encode_value(e, k);
        out.push(tok);
    }
    out
}

/// Serializes a native value into the wire token of a parameter type.
///
/// This is the meaning of the generated encode expression: the token's tag
/// always matches the variant implied by the parameter type, and the
/// payloads carry the value unchanged.
pub fn encode_value(v: Value, t: &ParamType) -> (r: Token)
    requires
        value_matches(v, *t),
    ensures
        encodes(v, *t, r),
    decreases t, 0int,
{
    match t {
        ParamType::Address => match v {
            Value::Address(b) => Token::Address(b),
            _ => unreached(),
        },
        ParamType::Bytes => match v {
            Value::Bytes(b) => Token::Bytes(b),
            _ => unreached(),
        },
        ParamType::Int(_) => match v {
            Value::Int(w) => Token::Int(w),
            _ => unreached(),
        },
        ParamType::Uint(_) => match v {
            Value::Uint(w) => Token::Uint(w),
            _ => unreached(),
        },
        ParamType::Bool => match v {
            Value::Bool(b) => Token::Bool(b),
            _ => unreached(),
        },
        ParamType::Str => match v {
            Value::Str(s) => Token::Str(s),
            _ => unreached(),
        },
        ParamType::FixedBytes(n) => {
            if *n == 32 {
                match v {
                    Value::Hash(b) => Token::FixedBytes(b),
                    _ => unreached(),
                }
            } else {
                match v {
                    Value::FixedBytes(b) => Token::FixedBytes(b),
                    _ => unreached(),
                }
            }
        },
        ParamType::Array(k) => match v {
            Value::Array(elems) => {
                let out = encode_elems(elems, k);
                Token::Array(out)
            },
            _ => unreached(),
        },
        ParamType::FixedArray(k, _) => match v {
            Value::FixedArr(elems) => {
                let out = encode_elems(elems, k);
                Token::FixedArray(out)
            },
            _ => unreached(),
        },
    }
}

/// Decodes the elements of an extracted token sequence, in order, at one
/// element type, faulting as soon as one element faults.
fn decode_elems(ts: Vec<Token>, k: &ParamType) -> (r: Result<Vec<Value>, DecodeFault>)
    ensures
        (r is Ok) == (forall|i: int| 0 <= i < ts@.len() ==> decode_ok(#[trigger] ts@[i], *k)),
        r is Ok ==> r->Ok_0@.len() == ts@.len(),
        r is Ok ==> forall|i: int|
            0 <= i < ts@.len() ==> decoded(ts@[i], *k, #[trigger] r->Ok_0@[i]),
    decreases k, 1int,
{
    let ghost orig = ts@;
    let mut rest = ts;
    let mut out: Vec<Value> = Vec::new();
    while rest.len() > 0
        invariant
            orig == ts@,
            out@.len() + rest@.len() == orig.len(),
            rest@ == orig.skip(out@.len() as int),
            forall|j: int| 0 <= j < out@.len() ==> decode_ok(#[trigger] orig[j], *k),
            forall|j: int| 0 <= j < out@.len() ==> decoded(orig[j], *k, #[trigger] out@[j]),
        decreases rest@.len(),
    {
        let e = rest.remove(0);
        proof {
            assert(e == orig[out@.len() as int]);
            assert(rest@ =~= orig.skip(out@.len() as int + 1));
        }
        match decode_value(e, k) {
            Ok(v) => out.push(v),
            Err(f) => {
                proof {
                    assert(out@.len() < ts@.len());
                    assert(!decode_ok(ts@[out@.len() as int], *k));
                }
                return Err(f);
            },
        }
    }
    proof {
        assert(out@.len() == ts@.len());
        assert(forall|i: int| 0 <= i < ts@.len() ==> decode_ok(#[trigger] ts@[i], *k));
        assert(forall|i: int| 0 <= i < ts@.len() ==> decoded(ts@[i], *k, #[trigger] out@[i]));
    }
    Ok(out)
}

/// Deserializes a wire token back into the native value of a parameter
/// type.
///
/// This is the meaning of the generated decode expression: it succeeds
/// exactly when the token's shape agrees with the parameter type, and it
/// faults rather than coerce on a tag mismatch, on a fixed-bytes payload of
/// the wrong length, or on an array token carrying fewer elements than a
/// fixed-size array declares.
#[verifier::rlimit(60)]
pub fn decode_value(tok: Token, t: &ParamType) -> (r: Result<Value, DecodeFault>)
    ensures
        (r is Ok) == decode_ok(tok, *t),
        r is Ok ==> decoded(tok, *t, r->Ok_0),
    decreases t, 0int,
{
    match t {
        ParamType::Address => match tok {
            Token::Address(b) => Ok(Value::Address(b)),
            _ => Err(DecodeFault),
        },
        ParamType::Bytes => match tok {
            Token::Bytes(b) => Ok(Value::Bytes(b)),
            _ => Err(DecodeFault),
        },
        ParamType::Int(_) => match tok {
            Token::Int(w) => Ok(Value::Int(w)),
            _ => Err(DecodeFault),
        },
        ParamType::Uint(_) => match tok {
            Token::Uint(w) => Ok(Value::Uint(w)),
            _ => Err(DecodeFault),
        },
        ParamType::Bool => match tok {
            Token::Bool(b) => Ok(Value::Bool(b)),
            _ => Err(DecodeFault),
        },
        ParamType::Str => match tok {
            Token::Str(s) => Ok(Value::Str(s)),
            _ => Err(DecodeFault),
        },
        ParamType::FixedBytes(n) => match tok {
            Token::FixedBytes(b) => {
                if b.len() == *n {
                    if *n == 32 {
                        Ok(Value::Hash(b))
                    } else {
                        Ok(Value::FixedBytes(b))
                    }
                } else {
                    Err(DecodeFault)
                }
            },
            _ => Err(DecodeFault),
        },
        ParamType::Array(k) => {
            let elems = match tok {
                Token::Array(ts) => ts,
                Token::FixedArray(ts) => ts,
                _ => {
                    proof {
                        assert(!decode_ok(tok, *t));
                    }
                    return Err(DecodeFault);
                },
            };
            let ghost e0 = elems@;
            proof {
                assert(token_elems(tok) is Some);
                assert(token_elems(tok)->Some_0@ == e0);
            }
            match decode_elems(elems, k) {
                Ok(vs) => {
                    proof {
                        assert(decode_ok(tok, *t));
                        assert(decoded(tok, *t, Value::Array(vs)));
                    }
                    Ok(Value::Array(vs))
                },
                Err(f) => {
                    proof {
                        assert(!decode_ok(tok, *t));
                    }
                    Err(f)
                },
            }
        },
        ParamType::FixedArray(k, n) => {
            let mut elems = match tok {
                Token::Array(ts) => ts,
                Token::FixedArray(ts) => ts,
                _ => {
                    proof {
                        assert(!decode_ok(tok, *t));
                    }
                    return Err(DecodeFault);
                },
            };
            let ghost whole = elems@;
            proof {
                assert(token_elems(tok) is Some);
                assert(token_elems(tok)->Some_0@ == whole);
            }
            if elems.len() < *n {
                proof {
                    assert(!decode_ok(tok, *t));
                }
                return Err(DecodeFault);
            }
            elems.truncate(*n);
            proof {
                assert(elems@ =~= whole.subrange(0, *n as int));
                assert forall|i: int| 0 <= i < *n implies #[trigger] whole[i] == elems@[i] by {
                    assert(whole.subrange(0, *n as int)[i] == whole[i]);
                }
            }
            match decode_elems(elems, k) {
                Ok(vs) => {
                    proof {
                        assert(decode_ok(tok, *t));
                        assert(decoded(tok, *t, Value::FixedArr(vs)));
                    }
                    Ok(Value::FixedArr(vs))
                },
                Err(f) => {
                    proof {
                        assert(!decode_ok(tok, *t));
                    }
                    Err(f)
                },
            }
        },
    }
}

/// Encoding never produces a token that its own type cannot decode: the
/// generated encode expression always constructs the variant that the
/// generated decode expression extracts.
pub proof fn lemma_encode_decode_ok(v: Value, t: ParamType, tok: Token)
    requires
        value_matches(v, t),
        encodes(v, t, tok),
    ensures
        decode_ok(tok, t),
    decreases t,
{
    match t {
        ParamType::Array(k) => {
            let ts = tok->Array_0;
            assert forall|i: int| 0 <= i < ts@.len() implies decode_ok(
                #[trigger] ts@[i],
                *k,
            ) by {
                lemma_encode_decode_ok(v->Array_0@[i], *k, ts@[i]);
            }
        },
        ParamType::FixedArray(k, n) => {
            let ts = tok->FixedArray_0;
            assert forall|i: int| 0 <= i < n implies decode_ok(#[trigger] ts@[i], *k) by {
                lemma_encode_decode_ok(v->FixedArr_0@[i], *k, ts@[i]);
            }
        },
        _ => {},
    }
}

/// The round-trip law: any value decoded from the encoding of `v` is
/// observably equal to `v`, for every parameter type shape and every value
/// representable by its native type.
pub proof fn lemma_round_trip(v: Value, t: ParamType, tok: Token, w: Value)
    requires
        value_matches(v, t),
        encodes(v, t, tok),
        decoded(tok, t, w),
    ensures
        value_eq_at(v, w, t),
    decreases t,
{
    match t {
        ParamType::Array(k) => {
            let ts = tok->Array_0;
            assert forall|i: int| 0 <= i < v->Array_0@.len() implies value_eq_at(
                #[trigger] v->Array_0@[i],
                w->Array_0@[i],
                *k,
            ) by {
                lemma_round_trip(v->Array_0@[i], *k, ts@[i], w->Array_0@[i]);
            }
        },
        ParamType::FixedArray(k, n) => {
            let ts = tok->FixedArray_0;
            assert forall|i: int| 0 <= i < v->FixedArr_0@.len() implies value_eq_at(
                #[trigger] v->FixedArr_0@[i],
                w->FixedArr_0@[i],
                *k,
            ) by {
                lemma_round_trip(v->FixedArr_0@[i], *k, ts@[i], w->FixedArr_0@[i]);
            }
        },
        _ => {},
    }
}

} // verus!
