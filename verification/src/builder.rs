//! The signature builder: aggregates the per-parameter artifacts of the
//! type mapper and the token codec generator into whole declarations, one
//! per contract member, in declaration order.

use vstd::prelude::*;
use vstd::string::StringExecFns;

use crate::codec::{
    from_template_param, from_token, spec_from_template_param, spec_from_token, spec_type_desc,
    to_token, to_vapabi_param_vec,
};
use crate::expr::{Expr, ParamDescExpr, SlotBound, TypeExpr};
use crate::ident::{
    decimal_string, input_names, rust_variable, spec_decimal, spec_input_name, spec_rust_variable,
};
use crate::mapper::{get_output_kinds, spec_output_kinds, spec_template_bound, template_param_type};
use crate::param::{Constructor, Contract, Event, Function, Param};

verus! {

/// The generated declaration of one contract function: its sanitized name,
/// the ordered call-site identifiers with their generic bounds, the
/// aggregated output type, the encode expression of every input, the decode
/// expression of every output, and the runtime descriptions of both
/// parameter lists.
pub struct FunctionDecl {
    pub name: String,
    pub input_names: Vec<String>,
    pub input_bounds: Vec<SlotBound>,
    pub output_kind: TypeExpr,
    pub encode_exprs: Vec<Expr>,
    pub output_slots: Vec<String>,
    pub decode_exprs: Vec<Expr>,
    pub input_descs: Vec<ParamDescExpr>,
    pub output_descs: Vec<ParamDescExpr>,
}

/// The generated declaration of one event: its sanitized name, the ordered
/// identifiers, the indexed flag of every input, the decode expression of
/// every input, and the runtime descriptions.
pub struct EventDecl {
    pub name: String,
    pub input_names: Vec<String>,
    pub indexed_flags: Vec<bool>,
    pub input_slots: Vec<String>,
    pub decode_exprs: Vec<Expr>,
}

/// The generated declaration of the constructor: the ordered call-site
/// identifiers with their generic bounds, the encode expression of every
/// input, and the runtime descriptions.
pub struct ConstructorDecl {
    pub input_names: Vec<String>,
    pub input_bounds: Vec<SlotBound>,
    pub encode_exprs: Vec<Expr>,
    pub input_descs: Vec<ParamDescExpr>,
}

/// The generated declarations of a whole contract, members in declaration
/// order.
pub struct ContractDecl {
    pub constructor: Option<ConstructorDecl>,
    pub functions: Vec<FunctionDecl>,
    pub events: Vec<EventDecl>,
}

/// The name of the decoded output slot at a given position.
pub open spec fn spec_output_slot(index: nat) -> Seq<char> {
    "out"@ + spec_decimal(index)
}

/// The name of the raw event input slot at a given position.
pub open spec fn spec_log_slot(index: nat) -> Seq<char> {
    "log"@ + spec_decimal(index)
}

fn output_slot(index: usize) -> (r: String)
    ensures
        r@ == spec_output_slot(index as nat),
{
    let mut s = String::from_str("out");
    let tail = decimal_string(index);
    s.append(tail.as_str());
    s
}

fn log_slot(index: usize) -> (r: String)
    ensures
        r@ == spec_log_slot(index as nat),
{
    let mut s = String::from_str("log");
    let tail = decimal_string(index);
    s.append(tail.as_str());
    s
}

/// What the generated declaration of a function states, clause by clause,
/// relative to the described member.
pub open spec fn function_decl_matches(f: Function, r: FunctionDecl) -> bool {
    &&& r.name@ == spec_rust_variable(f.name@)
    &&& r.input_names@.len() == f.inputs@.len()
    &&& forall|i: int|
        0 <= i < f.inputs@.len() ==> (#[trigger] r.input_names@[i])@ == spec_input_name(
            f.inputs@[i].name@,
            i as nat,
        )
    &&& r.input_bounds@.len() == f.inputs@.len()
    &&& forall|i: int|
        0 <= i < f.inputs@.len() ==> (#[trigger] r.input_bounds@[i]).index == i
            && r.input_bounds@[i].constraint == spec_template_bound(f.inputs@[i].kind)
    &&& spec_output_kinds(f.outputs@, r.output_kind)
    &&& r.encode_exprs@.len() == f.inputs@.len()
    &&& forall|i: int|
        0 <= i < f.inputs@.len() ==> #[trigger] r.encode_exprs@[i] == spec_to_token_of_input(
            f.inputs@[i].kind,
            r.input_names@[i],
        )
    &&& r.output_slots@.len() == f.outputs@.len()
    &&& forall|i: int|
        0 <= i < f.outputs@.len() ==> (#[trigger] r.output_slots@[i])@ == spec_output_slot(
            i as nat,
        )
    &&& r.decode_exprs@.len() == f.outputs@.len()
    &&& forall|i: int|
        0 <= i < f.outputs@.len() ==> #[trigger] r.decode_exprs@[i] == spec_from_token(
            f.outputs@[i].kind,
            Expr::Var(r.output_slots@[i]),
        )
    &&& param_descs_match(f.inputs@, r.input_descs@)
    &&& param_descs_match(f.outputs@, r.output_descs@)
}

/// Whether a description list mirrors a parameter list, name for name and
/// type for type, in order.
pub open spec fn param_descs_match(params: Seq<Param>, descs: Seq<ParamDescExpr>) -> bool {
    &&& descs.len() == params.len()
    &&& forall|i: int|
        0 <= i < params.len() ==> (#[trigger] descs[i]).name@ == params[i].name@ && descs[i].kind
            == spec_type_desc(params[i].kind)
}

/// The encode expression generated for one bound input: the identifier is
/// first converted into the canonical native value, then serialized.
pub open spec fn spec_to_token_of_input(kind: crate::param::ParamType, ident: String) -> Expr {
    crate::codec::spec_to_token(spec_from_template_param(kind, Expr::Var(ident)), kind)
}

fn encode_exprs_of(inputs: &[Param], names: &Vec<String>) -> (r: Vec<Expr>)
    requires
        names@.len() == inputs@.len(),
    ensures
        r@.len() == inputs@.len(),
        forall|i: int|
            0 <= i < inputs@.len() ==> #[trigger] r@[i] == spec_to_token_of_input(
                inputs@[i].kind,
                names@[i],
            ),
{
    let mut r: Vec<Expr> = Vec::new();
    let mut i: usize = 0;
    while i < inputs.len()
        invariant
            i <= inputs@.len(),
            names@.len() == inputs@.len(),
            r@.len() == i,
            forall|j: int|
                0 <= j < i ==> #[trigger] r@[j] == spec_to_token_of_input(
                    inputs@[j].kind,
                    names@[j],
                ),
        decreases inputs@.len() - i,
    {
        let converted = from_template_param(&inputs[i].kind, Expr::Var(names[i].clone()));
        r.push(to_token(converted, &inputs[i].kind));
        i += 1;
    }
    r
}

fn bounds_of(inputs: &[Param]) -> (r: Vec<SlotBound>)
    ensures
        r@.len() == inputs@.len(),
        forall|i: int|
            0 <= i < inputs@.len() ==> (#[trigger] r@[i]).index == i && r@[i].constraint
                == spec_template_bound(inputs@[i].kind),
{
    let mut r: Vec<SlotBound> = Vec::new();
    let mut i: usize = 0;
    while i < inputs.len()
        invariant
            i <= inputs@.len(),
            r@.len() == i,
            forall|j: int|
                0 <= j < i ==> (#[trigger] r@[j]).index == j && r@[j].constraint
                    == spec_template_bound(inputs@[j].kind),
        decreases inputs@.len() - i,
    {
        r.push(template_param_type(&inputs[i].kind, i));
        i += 1;
    }
    r
}

/// Builds the whole declaration of one contract function.
pub fn function_decl(f: &Function) -> (r: FunctionDecl)
    ensures
        function_decl_matches(*f, r),
{
    let names = input_names(f.inputs.as_slice());
    let bounds = bounds_of(f.inputs.as_slice());
    let encode_exprs = encode_exprs_of(f.inputs.as_slice(), &names);
    let output_kind = get_output_kinds(f.outputs.as_slice());
    let mut output_slots: Vec<String> = Vec::new();
    let mut decode_exprs: Vec<Expr> = Vec::new();
    let mut i: usize = 0;
    while i < f.outputs.len()
        invariant
            i <= f.outputs@.len(),
            output_slots@.len() == i,
            decode_exprs@.len() == i,
            forall|j: int|
                0 <= j < i ==> (#[trigger] output_slots@[j])@ == spec_output_slot(j as nat),
            forall|j: int|
                0 <= j < i ==> #[trigger] decode_exprs@[j] == spec_from_token(
                    f.outputs@[j].kind,
                    Expr::Var(output_slots@[j]),
                ),
        decreases f.outputs@.len() - i,
    {
        let slot = output_slot(i);
        decode_exprs.push(from_token(&f.outputs[i].kind, Expr::Var(slot.clone())));
        output_slots.push(slot);
        i += 1;
    }
    let input_descs = to_vapabi_param_vec(f.inputs.as_slice());
    let output_descs = to_vapabi_param_vec(f.outputs.as_slice());
    FunctionDecl {
        name: rust_variable(f.name.as_str()),
        input_names: names,
        input_bounds: bounds,
        output_kind,
        encode_exprs,
        output_slots,
        decode_exprs,
        input_descs,
        output_descs,
    }
}

/// What the generated declaration of an event states relative to the
/// described member.
pub open spec fn event_decl_matches(e: Event, r: EventDecl) -> bool {
    &&& r.name@ == spec_rust_variable(e.name@)
    &&& r.input_names@.len() == e.inputs@.len()
    &&& forall|i: int|
        0 <= i < e.inputs@.len() ==> (#[trigger] r.input_names@[i])@ == spec_input_name(
            e.inputs@[i].name@,
            i as nat,
        )
    &&& r.indexed_flags@.len() == e.inputs@.len()
    &&& forall|i: int|
        0 <= i < e.inputs@.len() ==> #[trigger] r.indexed_flags@[i] == e.inputs@[i].indexed
    &&& r.input_slots@.len() == e.inputs@.len()
    &&& forall|i: int|
        0 <= i < e.inputs@.len() ==> (#[trigger] r.input_slots@[i])@ == spec_log_slot(i as nat)
    &&& r.decode_exprs@.len() == e.inputs@.len()
    &&& forall|i: int|
        0 <= i < e.inputs@.len() ==> #[trigger] r.decode_exprs@[i] == spec_from_token(
            e.inputs@[i].kind,
            Expr::Var(r.input_slots@[i]),
        )
}

/// Builds the whole declaration of one event.
pub fn event_decl(e: &Event) -> (r: EventDecl)
    ensures
        event_decl_matches(*e, r),
{
    let mut names: Vec<String> = Vec::new();
    let mut flags: Vec<bool> = Vec::new();
    let mut slots: Vec<String> = Vec::new();
    let mut decode_exprs: Vec<Expr> = Vec::new();
    let mut i: usize = 0;
    while i < e.inputs.len()
        invariant
            i <= e.inputs@.len(),
            names@.len() == i,
            flags@.len() == i,
            slots@.len() == i,
            decode_exprs@.len() == i,
            forall|j: int|
                0 <= j < i ==> (#[trigger] names@[j])@ == spec_input_name(
                    e.inputs@[j].name@,
                    j as nat,
                ),
            forall|j: int| 0 <= j < i ==> #[trigger] flags@[j] == e.inputs@[j].indexed,
            forall|j: int| 0 <= j < i ==> (#[trigger] slots@[j])@ == spec_log_slot(j as nat),
            forall|j: int|
                0 <= j < i ==> #[trigger] decode_exprs@[j] == spec_from_token(
                    e.inputs@[j].kind,
                    Expr::Var(slots@[j]),
                ),
        decreases e.inputs@.len() - i,
    {
        let p = &e.inputs[i];
        if p.name.as_str().is_empty() {
            let mut s = String::from_str("param");
            let tail = decimal_string(i);
            s.append(tail.as_str());
            names.push(s);
        } else {
            names.push(rust_variable(p.name.as_str()));
        }
        flags.push(p.indexed);
        let slot = log_slot(i);
        decode_exprs.push(from_token(&p.kind, Expr::Var(slot.clone())));
        slots.push(slot);
        i += 1;
    }
    EventDecl {
        name: rust_variable(e.name.as_str()),
        input_names: names,
        indexed_flags: flags,
        input_slots: slots,
        decode_exprs,
    }
}

/// What the generated declaration of the constructor states relative to the
/// described member.
pub open spec fn constructor_decl_matches(c: Constructor, r: ConstructorDecl) -> bool {
    &&& r.input_names@.len() == c.inputs@.len()
    &&& forall|i: int|
        0 <= i < c.inputs@.len() ==> (#[trigger] r.input_names@[i])@ == spec_input_name(
            c.inputs@[i].name@,
            i as nat,
        )
    &&& r.input_bounds@.len() == c.inputs@.len()
    &&& forall|i: int|
        0 <= i < c.inputs@.len() ==> (#[trigger] r.input_bounds@[i]).index == i
            && r.input_bounds@[i].constraint == spec_template_bound(c.inputs@[i].kind)
    &&& r.encode_exprs@.len() == c.inputs@.len()
    &&& forall|i: int|
        0 <= i < c.inputs@.len() ==> #[trigger] r.encode_exprs@[i] == spec_to_token_of_input(
            c.inputs@[i].kind,
            r.input_names@[i],
        )
    &&& param_descs_match(c.inputs@, r.input_descs@)
}

/// Builds the whole declaration of the constructor.
pub fn constructor_decl(c: &Constructor) -> (r: ConstructorDecl)
    ensures
        constructor_decl_matches(*c, r),
{
    let names = input_names(c.inputs.as_slice());
    let bounds = bounds_of(c.inputs.as_slice());
    let encode_exprs = encode_exprs_of(c.inputs.as_slice(), &names);
    let input_descs = to_vapabi_param_vec(c.inputs.as_slice());
    ConstructorDecl { input_names: names, input_bounds: bounds, encode_exprs, input_descs }
}

/// What the generated declarations of a whole contract state: one
/// declaration per member, each matching its description, members in
/// declaration order.
pub open spec fn contract_decl_matches(c: Contract, r: ContractDecl) -> bool {
    &&& r.constructor is Some == c.constructor is Some
    &&& c.constructor is Some ==> constructor_decl_matches(
        c.constructor->0,
        r.constructor->0,
    )
    &&& r.functions@.len() == c.functions@.len()
    &&& forall|i: int|
        0 <= i < c.functions@.len() ==> function_decl_matches(
            c.functions@[i],
            #[trigger] r.functions@[i],
        )
    &&& r.events@.len() == c.events@.len()
    &&& forall|i: int|
        0 <= i < c.events@.len() ==> event_decl_matches(c.events@[i], #[trigger] r.events@[i])
}

/// Builds the declarations of every member of a contract.  Members are
/// independent: each declaration depends on its own description alone.
pub fn contract_decl(c: &Contract) -> (r: ContractDecl)
    ensures
        contract_decl_matches(*c, r),
{
    let constructor = match &c.constructor {
        Some(ctor) => Some(constructor_decl(ctor)),
        None => None,
    };
    let mut functions: Vec<FunctionDecl> = Vec::new();
    let mut i: usize = 0;
    while i < c.functions.len()
        invariant
            i <= c.functions@.len(),
            functions@.len() == i,
            forall|j: int|
                0 <= j < i ==> function_decl_matches(
                    c.functions@[j],
                    #[trigger] functions@[j],
                ),
        decreases c.functions@.len() - i,
    {
        functions.push(function_decl(&c.functions[i]));
        i += 1;
    }
    let mut events: Vec<EventDecl> = Vec::new();
    let mut j: usize = 0;
    while j < c.events.len()
        invariant
            j <= c.events@.len(),
            events@.len() == j,
            forall|m: int| 0 <= m < j ==> event_decl_matches(c.events@[m], #[trigger] events@[m]),
        decreases c.events@.len() - j,
    {
        events.push(event_decl(&c.events[j]));
        j += 1;
    }
    ContractDecl { constructor, functions, events }
}

} // verus!
