//! The token codec generator: derives, for every parameter type, the
//! expression that serializes a native value into a wire token and the
//! expression that deserializes a token back into the native value, plus the
//! conversion applied to a call-site argument and the runtime description of
//! a parameter type.

use vstd::prelude::*;

use crate::expr::{Expr, ParamDescExpr, TypeDescExpr};
use crate::param::{Param, ParamType};

verus! {

/// The encode expression for a value of a given parameter type: leaves wrap
/// the value in the matching token variant; composites map the value
/// element-wise through the element's encode expression and collect into the
/// matching array token.
pub open spec fn spec_to_token(name: Expr, kind: ParamType) -> Expr
    decreases kind,
{
    match kind {
        ParamType::Address => Expr::WrapAddress(Box::new(name)),
        ParamType::Bytes => Expr::WrapBytes(Box::new(name)),
        ParamType::FixedBytes(_) => Expr::WrapFixedBytes(Box::new(name)),
        ParamType::Int(_) => Expr::WrapInt(Box::new(name)),
        ParamType::Uint(_) => Expr::WrapUint(Box::new(name)),
        ParamType::Bool => Expr::WrapBool(Box::new(name)),
        ParamType::Str => Expr::WrapStr(Box::new(name)),
        ParamType::Array(k) => Expr::WrapArray(
            Box::new(name),
            Box::new(spec_to_token(Expr::Inner, *k)),
        ),
        ParamType::FixedArray(k, _) => Expr::WrapFixedArray(
            Box::new(name),
            Box::new(spec_to_token(Expr::Inner, *k)),
        ),
    }
}

/// Derives the expression that serializes the value denoted by `name` into
/// the wire token for `kind`.
pub fn to_token(name: Expr, kind: &ParamType) -> (r: Expr)
    ensures
        r == spec_to_token(name, *kind),
    decreases kind,
{
    match kind {
        ParamType::Address => Expr::WrapAddress(Box::new(name)),
        ParamType::Bytes => Expr::WrapBytes(Box::new(name)),
        ParamType::FixedBytes(_) => Expr::WrapFixedBytes(Box::new(name)),
        ParamType::Int(_) => Expr::WrapInt(Box::new(name)),
        ParamType::Uint(_) => Expr::WrapUint(Box::new(name)),
        ParamType::Bool => Expr::WrapBool(Box::new(name)),
        ParamType::Str => Expr::WrapStr(Box::new(name)),
        ParamType::Array(k) => {
            let body = to_token(Expr::Inner, k);
            Expr::WrapArray(Box::new(name), Box::new(body))
        },
        ParamType::FixedArray(k, _) => {
            let body = to_token(Expr::Inner, k);
            Expr::WrapFixedArray(Box::new(name), Box::new(body))
        },
    }
}

/// The decode expression for a token of a given parameter type: leaves
/// extract the matching variant, faulting on a tag mismatch; a 32-byte
/// fixed-bytes parameter rebuilds the distinguished hash type; composites
/// extract the element sequence and map it element-wise, a fixed-size array
/// materializing exactly its declared number of elements.
pub open spec fn spec_from_token(kind: ParamType, token: Expr) -> Expr
    decreases kind,
{
    match kind {
        ParamType::Address => Expr::UnwrapAddress(Box::new(token)),
        ParamType::Bytes => Expr::UnwrapBytes(Box::new(token)),
        ParamType::FixedBytes(n) => if n == 32 {
            Expr::UnwrapHash(Box::new(token))
        } else {
            Expr::UnwrapFixedBytes(Box::new(token), n)
        },
        ParamType::Int(_) => Expr::UnwrapInt(Box::new(token)),
        ParamType::Uint(_) => Expr::UnwrapUint(Box::new(token)),
        ParamType::Bool => Expr::UnwrapBool(Box::new(token)),
        ParamType::Str => Expr::UnwrapStr(Box::new(token)),
        ParamType::Array(k) => Expr::UnwrapArray(
            Box::new(token),
            Box::new(spec_from_token(*k, Expr::Inner)),
        ),
        ParamType::FixedArray(k, n) => Expr::UnwrapFixedArray(
            Box::new(token),
            Box::new(spec_from_token(*k, Expr::Inner)),
            n,
        ),
    }
}

/// Derives the expression that deserializes the token denoted by `token`
/// back into the native value for `kind`.
pub fn from_token(kind: &ParamType, token: Expr) -> (r: Expr)
    ensures
        r == spec_from_token(*kind, token),
    decreases kind,
{
    match kind {
        ParamType::Address => Expr::UnwrapAddress(Box::new(token)),
        ParamType::Bytes => Expr::UnwrapBytes(Box::new(token)),
        ParamType::FixedBytes(n) => {
            if *n == 32 {
                Expr::UnwrapHash(Box::new(token))
            } else {
                Expr::UnwrapFixedBytes(Box::new(token), *n)
            }
        },
        ParamType::Int(_) => Expr::UnwrapInt(Box::new(token)),
        ParamType::Uint(_) => Expr::UnwrapUint(Box::new(token)),
        ParamType::Bool => Expr::UnwrapBool(Box::new(token)),
        ParamType::Str => Expr::UnwrapStr(Box::new(token)),
        ParamType::Array(k) => {
            let body = from_token(k, Expr::Inner);
            Expr::UnwrapArray(Box::new(token), Box::new(body))
        },
        ParamType::FixedArray(k, n) => {
            let body = from_token(k, Expr::Inner);
            Expr::UnwrapFixedArray(Box::new(token), Box::new(body), *n)
        },
    }
}

/// The conversion applied to a bound call-site argument to obtain the
/// canonical native value: a direct conversion for leaves, an element-wise
/// collected conversion for arrays, and an element-wise conversion through a
/// boxed slice for fixed-size arrays.
pub open spec fn spec_from_template_param(input: ParamType, name: Expr) -> Expr {
    match input {
        ParamType::Array(_) => Expr::CollectInto(Box::new(name)),
        ParamType::FixedArray(_, _) => Expr::FixedCollectInto(Box::new(name)),
        _ => Expr::IntoNative(Box::new(name)),
    }
}

/// Derives the expression that converts the call-site argument denoted by
/// `name` into the canonical native value for `input`.
pub fn from_template_param(input: &ParamType, name: Expr) -> (r: Expr)
    ensures
        r == spec_from_template_param(*input, name),
{
    match input {
        ParamType::Array(_) => Expr::CollectInto(Box::new(name)),
        ParamType::FixedArray(_, _) => Expr::FixedCollectInto(Box::new(name)),
        _ => Expr::IntoNative(Box::new(name)),
    }
}

/// The runtime description of a parameter type: one constructor application
/// per variant, recursing into composite element types.
pub open spec fn spec_type_desc(t: ParamType) -> TypeDescExpr
    decreases t,
{
    match t {
        ParamType::Address => TypeDescExpr::DescAddress,
        ParamType::Bytes => TypeDescExpr::DescBytes,
        ParamType::Int(w) => TypeDescExpr::DescInt(w),
        ParamType::Uint(w) => TypeDescExpr::DescUint(w),
        ParamType::Bool => TypeDescExpr::DescBool,
        ParamType::Str => TypeDescExpr::DescStr,
        ParamType::FixedBytes(n) => TypeDescExpr::DescFixedBytes(n),
        ParamType::Array(k) => TypeDescExpr::DescArray(Box::new(spec_type_desc(*k))),
        ParamType::FixedArray(k, n) => TypeDescExpr::DescFixedArray(
            Box::new(spec_type_desc(*k)),
            n,
        ),
    }
}

/// Derives the expression that rebuilds `param_type` at the artifact's
/// runtime.
pub fn to_syntax_string(param_type: &ParamType) -> (r: TypeDescExpr)
    ensures
        r == spec_type_desc(*param_type),
    decreases param_type,
{
    match param_type {
        ParamType::Address => TypeDescExpr::DescAddress,
        ParamType::Bytes => TypeDescExpr::DescBytes,
        ParamType::Int(w) => TypeDescExpr::DescInt(*w),
        ParamType::Uint(w) => TypeDescExpr::DescUint(*w),
        ParamType::Bool => TypeDescExpr::DescBool,
        ParamType::Str => TypeDescExpr::DescStr,
        ParamType::FixedBytes(n) => TypeDescExpr::DescFixedBytes(*n),
        ParamType::Array(k) => TypeDescExpr::DescArray(Box::new(to_syntax_string(k))),
        ParamType::FixedArray(k, n) => TypeDescExpr::DescFixedArray(
            Box::new(to_syntax_string(k)),
            *n,
        ),
    }
}

/// Derives, in declaration order, the expressions that rebuild a parameter
/// list at the artifact's runtime, each carrying the declared name unchanged
/// beside its type description.
pub fn to_vapabi_param_vec(params: &[Param]) -> (r: Vec<ParamDescExpr>)
    ensures
        r@.len() == params@.len(),
        forall|i: int| 0 <= i < params@.len() ==> #[trigger] r@[i].name@ == params@[i].name@,
        forall|i: int|
            0 <= i < params@.len() ==> #[trigger] r@[i].kind == spec_type_desc(params@[i].kind),
{
    let mut r: Vec<ParamDescExpr> = Vec::new();
    let mut i: usize = 0;
    while i < params.len()
        invariant
            i <= params@.len(),
            r@.len() == i,
            forall|j: int| 0 <= j < i ==> #[trigger] r@[j].name@ == params@[j].name@,
            forall|j: int| 0 <= j < i ==> #[trigger] r@[j].kind == spec_type_desc(params@[j].kind),
        decreases params@.len() - i,
    {
        let p = &params[i];
        r.push(ParamDescExpr { name: p.name.clone(), kind: to_syntax_string(&p.kind) });
        i += 1;
    }
    r
}

} // verus!
