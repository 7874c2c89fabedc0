//! The type mapper: derives, for every parameter type, the canonical native
//! type and the permissive call-site generic bound, and aggregates output
//! types per contract member.

use vstd::prelude::*;

use crate::expr::{Bound, SlotBound, TypeExpr};
use crate::param::{Param, ParamType};

verus! {

/// The canonical native type of a parameter type.
///
/// All integer widths share the one wide representation; a 32-byte
/// fixed-bytes parameter maps to the distinguished hash type; composites
/// recurse.
pub open spec fn spec_rust_type(t: ParamType) -> TypeExpr
    decreases t,
{
    match t {
        ParamType::Address => TypeExpr::Address,
        ParamType::Bytes => TypeExpr::Bytes,
        ParamType::Int(_) => TypeExpr::WideInt,
        ParamType::Uint(_) => TypeExpr::WideUint,
        ParamType::Bool => TypeExpr::Bool,
        ParamType::Str => TypeExpr::Text,
        ParamType::FixedBytes(n) => if n == 32 {
            TypeExpr::Hash
        } else {
            TypeExpr::FixedBytesArr(n)
        },
        ParamType::Array(k) => TypeExpr::Vector(Box::new(spec_rust_type(*k))),
        ParamType::FixedArray(k, n) => TypeExpr::FixedArr(Box::new(spec_rust_type(*k)), n),
    }
}

/// Maps a parameter type to its canonical native type expression.
pub fn rust_type(input: &ParamType) -> (r: TypeExpr)
    ensures
        r == spec_rust_type(*input),
    decreases input,
{
    match input {
        ParamType::Address => TypeExpr::Address,
        ParamType::Bytes => TypeExpr::Bytes,
        ParamType::Int(_) => TypeExpr::WideInt,
        ParamType::Uint(_) => TypeExpr::WideUint,
        ParamType::Bool => TypeExpr::Bool,
        ParamType::Str => TypeExpr::Text,
        ParamType::FixedBytes(n) => {
            if *n == 32 {
                TypeExpr::Hash
            } else {
                TypeExpr::FixedBytesArr(*n)
            }
        },
        ParamType::Array(k) => TypeExpr::Vector(Box::new(rust_type(k))),
        ParamType::FixedArray(k, n) => TypeExpr::FixedArr(Box::new(rust_type(k)), *n),
    }
}

/// The call-site constraint shape of one parameter type: leaves take a
/// directly convertible slot; an array takes an iterable of an inner slot
/// convertible into the element's native type; a fixed-size array takes a
/// slot convertible into a fixed-size array of such an inner slot.
pub open spec fn spec_template_bound(t: ParamType) -> Bound {
    match t {
        ParamType::Array(k) => Bound::IterableOf(spec_rust_type(*k)),
        ParamType::FixedArray(k, n) => Bound::FixedSliceOf(spec_rust_type(*k), n),
        _ => Bound::IntoNative(spec_rust_type(t)),
    }
}

/// Derives the generic bound of the call-site slot for the parameter at the
/// given position.
pub fn template_param_type(input: &ParamType, index: usize) -> (r: SlotBound)
    ensures
        r.index == index,
        r.constraint == spec_template_bound(*input),
{
    let constraint = match input {
        ParamType::Array(k) => Bound::IterableOf(rust_type(k)),
        ParamType::FixedArray(k, n) => Bound::FixedSliceOf(rust_type(k), *n),
        _ => Bound::IntoNative(rust_type(input)),
    };
    SlotBound { index, constraint }
}

/// The aggregated output type of a member: unit for no outputs, the single
/// output's native type alone, or an ordered tuple of every output's native
/// type, in declaration order.
pub open spec fn spec_output_kinds(outputs: Seq<Param>, r: TypeExpr) -> bool {
    if outputs.len() == 0 {
        r == TypeExpr::Unit
    } else if outputs.len() == 1 {
        r == spec_rust_type(outputs[0].kind)
    } else {
        &&& r is Tuple
        &&& r->Tuple_0@ == outputs.map(|i: int, p: Param| spec_rust_type(p.kind))
    }
}

/// Aggregates a member's ordered outputs into one result type expression.
pub fn get_output_kinds(outputs: &[Param]) -> (r: TypeExpr)
    ensures
        spec_output_kinds(outputs@, r),
{
    if outputs.len() == 0 {
        TypeExpr::Unit
    } else if outputs.len() == 1 {
        rust_type(&outputs[0].kind)
    } else {
        let mut outs: Vec<TypeExpr> = Vec::new();
        let mut i: usize = 0;
        while i < outputs.len()
            invariant
                i <= outputs@.len(),
                outs@.len() == i,
                forall|j: int| 0 <= j < i ==> outs@[j] == spec_rust_type(outputs@[j].kind),
            decreases outputs@.len() - i,
        {
            outs.push(rust_type(&outputs[i].kind));
            i += 1;
        }
        proof {
            assert(outs@ =~= outputs@.map(|i: int, p: Param| spec_rust_type(p.kind)));
        }
        TypeExpr::Tuple(outs)
    }
}

} // verus!
