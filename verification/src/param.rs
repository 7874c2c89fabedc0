//! The entity model: parameter types and the contract member graph.

use vstd::prelude::*;

verus! {

/// A closed, recursive description of an interface parameter type.
///
/// Leaf variants carry their width or length as given by the interface
/// description; the two composite variants nest arbitrarily.
#[derive(Debug, PartialEq, Eq)]
pub enum ParamType {
    /// An account address handle.
    Address,
    /// A variable-length byte sequence.
    Bytes,
    /// A signed integer of the given bit width.
    Int(usize),
    /// An unsigned integer of the given bit width.
    Uint(usize),
    /// A boolean.
    Bool,
    /// A text string.
    Str,
    /// A byte sequence whose length is fixed at description time.
    FixedBytes(usize),
    /// A homogeneous variable-length sequence.
    Array(Box<ParamType>),
    /// A homogeneous sequence whose length is fixed at description time.
    FixedArray(Box<ParamType>, usize),
}

impl Clone for ParamType {
    fn clone(&self) -> (r: Self)
        ensures
            r == *self,
        decreases self,
    {
        match self {
            ParamType::Address => ParamType::Address,
            ParamType::Bytes => ParamType::Bytes,
            ParamType::Int(w) => ParamType::Int(*w),
            ParamType::Uint(w) => ParamType::Uint(*w),
            ParamType::Bool => ParamType::Bool,
            ParamType::Str => ParamType::Str,
            ParamType::FixedBytes(n) => ParamType::FixedBytes(*n),
            ParamType::Array(k) => ParamType::Array(Box::new((**k).clone())),
            ParamType::FixedArray(k, n) => ParamType::FixedArray(Box::new((**k).clone()), *n),
        }
    }
}

/// A declared parameter: a name, possibly empty, and its type.
pub struct Param {
    pub name: String,
    pub kind: ParamType,
}

/// A callable contract function: ordered inputs and ordered outputs.
pub struct Function {
    pub name: String,
    pub inputs: Vec<Param>,
    pub outputs: Vec<Param>,
}

/// A declared event parameter: a parameter that may be flagged as indexed
/// for downstream log filtering.
pub struct EventParam {
    pub name: String,
    pub kind: ParamType,
    pub indexed: bool,
}

/// A contract event: ordered inputs only.
pub struct Event {
    pub name: String,
    pub inputs: Vec<EventParam>,
}

/// A contract constructor: ordered inputs, no outputs.
pub struct Constructor {
    pub inputs: Vec<Param>,
}

/// The whole entity graph handed in by the external interface parser.
pub struct Contract {
    pub constructor: Option<Constructor>,
    pub functions: Vec<Function>,
    pub events: Vec<Event>,
}

} // verus!
