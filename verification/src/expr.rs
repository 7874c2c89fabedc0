//! The structured intermediate representation that the engine emits: type
//! expressions, call-site generic bounds, and encode / decode expressions.
//! A separate emitter renders these into source text for a target language.

use vstd::prelude::*;

verus! {

/// A generated type expression: the canonical native representation of a
/// parameter type, or an aggregate of several of them.
#[derive(Debug, PartialEq, Eq)]
pub enum TypeExpr {
    /// The account address handle type.
    Address,
    /// The dynamic byte buffer type.
    Bytes,
    /// The distinguished 32-byte hash type.
    Hash,
    /// A fixed-size byte array of the given length.
    FixedBytesArr(usize),
    /// The wide signed integer type shared by every declared signed width.
    WideInt,
    /// The wide unsigned integer type shared by every declared unsigned width.
    WideUint,
    /// The boolean type.
    Bool,
    /// The text string type.
    Text,
    /// A variable-length sequence of the element type.
    Vector(Box<TypeExpr>),
    /// A fixed-size array of the element type with the given length.
    FixedArr(Box<TypeExpr>, usize),
    /// The unit type, for members without outputs.
    Unit,
    /// An ordered tuple, for members with two or more outputs.
    Tuple(Vec<TypeExpr>),
}

/// The generic constraint shape derived for one call-site parameter slot.
#[derive(Debug, PartialEq, Eq)]
pub enum Bound {
    /// The outer slot converts directly into the given native type.
    IntoNative(TypeExpr),
    /// The outer slot is an iterable of an inner slot, and the inner slot
    /// converts into the given element type.
    IterableOf(TypeExpr),
    /// The outer slot converts into a fixed-size array, of the given length,
    /// of an inner slot that converts into the given element type.
    FixedSliceOf(TypeExpr, usize),
}

/// The constraint of the call-site slot at a given parameter position.
#[derive(Debug, PartialEq, Eq)]
pub struct SlotBound {
    /// The zero-based position of the parameter, which names its slots.
    pub index: usize,
    /// The constraint shape of those slots.
    pub constraint: Bound,
}

/// A generated value-level expression: the encode and decode fragments that
/// the codec generator derives for a parameter type.
#[derive(Debug, PartialEq, Eq)]
pub enum Expr {
    /// A reference to a bound call-site identifier.
    Var(String),
    /// The element variable bound by the nearest element-wise mapping.
    Inner,
    /// Wraps a value in the address token variant.
    WrapAddress(Box<Expr>),
    /// Wraps a value in the bytes token variant.
    WrapBytes(Box<Expr>),
    /// Wraps a value's byte rendering in the fixed-bytes token variant.
    WrapFixedBytes(Box<Expr>),
    /// Wraps a value in the signed integer token variant.
    WrapInt(Box<Expr>),
    /// Wraps a value in the unsigned integer token variant.
    WrapUint(Box<Expr>),
    /// Wraps a value in the boolean token variant.
    WrapBool(Box<Expr>),
    /// Wraps a value in the string token variant.
    WrapStr(Box<Expr>),
    /// Maps the source element-wise through the body and collects the
    /// results into a variable-length array token.
    WrapArray(Box<Expr>, Box<Expr>),
    /// Maps the source element-wise through the body and collects the
    /// results into a fixed-size array token.
    WrapFixedArray(Box<Expr>, Box<Expr>),
    /// Extracts the address payload of a token, faulting on a tag mismatch.
    UnwrapAddress(Box<Expr>),
    /// Extracts the bytes payload of a token, faulting on a tag mismatch.
    UnwrapBytes(Box<Expr>),
    /// Extracts a fixed-bytes payload and rebuilds the distinguished
    /// 32-byte hash type from it.
    UnwrapHash(Box<Expr>),
    /// Extracts a fixed-bytes payload and copies it into a buffer of the
    /// given length.
    UnwrapFixedBytes(Box<Expr>, usize),
    /// Extracts the signed integer payload of a token.
    UnwrapInt(Box<Expr>),
    /// Extracts the unsigned integer payload of a token.
    UnwrapUint(Box<Expr>),
    /// Extracts the boolean payload of a token.
    UnwrapBool(Box<Expr>),
    /// Extracts the string payload of a token.
    UnwrapStr(Box<Expr>),
    /// Extracts an array token's elements and maps each through the body,
    /// collecting into the native sequence type.
    UnwrapArray(Box<Expr>, Box<Expr>),
    /// Extracts an array token's elements, maps each through the body, and
    /// materializes exactly the given number of them into a fixed-size
    /// array, faulting if fewer are present.
    UnwrapFixedArray(Box<Expr>, Box<Expr>, usize),
    /// Converts a value into its canonical native type.
    IntoNative(Box<Expr>),
    /// Converts an iterable element-wise and collects into the native
    /// sequence type.
    CollectInto(Box<Expr>),
    /// Converts a fixed-size array element-wise, through a boxed slice,
    /// into the native sequence type.
    FixedCollectInto(Box<Expr>),
}

/// A generated expression that reconstructs a parameter type description at
/// the artifact's runtime: one constructor application per variant.
#[derive(Debug, PartialEq, Eq)]
pub enum TypeDescExpr {
    DescAddress,
    DescBytes,
    DescInt(usize),
    DescUint(usize),
    DescBool,
    DescStr,
    DescFixedBytes(usize),
    DescArray(Box<TypeDescExpr>),
    DescFixedArray(Box<TypeDescExpr>, usize),
}

/// A generated expression that rebuilds a declared parameter, name and type
/// description together.
#[derive(Debug, PartialEq, Eq)]
pub struct ParamDescExpr {
    pub name: String,
    pub kind: TypeDescExpr,
}

} // verus!
