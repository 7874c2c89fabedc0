//! Generation engine for strongly typed contract call bindings.
//!
//! Given the abstract description of a contract interface (its constructor,
//! functions and events, each with ordered, possibly nested parameter types),
//! this crate derives, for every parameter type: the canonical native type,
//! a permissive call-site generic bound, an expression that serializes a
//! native value into a generic wire token, and an expression that
//! deserializes a token back into the native value.  The four derivations are
//! produced as a structured intermediate representation that a separate
//! emitter renders into source text.  A reference codec over the token domain
//! gives the generated expressions their meaning and carries the proof that
//! encoding and decoding round-trip for every type shape.

pub mod builder;
pub mod codec;
pub mod expr;
pub mod ident;
pub mod mapper;
pub mod param;
pub mod semantics;
pub mod tokens;
