//! The meaning of the generated codec expressions: what an encode
//! expression builds from its subject value and what a decode expression
//! yields from its subject token, with the proofs that the generated
//! expressions agree with the reference codec and are mutually inverse.

use vstd::prelude::*;

use crate::codec::{spec_from_token, spec_to_token};
use crate::expr::Expr;
use crate::param::ParamType;
use crate::tokens::{
    decoded, encodes, lemma_round_trip, token_elems, value_eq_at, value_matches, Token, Value,
};

verus! {

/// Whether an expression is a plain reference to the bound input: the one
/// free identifier of a generated codec expression, or the element variable
/// of the nearest mapping.
pub open spec fn is_name(e: Expr) -> bool {
    e is Var || e is Inner
}

/// What a generated encode expression computes when its free name denotes
/// the subject value: the relation between the subject and the token the
/// expression builds.
pub open spec fn expr_encodes(e: Expr, subject: Value, tok: Token) -> bool
    decreases e,
{
    match e {
        Expr::WrapAddress(x) => is_name(*x) && tok is Address && subject is Address
            && tok->Address_0@ == subject->Address_0@,
        Expr::WrapBytes(x) => is_name(*x) && tok is Bytes && subject is Bytes
            && tok->Bytes_0@ == subject->Bytes_0@,
        Expr::WrapFixedBytes(x) => is_name(*x) && tok is FixedBytes && (
        (subject is Hash && tok->FixedBytes_0@ == subject->Hash_0@) || (subject is FixedBytes
            && tok->FixedBytes_0@ == subject->FixedBytes_0@)),
        Expr::WrapInt(x) => is_name(*x) && tok is Int && subject is Int
            && tok->Int_0 == subject->Int_0,
        Expr::WrapUint(x) => is_name(*x) && tok is Uint && subject is Uint
            && tok->Uint_0 == subject->Uint_0,
        Expr::WrapBool(x) => is_name(*x) && tok is Bool && subject is Bool
            && tok->Bool_0 == subject->Bool_0,
        Expr::WrapStr(x) => is_name(*x) && tok is Str && subject is Str
            && tok->Str_0@ == subject->Str_0@,
        Expr::WrapArray(src, body) => {
            &&& is_name(*src)
            &&& subject is Array
            &&& tok is Array
            &&& tok->Array_0@.len() == subject->Array_0@.len()
            &&& forall|i: int|
                0 <= i < subject->Array_0@.len() ==> expr_encodes(
                    *body,
                    subject->Array_0@[i],
                    #[trigger] tok->Array_0@[i],
                )
        },
        Expr::WrapFixedArray(src, body) => {
            &&& is_name(*src)
            &&& subject is FixedArr
            &&& tok is FixedArray
            &&& tok->FixedArray_0@.len() == subject->FixedArr_0@.len()
            &&& forall|i: int|
                0 <= i < subject->FixedArr_0@.len() ==> expr_encodes(
                    *body,
                    subject->FixedArr_0@[i],
                    #[trigger] tok->FixedArray_0@[i],
                )
        },
        _ => false,
    }
}

/// What a generated decode expression yields when its free name denotes the
/// subject token: the relation between the token and the value the
/// expression materializes; it holds only when every extraction succeeds.
pub open spec fn expr_decodes(e: Expr, tok: Token, v: Value) -> bool
    decreases e,
{
    match e {
        Expr::UnwrapAddress(x) => is_name(*x) && tok is Address && v is Address
            && v->Address_0@ == tok->Address_0@,
        Expr::UnwrapBytes(x) => is_name(*x) && tok is Bytes && v is Bytes
            && v->Bytes_0@ == tok->Bytes_0@,
        Expr::UnwrapHash(x) => is_name(*x) && tok is FixedBytes
            && tok->FixedBytes_0@.len() == 32 && v is Hash && v->Hash_0@ == tok->FixedBytes_0@,
        Expr::UnwrapFixedBytes(x, n) => is_name(*x) && tok is FixedBytes
            && tok->FixedBytes_0@.len() == n && v is FixedBytes
            && v->FixedBytes_0@ == tok->FixedBytes_0@,
        Expr::UnwrapInt(x) => is_name(*x) && tok is Int && v is Int && v->Int_0 == tok->Int_0,
        Expr::UnwrapUint(x) => is_name(*x) && tok is Uint && v is Uint
            && v->Uint_0 == tok->Uint_0,
        Expr::UnwrapBool(x) => is_name(*x) && tok is Bool && v is Bool
            && v->Bool_0 == tok->Bool_0,
        Expr::UnwrapStr(x) => is_name(*x) && tok is Str && v is Str && v->Str_0@ == tok->Str_0@,
        Expr::UnwrapArray(src, body) => is_name(*src) && (match token_elems(tok) {
            Some(ts) => {
                &&& v is Array
                &&& v->Array_0@.len() == ts@.len()
                &&& forall|i: int|
                    0 <= i < ts@.len() ==> expr_decodes(
                        *body,
                        ts@[i],
                        #[trigger] v->Array_0@[i],
                    )
            },
            None => false,
        }),
        Expr::UnwrapFixedArray(src, body, n) => is_name(*src) && (match token_elems(tok) {
            Some(ts) => {
                &&& ts@.len() >= n
                &&& v is FixedArr
                &&& v->FixedArr_0@.len() == n
                &&& forall|i: int|
                    0 <= i < n ==> expr_decodes(*body, ts@[i], #[trigger] v->FixedArr_0@[i])
            },
            None => false,
        }),
        _ => false,
    }
}

/// The generated encode expression means exactly what the reference codec
/// does: for every parameter type and every value representable by its
/// native type, the expression builds a token if and only if the codec
/// encodes the value to that token.
pub proof fn lemma_to_token_means_encode(n: Expr, t: ParamType, v: Value, tok: Token)
    requires
        is_name(n),
        value_matches(v, t),
    ensures
        expr_encodes(spec_to_token(n, t), v, tok) == encodes(v, t, tok),
    decreases t,
{
    match t {
        ParamType::Array(k) => {
            if expr_encodes(spec_to_token(n, t), v, tok) || encodes(v, t, tok) {
                if tok is Array && v is Array && tok->Array_0@.len() == v->Array_0@.len() {
                    assert forall|i: int| 0 <= i < v->Array_0@.len() implies expr_encodes(
                        spec_to_token(Expr::Inner, *k),
                        v->Array_0@[i],
                        #[trigger] tok->Array_0@[i],
                    ) == encodes(v->Array_0@[i], *k, tok->Array_0@[i]) by {
                        lemma_to_token_means_encode(
                            Expr::Inner,
                            *k,
                            v->Array_0@[i],
                            tok->Array_0@[i],
                        );
                    }
                }
            }
        },
        ParamType::FixedArray(k, _) => {
            if expr_encodes(spec_to_token(n, t), v, tok) || encodes(v, t, tok) {
                if tok is FixedArray && v is FixedArr && tok->FixedArray_0@.len()
                    == v->FixedArr_0@.len() {
                    assert forall|i: int| 0 <= i < v->FixedArr_0@.len() implies expr_encodes(
                        spec_to_token(Expr::Inner, *k),
                        v->FixedArr_0@[i],
                        #[trigger] tok->FixedArray_0@[i],
                    ) == encodes(v->FixedArr_0@[i], *k, tok->FixedArray_0@[i]) by {
                        lemma_to_token_means_encode(
                            Expr::Inner,
                            *k,
                            v->FixedArr_0@[i],
                            tok->FixedArray_0@[i],
                        );
                    }
                }
            }
        },
        _ => {},
    }
}

/// The generated decode expression means exactly what the reference codec
/// does: for every parameter type, the expression materializes a value from
/// a token if and only if the codec decodes that token to the value.
pub proof fn lemma_from_token_means_decode(n: Expr, t: ParamType, tok: Token, v: Value)
    requires
        is_name(n),
    ensures
        expr_decodes(spec_from_token(t, n), tok, v) == decoded(tok, t, v),
    decreases t,
{
    match t {
        ParamType::Array(k) => {
            match token_elems(tok) {
                Some(ts) => {
                    if v is Array && v->Array_0@.len() == ts@.len() {
                        assert forall|i: int| 0 <= i < ts@.len() implies expr_decodes(
                            spec_from_token(*k, Expr::Inner),
                            ts@[i],
                            #[trigger] v->Array_0@[i],
                        ) == decoded(ts@[i], *k, v->Array_0@[i]) by {
                            lemma_from_token_means_decode(
                                Expr::Inner,
                                *k,
                                ts@[i],
                                v->Array_0@[i],
                            );
                        }
                    }
                },
                None => {},
            }
        },
        ParamType::FixedArray(k, n_len) => {
            match token_elems(tok) {
                Some(ts) => {
                    if v is FixedArr && ts@.len() >= n_len && v->FixedArr_0@.len() == n_len {
                        assert forall|i: int| 0 <= i < n_len implies expr_decodes(
                            spec_from_token(*k, Expr::Inner),
                            ts@[i],
                            #[trigger] v->FixedArr_0@[i],
                        ) == decoded(ts@[i], *k, v->FixedArr_0@[i]) by {
                            lemma_from_token_means_decode(
                                Expr::Inner,
                                *k,
                                ts@[i],
                                v->FixedArr_0@[i],
                            );
                        }
                    }
                },
                None => {},
            }
        },
        _ => {},
    }
}

/// The generated encode and decode expressions of one parameter type are
/// mutually inverse: whatever the encode expression builds from a
/// representable value, the decode expression turns back into an observably
/// equal value.
pub proof fn lemma_generated_exprs_round_trip(
    n1: Expr,
    n2: Expr,
    t: ParamType,
    v: Value,
    tok: Token,
    w: Value,
)
    requires
        is_name(n1),
        is_name(n2),
        value_matches(v, t),
        expr_encodes(spec_to_token(n1, t), v, tok),
        expr_decodes(spec_from_token(t, n2), tok, w),
    ensures
        value_eq_at(v, w, t),
{
    lemma_to_token_means_encode(n1, t, v, tok);
    lemma_from_token_means_decode(n2, t, tok, w);
    lemma_round_trip(v, t, tok, w);
}

} // verus!
