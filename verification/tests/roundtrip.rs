//! Tests of the reference codec: round trips across nested type shapes and
//! the decode faults.

use vapabi_codegen::param::ParamType;
use vapabi_codegen::tokens::{decode_value, encode_value, DecodeFault, Token, Value, Wide};

fn wide(n: u64) -> Wide {
    Wide { hi: 0, lo: n as u128 }
}

fn address() -> Value {
    Value::Address(vec![7u8; 20])
}

fn round_trips(make: impl Fn() -> Value, t: &ParamType) {
    let tok = encode_value(make(), t);
    let back = decode_value(tok, t).expect("round trip must decode");
    assert_eq!(back, make());
}

#[test]
fn leaves_round_trip() {
    round_trips(address, &ParamType::Address);
    round_trips(|| Value::Bytes(vec![1, 2, 3]), &ParamType::Bytes);
    round_trips(|| Value::Int(wide(9)), &ParamType::Int(128));
    round_trips(|| Value::Uint(wide(77)), &ParamType::Uint(256));
    round_trips(|| Value::Bool(true), &ParamType::Bool);
    round_trips(|| Value::Str("hello".to_owned()), &ParamType::Str);
    round_trips(|| Value::Hash(vec![5u8; 32]), &ParamType::FixedBytes(32));
    round_trips(|| Value::FixedBytes(vec![9u8; 4]), &ParamType::FixedBytes(4));
}

#[test]
fn nested_composites_round_trip() {
    let t = ParamType::Array(Box::new(ParamType::Array(Box::new(ParamType::Uint(8)))));
    round_trips(
        || {
            Value::Array(vec![
                Value::Array(vec![Value::Uint(wide(1)), Value::Uint(wide(2))]),
                Value::Array(vec![]),
                Value::Array(vec![Value::Uint(wide(3))]),
            ])
        },
        &t,
    );

    let t2 = ParamType::FixedArray(
        Box::new(ParamType::Array(Box::new(ParamType::Bool))),
        2,
    );
    round_trips(
        || {
            Value::FixedArr(vec![
                Value::Array(vec![Value::Bool(true)]),
                Value::Array(vec![Value::Bool(false), Value::Bool(true)]),
            ])
        },
        &t2,
    );

    let t3 = ParamType::Array(Box::new(ParamType::FixedArray(
        Box::new(ParamType::FixedArray(Box::new(ParamType::Str), 1)),
        1,
    )));
    round_trips(
        || {
            Value::Array(vec![Value::FixedArr(vec![Value::FixedArr(vec![Value::Str(
                "deep".to_owned(),
            )])])])
        },
        &t3,
    );
}

#[test]
fn nested_encode_produces_nested_array_tokens() {
    let t = ParamType::Array(Box::new(ParamType::Array(Box::new(ParamType::Uint(8)))));
    let v = Value::Array(vec![Value::Array(vec![Value::Uint(wide(4))])]);
    let tok = encode_value(v, &t);
    assert_eq!(
        tok,
        Token::Array(vec![Token::Array(vec![Token::Uint(wide(4))])])
    );
}

#[test]
fn fixed_array_encode_uses_fixed_token_variant() {
    let t = ParamType::FixedArray(Box::new(ParamType::Bool), 2);
    let v = Value::FixedArr(vec![Value::Bool(true), Value::Bool(false)]);
    let tok = encode_value(v, &t);
    assert_eq!(
        tok,
        Token::FixedArray(vec![Token::Bool(true), Token::Bool(false)])
    );
}

#[test]
fn short_fixed_array_faults() {
    let t = ParamType::FixedArray(Box::new(ParamType::Bool), 3);
    let tok = Token::Array(vec![Token::Bool(true), Token::Bool(false)]);
    assert_eq!(decode_value(tok, &t), Err(DecodeFault));
}

#[test]
fn long_fixed_array_materializes_declared_count() {
    let t = ParamType::FixedArray(Box::new(ParamType::Bool), 2);
    let tok = Token::Array(vec![Token::Bool(true), Token::Bool(false), Token::Bool(true)]);
    assert_eq!(
        decode_value(tok, &t),
        Ok(Value::FixedArr(vec![Value::Bool(true), Value::Bool(false)]))
    );
}

#[test]
fn tag_mismatch_faults() {
    assert_eq!(decode_value(Token::Bool(true), &ParamType::Str), Err(DecodeFault));
    assert_eq!(
        decode_value(Token::Str("x".to_owned()), &ParamType::Uint(256)),
        Err(DecodeFault)
    );
    assert_eq!(
        decode_value(Token::Bool(true), &ParamType::Array(Box::new(ParamType::Bool))),
        Err(DecodeFault)
    );
}

#[test]
fn wrong_fixed_bytes_length_faults() {
    let tok = Token::FixedBytes(vec![1u8; 4]);
    assert_eq!(decode_value(tok, &ParamType::FixedBytes(8)), Err(DecodeFault));
}

#[test]
fn inner_element_fault_propagates() {
    let t = ParamType::Array(Box::new(ParamType::Bool));
    let tok = Token::Array(vec![Token::Bool(true), Token::Uint(wide(1))]);
    assert_eq!(decode_value(tok, &t), Err(DecodeFault));
}

#[test]
fn either_array_variant_decodes_as_sequence() {
    let t = ParamType::Array(Box::new(ParamType::Bool));
    let tok = Token::FixedArray(vec![Token::Bool(true)]);
    assert_eq!(decode_value(tok, &t), Ok(Value::Array(vec![Value::Bool(true)])));
}

#[test]
fn hash_decode_rebuilds_from_fixed_bytes() {
    let tok = Token::FixedBytes(vec![3u8; 32]);
    assert_eq!(
        decode_value(tok, &ParamType::FixedBytes(32)),
        Ok(Value::Hash(vec![3u8; 32]))
    );
}
