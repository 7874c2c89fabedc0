//! Tests of the type mapper, the identifier sanitizer, the codec
//! generators and the signature builder.

use vapabi_codegen::codec::{from_template_param, from_token, to_syntax_string, to_token,
    to_vapabi_param_vec};
use vapabi_codegen::expr::{Bound, Expr, SlotBound, TypeDescExpr, TypeExpr};
use vapabi_codegen::ident::{get_template_names, input_names, rust_variable};
use vapabi_codegen::mapper::{get_output_kinds, rust_type, template_param_type};
use vapabi_codegen::param::{Param, ParamType};

fn named(name: &str, kind: ParamType) -> Param {
    Param { name: name.to_owned(), kind }
}

#[test]
fn leaf_native_types() {
    assert_eq!(rust_type(&ParamType::Address), TypeExpr::Address);
    assert_eq!(rust_type(&ParamType::Bytes), TypeExpr::Bytes);
    assert_eq!(rust_type(&ParamType::Int(64)), TypeExpr::WideInt);
    assert_eq!(rust_type(&ParamType::Uint(8)), TypeExpr::WideUint);
    assert_eq!(rust_type(&ParamType::Bool), TypeExpr::Bool);
    assert_eq!(rust_type(&ParamType::Str), TypeExpr::Text);
}

#[test]
fn fixed_bytes_specialization() {
    assert_eq!(rust_type(&ParamType::FixedBytes(32)), TypeExpr::Hash);
    assert_eq!(rust_type(&ParamType::FixedBytes(4)), TypeExpr::FixedBytesArr(4));
    assert_eq!(rust_type(&ParamType::FixedBytes(20)), TypeExpr::FixedBytesArr(20));
}

#[test]
fn composite_native_types() {
    assert_eq!(
        rust_type(&ParamType::Array(Box::new(ParamType::Bool))),
        TypeExpr::Vector(Box::new(TypeExpr::Bool))
    );
    assert_eq!(
        rust_type(&ParamType::FixedArray(Box::new(ParamType::Uint(256)), 5)),
        TypeExpr::FixedArr(Box::new(TypeExpr::WideUint), 5)
    );
    assert_eq!(
        rust_type(&ParamType::Array(Box::new(ParamType::Array(Box::new(ParamType::Str))))),
        TypeExpr::Vector(Box::new(TypeExpr::Vector(Box::new(TypeExpr::Text))))
    );
}

#[test]
fn output_aggregation_zero_is_unit() {
    assert_eq!(get_output_kinds(&[]), TypeExpr::Unit);
}

#[test]
fn output_aggregation_single_is_bare() {
    let outs = vec![named("", ParamType::Uint(256))];
    assert_eq!(get_output_kinds(&outs), TypeExpr::WideUint);
}

#[test]
fn output_aggregation_many_is_tuple() {
    let outs = vec![named("a", ParamType::Bool), named("b", ParamType::Str)];
    assert_eq!(
        get_output_kinds(&outs),
        TypeExpr::Tuple(vec![TypeExpr::Bool, TypeExpr::Text])
    );
}

#[test]
fn unnamed_parameter_gets_positional_name() {
    let inputs = vec![
        named("", ParamType::Bool),
        named("", ParamType::Bool),
        named("", ParamType::Bool),
    ];
    let names = input_names(&inputs);
    assert_eq!(names, vec!["param0", "param1", "param2"]);
}

#[test]
fn positional_names_render_many_digits() {
    let inputs: Vec<Param> = (0..12).map(|_| named("", ParamType::Bool)).collect();
    let names = input_names(&inputs);
    assert_eq!(names[9], "param9");
    assert_eq!(names[10], "param10");
    assert_eq!(names[11], "param11");
}

#[test]
fn self_keyword_is_escaped() {
    let escaped = rust_variable("Self");
    assert_eq!(escaped, "_self");
    assert_eq!(rust_variable("self"), "_self");
}

#[test]
fn sanitization_is_deterministic() {
    assert_eq!(rust_variable("someName"), rust_variable("someName"));
}

#[test]
fn names_convert_to_snake_case() {
    assert_eq!(rust_variable("someName"), "some_name");
    assert_eq!(rust_variable("SomeName"), "some_name");
    assert_eq!(rust_variable("already_snake"), "already_snake");
}

#[test]
fn template_names_are_numbered() {
    let names = get_template_names(3);
    assert_eq!(names, vec!["T0", "T1", "T2"]);
}

#[test]
fn leaf_bound_is_into_native() {
    let b = template_param_type(&ParamType::Str, 1);
    assert_eq!(
        b,
        SlotBound { index: 1, constraint: Bound::IntoNative(TypeExpr::Text) }
    );
}

#[test]
fn nested_array_bound_is_iterable_of_inner_native() {
    let t = ParamType::Array(Box::new(ParamType::Array(Box::new(ParamType::Uint(8)))));
    let b = template_param_type(&t, 0);
    assert_eq!(
        b,
        SlotBound {
            index: 0,
            constraint: Bound::IterableOf(TypeExpr::Vector(Box::new(TypeExpr::WideUint))),
        }
    );
}

#[test]
fn fixed_array_bound_is_fixed_slice_of_inner_native() {
    let t = ParamType::FixedArray(Box::new(ParamType::Bool), 4);
    let b = template_param_type(&t, 2);
    assert_eq!(
        b,
        SlotBound { index: 2, constraint: Bound::FixedSliceOf(TypeExpr::Bool, 4) }
    );
}

#[test]
fn leaf_encode_wraps_the_value() {
    let name = Expr::Var("x".to_owned());
    assert_eq!(
        to_token(name, &ParamType::Bool),
        Expr::WrapBool(Box::new(Expr::Var("x".to_owned())))
    );
}

#[test]
fn nested_array_encode_is_two_level() {
    let t = ParamType::Array(Box::new(ParamType::Array(Box::new(ParamType::Uint(8)))));
    let e = to_token(Expr::Var("v".to_owned()), &t);
    assert_eq!(
        e,
        Expr::WrapArray(
            Box::new(Expr::Var("v".to_owned())),
            Box::new(Expr::WrapArray(
                Box::new(Expr::Inner),
                Box::new(Expr::WrapUint(Box::new(Expr::Inner))),
            )),
        )
    );
}

#[test]
fn hash_decode_is_special_cased() {
    let e = from_token(&ParamType::FixedBytes(32), Expr::Var("tok".to_owned()));
    assert_eq!(e, Expr::UnwrapHash(Box::new(Expr::Var("tok".to_owned()))));
    let e4 = from_token(&ParamType::FixedBytes(4), Expr::Var("tok".to_owned()));
    assert_eq!(e4, Expr::UnwrapFixedBytes(Box::new(Expr::Var("tok".to_owned())), 4));
}

#[test]
fn fixed_array_decode_materializes_declared_length() {
    let t = ParamType::FixedArray(Box::new(ParamType::Bool), 3);
    let e = from_token(&t, Expr::Var("tok".to_owned()));
    assert_eq!(
        e,
        Expr::UnwrapFixedArray(
            Box::new(Expr::Var("tok".to_owned())),
            Box::new(Expr::UnwrapBool(Box::new(Expr::Inner))),
            3,
        )
    );
}

#[test]
fn call_site_conversion_depends_on_shape() {
    let v = || Expr::Var("x".to_owned());
    assert_eq!(
        from_template_param(&ParamType::Bool, v()),
        Expr::IntoNative(Box::new(v()))
    );
    assert_eq!(
        from_template_param(&ParamType::Array(Box::new(ParamType::Bool)), v()),
        Expr::CollectInto(Box::new(v()))
    );
    assert_eq!(
        from_template_param(&ParamType::FixedArray(Box::new(ParamType::Bool), 2), v()),
        Expr::FixedCollectInto(Box::new(v()))
    );
}

#[test]
fn syntax_descriptions_mirror_the_type() {
    let t = ParamType::Array(Box::new(ParamType::FixedBytes(8)));
    assert_eq!(
        to_syntax_string(&t),
        TypeDescExpr::DescArray(Box::new(TypeDescExpr::DescFixedBytes(8)))
    );
}

#[test]
fn param_descriptions_keep_names_and_order() {
    let params = vec![named("alpha", ParamType::Bool), named("", ParamType::Uint(32))];
    let descs = to_vapabi_param_vec(&params);
    assert_eq!(descs.len(), 2);
    assert_eq!(descs[0].name, "alpha");
    assert_eq!(descs[0].kind, TypeDescExpr::DescBool);
    assert_eq!(descs[1].name, "");
    assert_eq!(descs[1].kind, TypeDescExpr::DescUint(32));
}
