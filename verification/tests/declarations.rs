//! Tests of the signature builder: whole-member declarations.

use vapabi_codegen::builder::{constructor_decl, contract_decl, event_decl, function_decl};
use vapabi_codegen::expr::{Bound, Expr, TypeExpr};
use vapabi_codegen::param::{Constructor, Contract, Event, EventParam, Function, Param, ParamType};

fn named(name: &str, kind: ParamType) -> Param {
    Param { name: name.to_owned(), kind }
}

fn transfer() -> Function {
    Function {
        name: "TransferTo".to_owned(),
        inputs: vec![
            named("recipient", ParamType::Address),
            named("", ParamType::Uint(256)),
        ],
        outputs: vec![named("", ParamType::Bool)],
    }
}

#[test]
fn function_names_are_sanitized_and_positional() {
    let d = function_decl(&transfer());
    assert_eq!(d.name, "transfer_to");
    assert_eq!(d.input_names, vec!["recipient", "param1"]);
}

#[test]
fn function_bounds_follow_the_inputs() {
    let d = function_decl(&transfer());
    assert_eq!(d.input_bounds.len(), 2);
    assert_eq!(d.input_bounds[0].index, 0);
    assert_eq!(d.input_bounds[0].constraint, Bound::IntoNative(TypeExpr::Address));
    assert_eq!(d.input_bounds[1].index, 1);
    assert_eq!(d.input_bounds[1].constraint, Bound::IntoNative(TypeExpr::WideUint));
}

#[test]
fn function_output_kind_aggregates() {
    let d = function_decl(&transfer());
    assert_eq!(d.output_kind, TypeExpr::Bool);
}

#[test]
fn function_encode_exprs_convert_then_wrap() {
    let d = function_decl(&transfer());
    assert_eq!(
        d.encode_exprs[0],
        Expr::WrapAddress(Box::new(Expr::IntoNative(Box::new(Expr::Var(
            "recipient".to_owned()
        )))))
    );
    assert_eq!(
        d.encode_exprs[1],
        Expr::WrapUint(Box::new(Expr::IntoNative(Box::new(Expr::Var(
            "param1".to_owned()
        )))))
    );
}

#[test]
fn function_decode_exprs_unwrap_output_slots() {
    let d = function_decl(&transfer());
    assert_eq!(d.output_slots, vec!["out0"]);
    assert_eq!(
        d.decode_exprs[0],
        Expr::UnwrapBool(Box::new(Expr::Var("out0".to_owned())))
    );
}

#[test]
fn event_declaration_keeps_indexed_flags() {
    let e = Event {
        name: "ValueChanged".to_owned(),
        inputs: vec![
            EventParam { name: "who".to_owned(), kind: ParamType::Address, indexed: true },
            EventParam { name: "".to_owned(), kind: ParamType::Uint(256), indexed: false },
        ],
    };
    let d = event_decl(&e);
    assert_eq!(d.name, "value_changed");
    assert_eq!(d.input_names, vec!["who", "param1"]);
    assert_eq!(d.indexed_flags, vec![true, false]);
    assert_eq!(d.input_slots, vec!["log0", "log1"]);
    assert_eq!(
        d.decode_exprs[1],
        Expr::UnwrapUint(Box::new(Expr::Var("log1".to_owned())))
    );
}

#[test]
fn constructor_declaration_has_no_outputs() {
    let c = Constructor { inputs: vec![named("owner", ParamType::Address)] };
    let d = constructor_decl(&c);
    assert_eq!(d.input_names, vec!["owner"]);
    assert_eq!(d.encode_exprs.len(), 1);
    assert_eq!(d.input_descs.len(), 1);
}

#[test]
fn contract_without_constructor_has_none() {
    let c = Contract { constructor: None, functions: vec![], events: vec![] };
    let d = contract_decl(&c);
    assert!(d.constructor.is_none());
    assert!(d.functions.is_empty());
    assert!(d.events.is_empty());
}

#[test]
fn contract_declaration_covers_every_member() {
    let c = Contract {
        constructor: Some(Constructor { inputs: vec![] }),
        functions: vec![transfer(), transfer()],
        events: vec![],
    };
    let d = contract_decl(&c);
    assert!(d.constructor.is_some());
    assert_eq!(d.functions.len(), 2);
    assert_eq!(d.events.len(), 0);
    assert_eq!(d.functions[1].name, "transfer_to");
}
