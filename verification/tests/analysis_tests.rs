use std::sync::Arc;

use emmylua_code_analysis::base::{FileId, TextRange};
use emmylua_code_analysis::diagnostics::{
    assign_mismatch_reason, check_assign_type_mismatch, check_call_is_in_async_function,
    check_call_params, check_first_param_colon_call, handle_value_is_table_expr,
    is_await_in_sync, is_in_pcall_or_xpcall, param_mismatch_message, pcall_arg_is_async,
    check_assign_stat, check_local_stat, AssignTarget, EnclosingClosure, LocalTarget,
    ParamMismatchMessage, TableFieldValue, TableValue,
};
use emmylua_code_analysis::infer::{
    get_all_value_expr_type, infer_table_expr, infer_table_type_by_callee, infer_table_tuple_or_array, instantiate_call_args,
    table_type_from_decl, InferGuard, TableValueInfo,
};
use emmylua_code_analysis::type_check::{TypeCheckFailReason, TypeCheckResult};
use emmylua_code_analysis::types::{
    LuaFunctionType, LuaInstanceType, LuaMultiReturn, LuaType, LuaTypeDeclId,
};

fn r(a: u32, b: u32) -> TextRange {
    TextRange::new(a, b)
}

/// A check that accepts `any` and equal simple types only.
fn strict(expected: &LuaType, found: &LuaType) -> TypeCheckResult {
    if matches!(found, LuaType::Any) || expected.eq(found) {
        Ok(())
    } else {
        Err(TypeCheckFailReason::TypeNotMatch)
    }
}

#[test]
fn guard_lets_each_type_through_once() {
    let mut g = InferGuard::new();
    let a = LuaTypeDeclId::new("A");
    assert_eq!(g.check(&a), Some(()));
    assert_eq!(g.check(&LuaTypeDeclId::new("B")), Some(()));
    assert_eq!(g.check(&a), None);
}

#[test]
fn table_literal_types() {
    let t = infer_table_expr(false, FileId::new(3), r(5, 9), None).unwrap();
    assert!(matches!(t, LuaType::TableConst(ref f) if f.file_id == FileId::new(3) && f.value == r(5, 9)));
    let many: Vec<Option<TableValueInfo>> = (0..11)
        .map(|i| Some(TableValueInfo { is_dots: false, typ: Some(LuaType::IntegerConst(i)) }))
        .collect();
    match infer_table_tuple_or_array(&many) {
        Some(LuaType::Array(e)) => assert!(matches!(*e, LuaType::IntegerConst(0))),
        _ => panic!("expected an array"),
    }
    let dots = vec![Some(TableValueInfo {
        is_dots: true,
        typ: Some(LuaType::MuliReturn(Arc::new(LuaMultiReturn::Multi(vec![LuaType::String, LuaType::Nil])))),
    })];
    match infer_table_tuple_or_array(&dots) {
        Some(LuaType::Array(e)) => assert!(matches!(*e, LuaType::String)),
        _ => panic!("expected an array of strings"),
    }
    let pair = vec![
        Some(TableValueInfo { is_dots: false, typ: Some(LuaType::Integer) }),
        Some(TableValueInfo { is_dots: false, typ: Some(LuaType::Boolean) }),
    ];
    match infer_table_tuple_or_array(&pair) {
        Some(LuaType::Tuple(t)) => assert_eq!(t.types.len(), 2),
        _ => panic!("expected a tuple"),
    }
    let missing = vec![Some(TableValueInfo { is_dots: false, typ: None })];
    assert!(infer_table_tuple_or_array(&missing).is_none());
}

#[test]
fn call_arguments_for_colon_calls() {
    let args = vec![LuaType::Integer, LuaType::String];
    let same = instantiate_call_args(true, true, args.clone());
    assert_eq!(same.len(), 2);
    let dropped = instantiate_call_args(true, false, args.clone());
    assert!(dropped.len() == 1 && matches!(dropped[0], LuaType::String));
    let added = instantiate_call_args(false, true, args);
    assert!(added.len() == 3 && matches!(added[0], LuaType::Any));
}

#[test]
fn values_of_an_assignment() {
    let multi = LuaType::MuliReturn(Arc::new(LuaMultiReturn::Multi(vec![LuaType::Integer, LuaType::String])));
    // a, b, c = 1, f() -- f returns integer, string
    let v = get_all_value_expr_type(&vec![Some(LuaType::Boolean), Some(multi)]).unwrap();
    assert_eq!(v.len(), 3);
    assert!(matches!(v[0], LuaType::Boolean) && matches!(v[1], LuaType::Integer) && matches!(v[2], LuaType::String));
    assert!(get_all_value_expr_type(&vec![Some(LuaType::Nil), None]).is_none());
    assert!(get_all_value_expr_type(&vec![None, Some(LuaType::Nil)]).is_none());
    // a, b = 1, "x": one value per expression
    let w = get_all_value_expr_type(&vec![Some(LuaType::Integer), Some(LuaType::String)]).unwrap();
    assert_eq!(w.len(), 2);
    assert!(matches!(w[0], LuaType::Integer) && matches!(w[1], LuaType::String));
    // a, b, c = f(), true -- a multiple return before the last value gives its first type
    let first = LuaType::MuliReturn(Arc::new(LuaMultiReturn::Multi(vec![LuaType::Integer, LuaType::String])));
    let u = get_all_value_expr_type(&vec![Some(first), Some(LuaType::Boolean)]).unwrap();
    assert_eq!(u.len(), 2);
    assert!(matches!(u[0], LuaType::Integer) && matches!(u[1], LuaType::Boolean));
    let base = LuaType::MuliReturn(Arc::new(LuaMultiReturn::Base(LuaType::Nil)));
    let b = get_all_value_expr_type(&vec![Some(base), Some(LuaType::Integer)]).unwrap();
    assert!(b.len() == 2 && matches!(b[0], LuaType::Nil));
    assert!(get_all_value_expr_type(&vec![]).unwrap().is_empty());
}

#[test]
fn declared_type_of_table_targets() {
    assert!(matches!(table_type_from_decl(Some(&LuaType::Integer)), Some(LuaType::Integer)));
    let tc = LuaType::TableConst(emmylua_code_analysis::base::InFiled::new(FileId::new(1), r(0, 2)));
    assert!(table_type_from_decl(Some(&tc)).is_none());
    assert!(table_type_from_decl(None).is_none());
}

#[test]
fn call_parameters_are_checked() {
    let params = vec![
        ("a".to_string(), Some(LuaType::Integer)),
        ("b".to_string(), Some(LuaType::String)),
    ];
    let out = check_call_params(&strict, &params, &vec![LuaType::Integer, LuaType::Boolean], &vec![r(2, 3), r(5, 9)], false, false, None, None);
    assert_eq!(out.len(), 1);
    assert_eq!(out[0].range, r(5, 9));
    assert!(matches!(out[0].expected, LuaType::String) && matches!(out[0].found, LuaType::Boolean));
    let variadic = vec![("...".to_string(), Some(LuaType::Integer))];
    let out2 = check_call_params(&strict, &variadic, &vec![LuaType::Integer, LuaType::Nil, LuaType::String], &vec![r(0, 1), r(2, 3), r(4, 5)], false, false, None, None);
    assert_eq!(out2.len(), 2);
    assert_eq!(out2[1].range, r(4, 5));
}

#[test]
fn colon_calls_insert_self() {
    let params = vec![("x".to_string(), Some(LuaType::Integer))];
    // obj:f(1) of a function defined as f(x): the caller comes first
    let out = check_call_params(&strict, &params, &vec![LuaType::Integer], &vec![r(6, 7)], true, false, Some(LuaType::String), Some(r(3, 4)));
    assert_eq!(out.len(), 1);
    assert_eq!(out[0].range, r(3, 4));
    // without the caller's type nothing is checked
    assert_eq!(check_call_params(&strict, &params, &vec![LuaType::Boolean], &vec![r(6, 7)], true, false, None, Some(r(3, 4))).len(), 0);
}

#[test]
fn assignment_checks_and_their_exceptions() {
    let skip = check_assign_type_mismatch(&strict, r(0, 1), Some(LuaType::Nil), Some(LuaType::Integer), false, false);
    assert!(skip.is_none());
    let def = LuaType::Def(LuaTypeDeclId::new("A"));
    assert!(check_assign_type_mismatch(&strict, r(0, 1), Some(def), Some(LuaType::Integer), false, false).is_none());
    let inst = LuaType::Instance(Arc::new(LuaInstanceType::new(LuaType::Table)));
    assert!(check_assign_type_mismatch(&strict, r(0, 1), Some(LuaType::Ref(LuaTypeDeclId::new("A"))), Some(inst), false, false).is_none());
    assert!(check_assign_type_mismatch(&strict, r(0, 1), Some(LuaType::Integer), Some(LuaType::Nil), true, true).is_none());
    let m = check_assign_type_mismatch(&strict, r(0, 1), Some(LuaType::Integer), Some(LuaType::String), false, false).unwrap();
    assert!(matches!(m.expected, LuaType::Integer) && matches!(m.found, LuaType::String));
    assert!(check_assign_type_mismatch(&strict, r(0, 1), Some(LuaType::Integer), None, false, false).is_none());
}

#[test]
fn table_fields_checked_against_members() {
    let infos = vec![("x".to_string(), LuaType::Integer)];
    let fields = vec![
        TableFieldValue { range: r(1, 6), key_path: Some("x".to_string()), value_type: Some(Some(LuaType::String)), value_is_optional: false },
        TableFieldValue { range: r(7, 9), key_path: None, value_type: Some(Some(LuaType::String)), value_is_optional: false },
    ];
    let out = handle_value_is_table_expr(&strict, Some(&LuaType::Table), Some(&infos), &fields);
    assert_eq!(out.len(), 1);
    assert_eq!(out[0].range, r(1, 6));
    assert_eq!(handle_value_is_table_expr(&strict, None, Some(&infos), &fields).len(), 0);
}

#[test]
fn async_calls_in_sync_functions() {
    let sync = EnclosingClosure { is_async: false, in_pcall: false };
    let async_fn = EnclosingClosure { is_async: true, in_pcall: false };
    let wrapped = EnclosingClosure { is_async: false, in_pcall: true };
    assert!(check_call_is_in_async_function(&vec![async_fn]));
    assert!(check_call_is_in_async_function(&vec![wrapped, async_fn]));
    assert!(!check_call_is_in_async_function(&vec![sync, async_fn]));
    assert!(is_await_in_sync(true, &vec![sync]));
    assert!(!is_await_in_sync(false, &vec![sync]));
    assert!(is_in_pcall_or_xpcall(Some("xpcall")));
    assert!(!is_in_pcall_or_xpcall(Some("call")));
    let f = LuaType::DocFunction(Arc::new(LuaFunctionType::new(true, vec![], vec![])));
    assert_eq!(pcall_arg_is_async(&f, None), Some(true));
    assert_eq!(pcall_arg_is_async(&LuaType::Integer, Some(true)), None);
}

#[test]
fn messages_of_mismatches() {
    assert!(matches!(param_mismatch_message(TypeCheckFailReason::TypeRecursion), ParamMismatchMessage::TypeRecursion));
    assert!(matches!(param_mismatch_message(TypeCheckFailReason::TypeNotMatchWithReason("why".to_string())), ParamMismatchMessage::Reason(ref s) if s == "why"));
    assert_eq!(assign_mismatch_reason(TypeCheckFailReason::TypeNotMatch), "");
}

#[test]
fn first_parameter_of_colon_calls() {
    assert!(check_first_param_colon_call(&strict, &LuaType::Any, Some(None)).is_ok());
    assert!(matches!(check_first_param_colon_call(&strict, &LuaType::Integer, Some(None)), Err(TypeCheckFailReason::TypeNotMatch)));
    assert!(check_first_param_colon_call(&strict, &LuaType::Integer, Some(Some(Some(LuaType::Integer)))).is_ok());
    assert!(check_first_param_colon_call(&strict, &LuaType::Integer, None).is_ok());
}

#[test]
fn table_argument_takes_the_parameter_type() {
    let params = vec![("a".to_string(), Some(LuaType::Table)), ("b".to_string(), None)];
    assert!(matches!(infer_table_type_by_callee(&params, Some(0)), Some(LuaType::Table)));
    assert!(infer_table_type_by_callee(&params, Some(1)).is_none());
    assert!(infer_table_type_by_callee(&params, Some(2)).is_none());
    assert!(infer_table_type_by_callee(&params, None).is_none());
}

#[test]
fn assignment_statement_checks_each_place() {
    let targets = vec![
        AssignTarget::Name { range: r(0, 1), owner: Some(Some(LuaType::Integer)), table: None },
        AssignTarget::Name { range: r(3, 4), owner: None, table: None },
        AssignTarget::Index { range: r(6, 9), member_type: Some(LuaType::String), table: None },
        AssignTarget::Name { range: r(11, 12), owner: Some(Some(LuaType::Integer)), table: None },
    ];
    // a, b, t.x, c = "s", "s", nil   -- only three values
    let values = vec![LuaType::String, LuaType::String, LuaType::Nil];
    let out = check_assign_stat(&strict, &targets, &values, &vec![false, false, false]);
    assert_eq!(out.len(), 2);
    assert_eq!(out[0].range, r(0, 1));
    assert_eq!(out[1].range, r(6, 9));
    // an indexed place takes a value that may be nil
    let out = check_assign_stat(&strict, &targets, &values, &vec![false, false, true]);
    assert_eq!(out.len(), 1);
    assert_eq!(out[0].range, r(0, 1));
}

#[test]
fn local_statement_stops_at_untyped_variable() {
    let table = TableValue {
        member_infos: Some(vec![("x".to_string(), LuaType::Integer)]),
        fields: vec![TableFieldValue { range: r(20, 25), key_path: Some("x".to_string()), value_type: Some(Some(LuaType::String)), value_is_optional: false }],
    };
    let targets = vec![
        LocalTarget { decl: Some((r(6, 7), LuaType::Table)), table: Some(table) },
        LocalTarget { decl: None, table: None },
        LocalTarget { decl: Some((r(9, 10), LuaType::Integer)), table: None },
    ];
    let values = vec![LuaType::Table, LuaType::String, LuaType::String];
    let out = check_local_stat(&strict, &targets, &values, &vec![false, false, false]);
    assert_eq!(out.len(), 1);
    assert_eq!(out[0].range, r(20, 25));
}

#[test]
fn guard_over_a_run_of_checks() {
    let mut g = InferGuard::new();
    let names = ["A", "B", "A", "C", "B", "C", "D"];
    let expected = [true, true, false, true, false, false, true];
    for (name, first) in names.iter().zip(expected.iter()) {
        assert_eq!(g.check(&LuaTypeDeclId::new(*name)).is_some(), *first);
    }
}

#[test]
fn unchecked_assignments_need_no_verdict() {
    let reject_all = |_: &LuaType, _: &LuaType| -> TypeCheckResult { Err(TypeCheckFailReason::TypeNotMatch) };
    // an optional value where nil is allowed is never checked
    assert!(check_assign_type_mismatch(&reject_all, r(0, 1), Some(LuaType::Integer), Some(LuaType::String), true, true).is_none());
    let m = check_assign_type_mismatch(&reject_all, r(4, 6), None, Some(LuaType::String), false, false).unwrap();
    assert_eq!(m.range, r(4, 6));
    assert!(matches!(m.expected, LuaType::Any) && matches!(m.found, LuaType::String));
}

#[test]
fn call_mismatches_take_argument_ranges_in_order() {
    let reject_all = |_: &LuaType, _: &LuaType| -> TypeCheckResult { Err(TypeCheckFailReason::TypeNotMatch) };
    let params = vec![
        ("a".to_string(), Some(LuaType::Integer)),
        ("b".to_string(), None),
        ("...".to_string(), Some(LuaType::String)),
    ];
    let ranges = vec![r(0, 1), r(2, 3), r(4, 5), r(6, 7)];
    let out = check_call_params(&reject_all, &params, &vec![LuaType::Integer, LuaType::Nil, LuaType::Nil, LuaType::Nil], &ranges, false, false, None, None);
    let got: Vec<TextRange> = out.iter().map(|m| m.range).collect();
    assert_eq!(got, vec![r(0, 1), r(4, 5), r(6, 7)]);
    // a colon call whose caller is unknown is not checked
    let none = check_call_params(&reject_all, &params, &vec![LuaType::Integer], &vec![r(0, 1)], true, false, None, None);
    assert!(none.is_empty());
}
