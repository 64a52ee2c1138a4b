use emmylua_code_analysis::base::{LuaSyntaxId, LuaSyntaxKind, TextRange};
use emmylua_code_analysis::flow::{
    analyze_ref_assign, analyze_ref_expr, binary_literal_type_assert, broadcast_down, broadcast_up,
    is_block_has_return, is_decl_assign_stat, reassign_value_index, type_name_type_assert,
    BinaryOp, BinaryOperands, BlockInfo, BlockOwnerKind, CallInfo, DocTagKind, DownInfo,
    FlowAssert, FlowParent, LiteralInfo, StatInfo, TypeAssertion, TypeCompare,
};
use emmylua_code_analysis::types::LuaType;

fn r(a: u32, b: u32) -> TextRange {
    TextRange::new(a, b)
}

fn is_range(x: TextRange, a: u32, b: u32) -> bool {
    x.start() == a && x.end() == b
}

fn is_exist(a: &FlowAssert) -> bool {
    matches!(a.type_assert, TypeAssertion::Exist)
}

fn is_not_exist(a: &FlowAssert) -> bool {
    matches!(a.type_assert, TypeAssertion::NotExist)
}

#[test]
fn negation_swaps_existence_and_narrowing() {
    assert!(matches!(TypeAssertion::Exist.get_negation(), Some(TypeAssertion::NotExist)));
    assert!(matches!(TypeAssertion::NotExist.get_negation(), Some(TypeAssertion::Exist)));
    assert!(matches!(
        TypeAssertion::Narrow(LuaType::Integer).get_negation(),
        Some(TypeAssertion::Remove(LuaType::Integer))
    ));
    let ra = TypeAssertion::Reassign((LuaSyntaxId::new(LuaSyntaxKind::NameExpr, r(0, 1)), 0));
    assert!(ra.get_negation().is_none());
}

#[test]
fn negating_twice_gives_back_the_assertion() {
    let t = TypeAssertion::Remove(LuaType::String);
    let back = t.get_negation().unwrap().get_negation().unwrap();
    assert!(matches!(back, TypeAssertion::Remove(LuaType::String)));
}

#[test]
fn comparisons_with_literals() {
    assert!(matches!(binary_literal_type_assert(&LiteralInfo::Nil, true), Some(TypeAssertion::NotExist)));
    assert!(matches!(binary_literal_type_assert(&LiteralInfo::Nil, false), Some(TypeAssertion::Exist)));
    assert!(matches!(binary_literal_type_assert(&LiteralInfo::Bool(false), true), Some(TypeAssertion::NotExist)));
    assert!(matches!(binary_literal_type_assert(&LiteralInfo::Bool(true), true), Some(TypeAssertion::Exist)));
    assert!(matches!(
        binary_literal_type_assert(&LiteralInfo::Number(Some(3)), true),
        Some(TypeAssertion::Narrow(LuaType::IntegerConst(3)))
    ));
    assert!(matches!(
        binary_literal_type_assert(&LiteralInfo::Number(None), false),
        Some(TypeAssertion::Remove(LuaType::Number))
    ));
    match binary_literal_type_assert(&LiteralInfo::String("x".to_string()), true) {
        Some(TypeAssertion::Narrow(LuaType::StringConst(s))) => assert_eq!(s, "x"),
        _ => panic!("expected a string narrowing"),
    }
    assert!(binary_literal_type_assert(&LiteralInfo::Other, true).is_none());
}

#[test]
fn type_names_narrow_to_builtin_or_declared_types() {
    assert!(matches!(type_name_type_assert(&"number".to_string()), TypeAssertion::Narrow(LuaType::Number)));
    assert!(matches!(type_name_type_assert(&"nil".to_string()), TypeAssertion::Narrow(LuaType::Nil)));
    match type_name_type_assert(&"Player".to_string()) {
        TypeAssertion::Narrow(LuaType::Ref(id)) => assert_eq!(id.get_name(), "Player"),
        _ => panic!("expected a reference"),
    }
}

#[test]
fn reassigned_value_positions() {
    assert_eq!(reassign_value_index(0, 0), None);
    assert_eq!(reassign_value_index(1, 3), Some((1, 0)));
    assert_eq!(reassign_value_index(4, 2), Some((1, 3)));
}

#[test]
fn declaring_tags_mark_declarations() {
    assert_eq!(is_decl_assign_stat(&vec![DocTagKind::Param, DocTagKind::Class]), Some(true));
    assert_eq!(is_decl_assign_stat(&vec![DocTagKind::Param]), Some(false));
    assert_eq!(is_decl_assign_stat(&vec![]), Some(false));
}

#[test]
fn blocks_that_return() {
    let error_call = StatInfo::CallExprStat { callee_name: Some("error".to_string()) };
    let other_call = StatInfo::CallExprStat { callee_name: Some("print".to_string()) };
    assert_eq!(is_block_has_return(&Some(vec![other_call, error_call])), Some(true));
    let nested = StatInfo::DoStat { block: Some(vec![StatInfo::ReturnStat]) };
    assert_eq!(is_block_has_return(&Some(vec![StatInfo::Other, nested])), Some(true));
    assert_eq!(is_block_has_return(&Some(vec![StatInfo::Other])), Some(false));
    assert_eq!(is_block_has_return(&None), Some(false));
}

#[test]
fn condition_of_if_narrows_then_and_else() {
    // if x then <10..20> else <20..30> end
    let parent = FlowParent::IfStat {
        block_range: Some(r(10, 20)),
        block_stats: Some(vec![]),
        else_clause_range: Some(r(20, 30)),
        else_if_ranges: vec![r(25, 26)],
        range: r(0, 33),
        parent_block_range: Some(r(0, 50)),
    };
    let out = broadcast_up(&vec![parent], r(3, 4), TypeAssertion::Exist);
    assert_eq!(out.len(), 3);
    assert!(is_exist(&out[0]) && is_range(out[0].range, 10, 20) && is_range(out[0].actual_range, 3, 4));
    assert!(is_not_exist(&out[1]) && is_range(out[1].range, 20, 30));
    assert!(is_not_exist(&out[2]) && is_range(out[2].range, 25, 26));
}

#[test]
fn returning_if_narrows_the_rest_of_the_block() {
    // if not x then return end -- x exists from 40 to the end of the block
    let if_stat = FlowParent::IfStat {
        block_range: Some(r(10, 30)),
        block_stats: Some(vec![StatInfo::ReturnStat]),
        else_clause_range: None,
        else_if_ranges: vec![],
        range: r(0, 40),
        parent_block_range: Some(r(0, 100)),
    };
    let not = FlowParent::UnaryExpr { range: r(3, 8), is_not: true };
    let out = analyze_ref_expr(&vec![not, if_stat], r(7, 8));
    assert_eq!(out.len(), 2);
    assert!(is_not_exist(&out[0]) && is_range(out[0].range, 10, 30) && is_range(out[0].actual_range, 3, 8));
    assert!(is_exist(&out[1]) && is_range(out[1].range, 40, 100));
}

#[test]
fn and_narrows_its_right_operand_and_goes_up() {
    // while x and y do <20..40> end
    let and = FlowParent::BinaryExpr {
        range: r(6, 13),
        op: BinaryOp::And,
        operands: Some(BinaryOperands { origin_is_left: true, right_range: r(12, 13), other_literal: None }),
    };
    let while_stat = FlowParent::WhileStat { block_range: Some(r(20, 40)) };
    let out = broadcast_up(&vec![and, while_stat], r(6, 7), TypeAssertion::Exist);
    assert_eq!(out.len(), 2);
    assert!(is_exist(&out[0]) && is_range(out[0].range, 12, 13));
    assert!(is_exist(&out[1]) && is_range(out[1].range, 20, 40) && is_range(out[1].actual_range, 6, 13));
}

#[test]
fn comparison_with_nil_and_type_call() {
    // if x == nil then <20..30> end
    let eq = FlowParent::BinaryExpr {
        range: r(3, 11),
        op: BinaryOp::Eq,
        operands: Some(BinaryOperands { origin_is_left: true, right_range: r(8, 11), other_literal: Some(LiteralInfo::Nil) }),
    };
    let if_stat = FlowParent::IfStat {
        block_range: Some(r(20, 30)),
        block_stats: None,
        else_clause_range: None,
        else_if_ranges: vec![],
        range: r(0, 33),
        parent_block_range: None,
    };
    let out = broadcast_up(&vec![eq, if_stat], r(3, 4), TypeAssertion::Exist);
    assert_eq!(out.len(), 1);
    assert!(is_not_exist(&out[0]) && is_range(out[0].range, 20, 30));

    // if type(x) ~= "string" then <30..40> end
    let call = FlowParent::CallArgList {
        call: CallInfo::TypeCall(Some(TypeCompare {
            range: r(3, 22),
            op: BinaryOp::Ne,
            literal: Some(LiteralInfo::String("string".to_string())),
        })),
    };
    let if_stat2 = FlowParent::WhileStat { block_range: Some(r(30, 40)) };
    let out2 = broadcast_up(&vec![call, if_stat2], r(8, 9), TypeAssertion::Exist);
    assert_eq!(out2.len(), 1);
    assert!(matches!(out2[0].type_assert, TypeAssertion::Remove(LuaType::String)));
}

#[test]
fn assert_call_narrows_after_the_statement() {
    let down = DownInfo {
        node_range: r(0, 10),
        block: Some(BlockInfo { range: r(0, 50), owner: BlockOwnerKind::DoStat, outside: Some((r(0, 60), r(0, 90))) }),
    };
    let call = FlowParent::CallArgList { call: CallInfo::AssertCall(Some(down)) };
    let out = broadcast_up(&vec![call], r(7, 8), TypeAssertion::Exist);
    assert_eq!(out.len(), 2);
    assert!(is_range(out[0].range, 10, 50) && is_range(out[0].actual_range, 10, 50));
    assert!(is_range(out[1].range, 60, 90));
}

#[test]
fn statement_at_end_of_block_narrows_nothing_after_it() {
    let down = DownInfo {
        node_range: r(40, 50),
        block: Some(BlockInfo { range: r(0, 50), owner: BlockOwnerKind::Other, outside: Some((r(0, 60), r(0, 90))) }),
    };
    let out = broadcast_down(&down, TypeAssertion::Exist, true);
    assert_eq!(out.len(), 0);
}

#[test]
fn reassignment_and_declaration() {
    let stat = DownInfo {
        node_range: r(0, 10),
        block: Some(BlockInfo { range: r(0, 30), owner: BlockOwnerKind::Other, outside: None }),
    };
    let ids = vec![
        LuaSyntaxId::new(LuaSyntaxKind::Other(7), r(6, 7)),
        LuaSyntaxId::new(LuaSyntaxKind::Other(7), r(8, 10)),
    ];
    let out = analyze_ref_assign(&vec![], None, Some(3), &ids, &stat);
    assert_eq!(out.len(), 1);
    match &out[0].type_assert {
        TypeAssertion::Reassign((id, idx)) => {
            assert!(is_range(id.range, 8, 10));
            assert_eq!(*idx, 2);
        }
        _ => panic!("expected a reassignment"),
    }
    let decl = analyze_ref_assign(&vec![DocTagKind::Type], Some(LuaType::Integer), Some(0), &ids, &stat);
    assert_eq!(decl.len(), 1);
    assert!(matches!(decl[0].type_assert, TypeAssertion::Narrow(LuaType::Integer)));
    let none = analyze_ref_assign(&vec![DocTagKind::Class], None, Some(0), &ids, &stat);
    assert_eq!(none.len(), 0);
}
