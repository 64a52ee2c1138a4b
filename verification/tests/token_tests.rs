use emmylua_code_analysis::base::TextRange;
use emmylua_code_analysis::semantic_tokens::{
    build_node_semantic_token, is_class_def, CallPrefix, NodeInfo, SemanticTokenKind,
    SemanticTokenModifier,
};
use emmylua_code_analysis::types::{LuaType, LuaTypeDeclId};

fn r(a: u32, b: u32) -> TextRange {
    TextRange::new(a, b)
}

#[test]
fn class_tag_highlights_name_attributes_and_generics() {
    let node = NodeInfo::DocTagClass {
        name: Some(r(10, 13)),
        attribs: vec![r(5, 12)],
        generic_names: vec![Some(r(14, 15)), None],
    };
    let pushes = build_node_semantic_token(&node);
    assert_eq!(
        pushes,
        vec![
            (r(10, 13), SemanticTokenKind::Class, Some(SemanticTokenModifier::Declaration)),
            (r(5, 12), SemanticTokenKind::Modifier, None),
            (r(14, 15), SemanticTokenKind::Class, Some(SemanticTokenModifier::Declaration)),
        ]
    );
    let unnamed = NodeInfo::DocTagClass { name: None, attribs: vec![r(5, 12)], generic_names: vec![] };
    assert!(build_node_semantic_token(&unnamed).is_empty());
}

#[test]
fn calls_of_library_functions() {
    let library = NodeInfo::CallExpr {
        prefix: CallPrefix::NameExpr { name: Some(r(0, 5)), is_signature: true, in_local_references: false, has_global_decl: true },
    };
    assert_eq!(
        build_node_semantic_token(&library),
        vec![(r(0, 5), SemanticTokenKind::Function, Some(SemanticTokenModifier::DefaultLibrary))]
    );
    let local = NodeInfo::CallExpr {
        prefix: CallPrefix::NameExpr { name: Some(r(0, 5)), is_signature: true, in_local_references: true, has_global_decl: true },
    };
    assert_eq!(build_node_semantic_token(&local), vec![(r(0, 5), SemanticTokenKind::Function, None)]);
}

#[test]
fn self_type_names_are_readonly() {
    let node = NodeInfo::DocNameType { name: Some((r(3, 7), "self".to_string())) };
    assert_eq!(
        build_node_semantic_token(&node),
        vec![(r(3, 7), SemanticTokenKind::Type, Some(SemanticTokenModifier::Readonly))]
    );
    let other = NodeInfo::DocNameType { name: Some((r(3, 9), "string".to_string())) };
    assert_eq!(build_node_semantic_token(&other), vec![(r(3, 9), SemanticTokenKind::Type, None)]);
}

#[test]
fn class_definitions_of_declarations() {
    assert!(is_class_def(Some(&LuaType::Def(LuaTypeDeclId::new("A")))));
    assert!(!is_class_def(Some(&LuaType::Ref(LuaTypeDeclId::new("A")))));
    assert!(!is_class_def(None));
}
