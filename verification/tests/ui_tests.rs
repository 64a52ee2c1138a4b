use emmylua_code_analysis::base::{FileId, TextRange};
use emmylua_code_analysis::completion::{
    completion_prefix_of, env_completions, is_require_call, module_completions, module_path_of,
    ChildModule, ChildNode, EnvDecl, ModuleCompletionKind,
};
use emmylua_code_analysis::decl::{LuaDecl, LuaDeclId};
use emmylua_code_analysis::hover::{
    build_decl_hover, build_member_hover, build_semantic_info_hover, build_type_decl_hover,
    hover_type_kind, int_to_decimal, member_hover_name, signature_description, HoverContent,
    HoverPart, HoverSubject, HoverTypeKind, TypeDeclHoverInfo,
};
use emmylua_code_analysis::signature::{LuaDocParamInfo, LuaSignature, LuaSignatureId};
use emmylua_code_analysis::types::{LuaMemberKey, LuaType};

fn code(p: &HoverPart) -> &str {
    match p {
        HoverPart::LuaCode(s) => s.as_str(),
        HoverPart::Markdown(_) => panic!("expected code"),
    }
}

fn markdown(p: &HoverPart) -> &str {
    match p {
        HoverPart::Markdown(s) => s.as_str(),
        HoverPart::LuaCode(_) => panic!("expected markdown"),
    }
}

fn env(id: u32, name: &str, t: LuaType) -> Option<EnvDecl> {
    Some(EnvDecl { decl_id: LuaDeclId::new(FileId::new(1), id), name: name.to_string(), typ: t })
}

#[test]
fn decimal_writing_of_integers() {
    assert_eq!(int_to_decimal(0), "0");
    assert_eq!(int_to_decimal(907), "907");
    assert_eq!(int_to_decimal(-42), "-42");
    assert_eq!(int_to_decimal(i64::MIN), "-9223372036854775808");
}

#[test]
fn member_names_in_hovers() {
    assert_eq!(member_hover_name(&LuaMemberKey::Name("len".to_string())).unwrap(), "len");
    assert_eq!(member_hover_name(&LuaMemberKey::Integer(3)).unwrap(), "[3]");
    assert!(member_hover_name(&LuaMemberKey::NoneKey).is_none());
}

#[test]
fn rendering_kind_of_hovered_types() {
    assert_eq!(hover_type_kind(&LuaType::Function), HoverTypeKind::Function);
    assert_eq!(hover_type_kind(&LuaType::IntegerConst(1)), HoverTypeKind::Const);
    assert_eq!(hover_type_kind(&LuaType::Integer), HoverTypeKind::Other);
}

fn documented_signature() -> LuaSignature {
    let mut sig = LuaSignature::new();
    sig.params.push("a".to_string());
    sig.params.push("b".to_string());
    sig.param_docs.push(("a".to_string(), LuaDocParamInfo { name: "a".to_string(), type_ref: LuaType::Integer, nullable: false, description: Some("first".to_string()) }));
    sig.param_docs.push(("b".to_string(), LuaDocParamInfo { name: "b".to_string(), type_ref: LuaType::Integer, nullable: false, description: None }));
    sig
}

#[test]
fn parameter_descriptions() {
    let sig = documented_signature();
    assert_eq!(signature_description(&sig).unwrap(), "@*param* `a` — first\n");
    assert!(signature_description(&LuaSignature::new()).is_none());
}

#[test]
fn hover_of_local_and_global_declarations() {
    let local = LuaDecl::Local { name: "x".to_string(), file_id: FileId::new(1), range: TextRange::new(6, 7), attrib: None, decl_type: None };
    let parts = build_decl_hover(&local, &LuaType::IntegerConst(1), "1", None, Some("from owner".to_string()), None);
    assert_eq!(parts.len(), 2);
    assert_eq!(code(&parts[0]), "local x: 1");
    assert_eq!(markdown(&parts[1]), "from owner");
    let global = LuaDecl::Global { name: "g".to_string(), file_id: FileId::new(1), range: TextRange::new(0, 1), decl_type: None };
    let parts = build_decl_hover(&global, &LuaType::String, "string", Some("doc".to_string()), Some("ignored".to_string()), None);
    assert_eq!(code(&parts[0]), "(global) g: string");
    assert_eq!(parts.len(), 2);
    assert_eq!(markdown(&parts[1]), "doc");
    let sig = documented_signature();
    let f = LuaType::Signature(LuaSignatureId::new(FileId::new(1), 10));
    let parts = build_decl_hover(&global, &f, "function g(a, b)", None, None, Some(&sig));
    assert_eq!(parts.len(), 2);
    assert_eq!(code(&parts[0]), "(global) g: function g(a, b)");
    assert_eq!(markdown(&parts[1]), "@*param* `a` — first\n");
}

#[test]
fn hover_of_members() {
    let parts = build_member_hover(&LuaMemberKey::Integer(2), &LuaType::String, "string", None, None).unwrap();
    assert_eq!(code(&parts[0]), "(field) [2]: string");
    let parts = build_member_hover(&LuaMemberKey::Name("f".to_string()), &LuaType::Function, "function f()", Some("d".to_string()), None).unwrap();
    assert_eq!(code(&parts[0]), "function f()");
    assert_eq!(markdown(&parts[1]), "d");
    assert!(build_member_hover(&LuaMemberKey::NoneKey, &LuaType::String, "string", None, None).is_none());
}

#[test]
fn hover_of_declared_types() {
    let alias = TypeDeclHoverInfo::Alias { origin_text: Some("integer".to_string()), members: None };
    let parts = build_type_decl_hover(&alias, "Id", None).unwrap();
    assert_eq!(code(&parts[0]), "(type alias) Id = integer");
    let members = TypeDeclHoverInfo::Alias {
        origin_text: None,
        members: Some(vec![Some(("\"a\"".to_string(), Some("first".to_string()))), Some(("\"b\"".to_string(), None))]),
    };
    let parts = build_type_decl_hover(&members, "Mode", Some("modes".to_string())).unwrap();
    assert_eq!(parts.len(), 3);
    assert_eq!(code(&parts[0]), "(type alias) Mode");
    assert_eq!(code(&parts[1]), "    | \"a\"  --first\n    | \"b\"\n");
    assert_eq!(markdown(&parts[2]), "modes");
    let broken = TypeDeclHoverInfo::Alias { origin_text: None, members: Some(vec![None]) };
    assert!(build_type_decl_hover(&broken, "M", None).is_none());
    let no_members = TypeDeclHoverInfo::Alias { origin_text: None, members: None };
    assert!(build_type_decl_hover(&no_members, "M", None).is_none());
    let parts = build_type_decl_hover(&TypeDeclHoverInfo::Enum, "Color", None).unwrap();
    assert_eq!(code(&parts[0]), "(enum) Color");
    let parts = build_type_decl_hover(&TypeDeclHoverInfo::Class { text: "Player".to_string() }, "Player", None).unwrap();
    assert_eq!(code(&parts[0]), "(class) Player");
}

#[test]
fn locals_shadow_globals_in_completion() {
    let locals = vec![env(1, "a", LuaType::Integer), env(2, "b", LuaType::String), env(3, "a", LuaType::Nil)];
    let globals = vec![env(10, "print", LuaType::Function), env(11, "b", LuaType::Nil)];
    let c = env_completions(&locals, &globals);
    let names: Vec<&str> = c.items.iter().map(|d| d.name.as_str()).collect();
    assert_eq!(names, vec!["a", "b", "print"]);
    assert!(matches!(c.items[0].typ, LuaType::Integer));
    assert_eq!(c.names.unwrap(), vec!["a".to_string(), "b".to_string(), "print".to_string()]);
}

#[test]
fn missing_declaration_stops_completion() {
    let locals = vec![env(1, "a", LuaType::Integer), None, env(3, "c", LuaType::Nil)];
    let c = env_completions(&locals, &vec![]);
    assert_eq!(c.items.len(), 1);
    assert!(c.names.is_none());
}

#[test]
fn require_like_functions() {
    let like = vec!["import".to_string()];
    assert!(is_require_call(&like, "require"));
    assert!(is_require_call(&like, "import"));
    assert!(!is_require_call(&like, "load"));
}

#[test]
fn module_path_of_typed_text() {
    assert_eq!(module_path_of("a/b.c"), "a.b");
    assert_eq!(completion_prefix_of("a/b.c"), "a/b.");
    assert_eq!(module_path_of("a\\b\\"), "a.b");
    assert_eq!(module_path_of("single"), "");
    assert_eq!(completion_prefix_of("single"), "");
}

#[test]
fn module_completions_of_children() {
    let children = vec![
        ("util".to_string(), Some(ChildNode::Folder)),
        ("json".to_string(), Some(ChildNode::File(Some(ChildModule { visible: true, uri: Some("file:///json.lua".to_string()) })))),
        ("hidden".to_string(), Some(ChildNode::File(Some(ChildModule { visible: false, uri: None })))),
    ];
    let items = module_completions("lib.", &children).unwrap();
    assert_eq!(items.len(), 2);
    assert_eq!(items[0].kind, ModuleCompletionKind::Folder);
    assert_eq!(items[0].insert_text, "util");
    assert_eq!(items[1].kind, ModuleCompletionKind::File);
    assert_eq!(items[1].filter_text, "lib.json");
    assert_eq!(items[1].detail.as_deref(), Some("file:///json.lua"));
    let broken = vec![("x".to_string(), None)];
    assert!(module_completions("", &broken).is_none());
}

#[test]
fn hover_by_subject() {
    match build_semantic_info_hover(HoverSubject::Value { type_text: "integer".to_string() }) {
        Some(HoverContent::Markup(t)) => assert_eq!(t, "integer"),
        _ => panic!("expected markup"),
    }
    let member = HoverSubject::Member {
        key: LuaMemberKey::Name("n".to_string()),
        typ: LuaType::Integer,
        type_text: "integer".to_string(),
        description: None,
        signature: None,
    };
    match build_semantic_info_hover(member) {
        Some(HoverContent::Parts(p)) => assert_eq!(code(&p[0]), "(field) n: integer"),
        _ => panic!("expected parts"),
    }
    assert!(build_semantic_info_hover(HoverSubject::Other).is_none());
}
