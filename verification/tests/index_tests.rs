use emmylua_code_analysis::base::{FileId, LuaSyntaxId, LuaSyntaxKind, TextRange};
use emmylua_code_analysis::decl::{LocalAttribute, LuaDecl, LuaDeclId};
use emmylua_code_analysis::reference::{LuaReferenceIndex, LuaReferenceKey};
use emmylua_code_analysis::semantic_tokens::{calc_name_expr_ref, contains_range};
use emmylua_code_analysis::signature::{LuaDocParamInfo, LuaDocReturnInfo, LuaSignature, LuaSignatureId};
use emmylua_code_analysis::types::LuaType;

fn r(a: u32, b: u32) -> TextRange {
    TextRange::new(a, b)
}

#[test]
fn local_declaration_accessors() {
    let mut d = LuaDecl::Local {
        name: "count".to_string(),
        file_id: FileId::new(4),
        range: r(12, 17),
        attrib: Some(LocalAttribute::Const),
        decl_type: None,
    };
    assert_eq!(d.get_name(), "count");
    assert_eq!(d.get_position(), 12);
    assert_eq!(d.get_file_id(), FileId::new(4));
    assert_eq!(d.get_id(), LuaDeclId::new(FileId::new(4), 12));
    assert!(d.is_local() && !d.is_global());
    assert!(d.get_type().is_none());
    d.set_decl_type(LuaType::Integer);
    assert!(matches!(d.get_type(), Some(LuaType::Integer)));
    assert!(matches!(d, LuaDecl::Local { attrib: Some(LocalAttribute::Const), .. }));
}

#[test]
fn global_declaration_is_not_local() {
    let d = LuaDecl::Global { name: "print".to_string(), file_id: FileId::new(1), range: r(0, 5), decl_type: Some(LuaType::Function) };
    assert!(d.is_global());
    assert_eq!(d.get_range(), r(0, 5));
}

#[test]
fn signature_generic_and_return() {
    let mut sig = LuaSignature::new();
    assert!(!sig.is_generic());
    assert!(!sig.is_resolve_return());
    sig.generic_params.push(("T".to_string(), None));
    assert!(sig.is_generic());
    sig.return_docs.push(LuaDocReturnInfo { name: None, type_ref: LuaType::Integer, description: None });
    assert!(sig.is_resolve_return());
    let id = LuaSignatureId::new(FileId::new(2), 40);
    assert_eq!(id.get_file_id(), FileId::new(2));
    assert_eq!(id.get_position(), 40);
}

#[test]
fn parameter_docs_by_position() {
    let mut sig = LuaSignature::new();
    sig.params.push("a".to_string());
    sig.params.push("b".to_string());
    sig.param_docs.push(("b".to_string(), LuaDocParamInfo { name: "b".to_string(), type_ref: LuaType::String, nullable: false, description: Some("second".to_string()) }));
    assert!(sig.get_param_info_by_id(0).is_none());
    assert_eq!(sig.get_param_info_by_id(1).unwrap().description.as_deref(), Some("second"));
    assert!(sig.get_param_info_by_id(2).is_none());
}

#[test]
fn local_references_accumulate() {
    let mut idx = LuaReferenceIndex::new();
    let f = FileId::new(1);
    let d = LuaDeclId::new(f, 6);
    idx.add_local_reference(d, f, r(6, 7));
    idx.add_local_reference(d, f, r(20, 21));
    idx.add_local_reference(LuaDeclId::new(f, 30), f, r(30, 31));
    let refs = idx.get_local_references(&f, &d).unwrap();
    assert_eq!(refs.len(), 2);
    assert_eq!(refs[1], r(20, 21));
    assert!(idx.get_local_references(&FileId::new(2), &d).is_none());
    assert_eq!(idx.get_local_references_map(&f).unwrap().len(), 2);
    let used = calc_name_expr_ref(&idx, f);
    assert_eq!(used.len(), 3);
    assert!(contains_range(&used, r(30, 31)));
    assert!(!contains_range(&used, r(40, 41)));
    assert_eq!(calc_name_expr_ref(&idx, FileId::new(9)).len(), 0);
}

#[test]
fn global_references_one_per_file() {
    let mut idx = LuaReferenceIndex::new();
    idx.add_global_reference("print".to_string(), FileId::new(1), r(0, 5));
    idx.add_global_reference("print".to_string(), FileId::new(1), r(10, 15));
    idx.add_global_reference("print".to_string(), FileId::new(2), r(3, 8));
    let in_one = idx.get_global_file_references("print", FileId::new(1)).unwrap();
    assert_eq!(in_one, vec![r(10, 15)]);
    assert_eq!(idx.get_global_file_references("print", FileId::new(3)).unwrap().len(), 0);
    assert!(idx.get_global_file_references("other", FileId::new(1)).is_none());
    let all = idx.get_global_references(&LuaReferenceKey::Name("print".to_string())).unwrap();
    assert_eq!(all.len(), 2);
    assert_eq!(all[0].file_id, FileId::new(1));
    assert_eq!(all[0].value, r(10, 15));
}

#[test]
fn removing_a_file_forgets_its_references() {
    let mut idx = LuaReferenceIndex::new();
    let f1 = FileId::new(1);
    let f2 = FileId::new(2);
    idx.add_local_reference(LuaDeclId::new(f1, 0), f1, r(0, 1));
    idx.add_index_reference(LuaReferenceKey::Integer(3), f1, LuaSyntaxId::new(LuaSyntaxKind::Other(9), r(4, 5)));
    idx.add_index_reference(LuaReferenceKey::Name("x".to_string()), f1, LuaSyntaxId::new(LuaSyntaxKind::NameExpr, r(6, 7)));
    idx.add_index_reference(LuaReferenceKey::Name("x".to_string()), f2, LuaSyntaxId::new(LuaSyntaxKind::NameExpr, r(8, 9)));
    idx.remove(f1);
    assert!(idx.get_local_reference(&f1).is_none());
    assert!(idx.get_global_references(&LuaReferenceKey::Integer(3)).is_none());
    let x = idx.get_global_references(&LuaReferenceKey::Name("x".to_string())).unwrap();
    assert_eq!(x.len(), 1);
    assert_eq!(x[0].file_id, f2);
}

#[test]
fn reference_keys_from_values() {
    assert!(LuaReferenceKey::from("a".to_string()) == LuaReferenceKey::Name("a".to_string()));
    assert!(LuaReferenceKey::from(5i64) == LuaReferenceKey::Integer(5));
    assert!(LuaReferenceKey::NoneKey != LuaReferenceKey::Integer(0));
}
