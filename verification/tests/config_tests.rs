use emmylua_code_analysis::base::TextRange;
use emmylua_code_analysis::client::{
    apply_vscode_files_configs, get_client_id, get_workspace_folders, new_client_config, ClientId,
    VscodeFilesConfig,
};
use emmylua_code_analysis::config::{default_true, encoding_default, EmmyrcHover, EmmyrcWorkspace};
use emmylua_code_analysis::doc_tags::{
    analyze_tag, declared_type, find_owner_closure, get_attrib_value, get_owner_id, module_tag_action,
    CommentOwner, LuaDeclTypeKind, ModuleTagAction, PropertyOwner, TagAnalyzer,
};
use emmylua_code_analysis::base::FileId;
use emmylua_code_analysis::decl::LuaDeclId;
use emmylua_code_analysis::signature::LuaSignatureId;
use emmylua_code_analysis::flow::DocTagKind;
use emmylua_code_analysis::meta::{meta_builtin_std_key, meta_doc_tag_key, meta_keyword_key};
use emmylua_code_analysis::resources::{filter_lua_files, is_lua_resource, load_resource_from_include_dir, LuaFileInfo, ResourceEntry};
use emmylua_code_analysis::semantic_tokens::{
    build_tokens_semantic_token, SemanticTokenKind, SemanticTokenModifier, TokenHighlight, TokenKind,
};

#[test]
fn workspace_defaults() {
    let w = EmmyrcWorkspace::default();
    assert_eq!(w.encoding, "utf-8");
    assert_eq!(encoding_default(), "utf-8");
    assert!(w.ignore_dir.is_empty() && w.library.is_empty());
    assert_eq!(w.preload_file_size, 0);
    assert!(default_true());
    assert!(EmmyrcHover::default().enable);
}

#[test]
fn clients_by_name() {
    assert_eq!(get_client_id(Some("Visual Studio Code")), ClientId::VSCode);
    assert_eq!(get_client_id(Some("Neovim")), ClientId::Neovim);
    assert_eq!(get_client_id(Some("Zed")), ClientId::Other);
    assert_eq!(get_client_id(None), ClientId::Other);
    assert!(ClientId::VSCode.is_vscode());
    assert!(ClientId::Intellij.is_intellij());
    assert!(ClientId::Neovim.is_neovim());
    assert!(ClientId::Other.is_other());
}

#[test]
fn vscode_file_settings() {
    let mut c = new_client_config(ClientId::VSCode);
    assert_eq!(c.encoding, "utf-8");
    let configs = vec![VscodeFilesConfig {
        exclude: Some(vec![("**/.git".to_string(), true)]),
        associations: Some(vec![("*.luau".to_string(), "lua".to_string()), ("*.txt".to_string(), "plaintext".to_string())]),
        encoding: Some("gbk".to_string()),
    }];
    apply_vscode_files_configs(&mut c, &configs);
    assert_eq!(c.exclude, vec!["**/.git".to_string()]);
    assert_eq!(c.extensions, vec!["*.luau".to_string()]);
    assert_eq!(c.encoding, "gbk");
}

#[test]
fn workspace_folders_fall_back_to_root() {
    let f = get_workspace_folders(Some(vec![None, Some("/w".to_string())]), Some("/root".to_string()));
    assert_eq!(f, vec!["/w".to_string()]);
    let g = get_workspace_folders(Some(vec![None]), Some("/root".to_string()));
    assert_eq!(g, vec!["/root".to_string()]);
    assert!(get_workspace_folders(None, None).is_empty());
}

#[test]
fn token_highlights() {
    assert_eq!(build_tokens_semantic_token(TokenKind::TkString, "\"s\"", 0, ClientId::Other), Some(TokenHighlight::Whole(SemanticTokenKind::String, None)));
    assert_eq!(build_tokens_semantic_token(TokenKind::TkLocal, "local", 0, ClientId::VSCode), None);
    assert_eq!(build_tokens_semantic_token(TokenKind::TkLocal, "local", 0, ClientId::Neovim), Some(TokenHighlight::Whole(SemanticTokenKind::Keyword, None)));
    assert_eq!(
        build_tokens_semantic_token(TokenKind::TkDocStart, "---@", 10, ClientId::Other),
        Some(TokenHighlight::At { position: 13, length: 1, kind: SemanticTokenKind::Keyword, modifier: SemanticTokenModifier::Documentation })
    );
}

#[test]
fn type_attributes_from_names() {
    let a = get_attrib_value(&vec!["partial".to_string(), "exact".to_string(), "other".to_string()]).unwrap();
    assert!(a.partial && a.exact && !a.key && !a.global);
    let d = declared_type(LuaDeclTypeKind::Alias, Some(("A".to_string(), TextRange::new(0, 1))), Some(&vec!["key".to_string()])).unwrap();
    assert!(d.attrib.is_none());
    let c = declared_type(LuaDeclTypeKind::Class, Some(("C".to_string(), TextRange::new(0, 1))), Some(&vec!["key".to_string()])).unwrap();
    assert!(c.attrib.unwrap().key);
    assert!(declared_type(LuaDeclTypeKind::Enum, None, None).is_none());
}

#[test]
fn module_tags_and_tag_analyzers() {
    assert!(matches!(module_tag_action(Some("no-require"), None), Some(ModuleTagAction::HideModule)));
    assert!(module_tag_action(Some("other"), Some("x".to_string())).is_none());
    assert!(matches!(module_tag_action(None, Some("a.b".to_string())), Some(ModuleTagAction::SetModulePath(ref p)) if p == "a.b"));
    assert_eq!(analyze_tag(DocTagKind::Generic), Some(TagAnalyzer::FuncGeneric));
    assert_eq!(analyze_tag(DocTagKind::Meta), None);
}

#[test]
fn embedded_resources_depth_first() {
    let tree = vec![
        ResourceEntry::File { path: "a.lua".to_string(), content: "A".to_string() },
        ResourceEntry::Dir(vec![ResourceEntry::File { path: "d/b.txt".to_string(), content: "B".to_string() }]),
        ResourceEntry::File { path: "c.lua".to_string(), content: "C".to_string() },
    ];
    let files = load_resource_from_include_dir(&tree);
    let paths: Vec<&str> = files.iter().map(|f| f.path.as_str()).collect();
    assert_eq!(paths, vec!["a.lua", "d/b.txt", "c.lua"]);
    let lua: Vec<LuaFileInfo> = filter_lua_files(&files);
    assert_eq!(lua.len(), 2);
    assert!(is_lua_resource("std/string.lua"));
    assert!(!is_lua_resource("lua"));
}

#[test]
fn description_keys() {
    assert_eq!(meta_keyword_key("local"), "keywords.local");
    assert_eq!(meta_builtin_std_key("print"), "builtin_std.print");
    assert_eq!(meta_doc_tag_key("class"), "tags.class");
}

#[test]
fn owners_of_doc_comments() {
    let f = FileId::new(2);
    let func = CommentOwner::FuncStat { closure: Some(14) };
    assert_eq!(get_owner_id(f, Some(&func)), Some(PropertyOwner::Signature(LuaSignatureId::new(f, 14))));
    let local = CommentOwner::LocalStat { name_decl: Some(LuaDeclId::new(f, 6)) };
    assert_eq!(get_owner_id(f, Some(&local)), Some(PropertyOwner::Decl(LuaDeclId::new(f, 6))));
    let other = CommentOwner::Other { first_closure: Some(30) };
    assert_eq!(get_owner_id(f, Some(&other)), None);
    assert_eq!(find_owner_closure(Some(&other)), Some(30));
    assert_eq!(get_owner_id(f, None), None);
}
