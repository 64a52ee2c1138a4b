//! What the doc tags that declare things declare: types with their
//! attributes, module paths, and the analyzer each tag goes to.
use vstd::prelude::*;

use crate::base::{str_eq, FileId, TextRange, TextSize};
use crate::decl::LuaDeclId;
use crate::flow::DocTagKind;
use crate::signature::LuaSignatureId;

verus! {

/// The attributes of a declared class or enum: `---@class (partial) A`.
#[derive(Debug, Clone, Copy, PartialEq, Eq, Structural, Default)]
pub struct LuaTypeAttribute {
    pub partial: bool,
    pub key: bool,
    pub global: bool,
    pub exact: bool,
}

/// Some of the attribute names is `name`.
pub open spec fn names_contain(names: Seq<String>, name: Seq<char>) -> bool {
    exists|i: int| 0 <= i < names.len() && names[i]@ == name
}

/// The attributes named by the attribute list; unknown names are ignored.
pub fn get_attrib_value(names: &Vec<String>) -> (r: Option<LuaTypeAttribute>)
    ensures
        r == Some(
            LuaTypeAttribute {
                partial: names_contain(names@, "partial"@),
                key: names_contain(names@, "key"@),
                global: names_contain(names@, "global"@),
                exact: names_contain(names@, "exact"@),
            },
        ),
{
    let mut attr = LuaTypeAttribute { partial: false, key: false, global: false, exact: false };
    let mut i: usize = 0;
    while i < names.len()
        invariant
            0 <= i <= names@.len(),
            attr.partial == names_contain(names@.take(i as int), "partial"@),
            attr.key == names_contain(names@.take(i as int), "key"@),
            attr.global == names_contain(names@.take(i as int), "global"@),
            attr.exact == names_contain(names@.take(i as int), "exact"@),
        decreases names@.len() - i,
    {
        let n = names[i].as_str();
        proof {
            reveal_strlit("partial");
            reveal_strlit("key");
            reveal_strlit("global");
            reveal_strlit("exact");
            assert("partial"@.len() == 7 && "key"@.len() == 3 && "global"@.len() == 6
                && "exact"@.len() == 5);
        }
        if str_eq(n, "partial") {
            attr.partial = true;
        } else if str_eq(n, "key") {
            attr.key = true;
        } else if str_eq(n, "global") {
            attr.global = true;
        } else if str_eq(n, "exact") {
            attr.exact = true;
        }
        proof {
            let t = names@.take(i + 1);
            assert(t[i as int] == names@[i as int]);
            assert forall|w: Seq<char>| names_contain(t, w) == (names_contain(
                names@.take(i as int),
                w,
            ) || names@[i as int]@ == w) by {
                if names_contain(names@.take(i as int), w) {
                    let j = choose|j: int|
                        0 <= j < names@.take(i as int).len() && names@.take(i as int)[j]@ == w;
                    assert(t[j] == names@.take(i as int)[j]);
                }
                if names_contain(t, w) {
                    let j = choose|j: int| 0 <= j < t.len() && t[j]@ == w;
                    if j < i {
                        assert(t[j] == names@.take(i as int)[j]);
                    }
                }
            }
        }
        i = i + 1;
    }
    proof {
        assert(names@.take(i as int) =~= names@);
    }
    Some(attr)
}

/// The kind of a declared type.
#[derive(Debug, Clone, Copy, PartialEq, Eq, Structural)]
pub enum LuaDeclTypeKind {
    Class,
    Enum,
    Alias,
}

/// A type declared by a `@class`, `@enum` or `@alias` tag.
#[derive(Debug)]
pub struct TypeDeclaration {
    pub range: TextRange,
    pub name: String,
    pub kind: LuaDeclTypeKind,
    pub attrib: Option<LuaTypeAttribute>,
}

/// The type a declaring tag declares: none without a name; a class or an
/// enum with the attributes its attribute list names, if it has one; an
/// alias never has attributes.
pub fn declared_type(
    kind: LuaDeclTypeKind,
    name: Option<(String, TextRange)>,
    attrib_names: Option<&Vec<String>>,
) -> (r: Option<TypeDeclaration>)
    ensures
        name is None ==> r is None,
        name matches Some(n) ==> (r matches Some(d) && d.name == n.0 && d.range == n.1 && d.kind
            == kind && d.attrib == match (kind, attrib_names) {
            (LuaDeclTypeKind::Alias, _) => None,
            (_, None) => None,
            (_, Some(a)) => Some(
                LuaTypeAttribute {
                    partial: names_contain(a@, "partial"@),
                    key: names_contain(a@, "key"@),
                    global: names_contain(a@, "global"@),
                    exact: names_contain(a@, "exact"@),
                },
            ),
        }),
{
    let (n, range) = match name {
        Some(x) => x,
        None => {
            return None;
        },
    };
    let attrib = match kind {
        LuaDeclTypeKind::Alias => None,
        _ => match attrib_names {
            Some(a) => get_attrib_value(a),
            None => None,
        },
    };
    Some(TypeDeclaration { range, name: n, kind, attrib })
}

/// What a `@module` tag does to its file.
#[derive(Debug)]
pub enum ModuleTagAction {
    /// `---@module no-require`: the file cannot be required.
    HideModule,
    /// `---@module "path"`: the file is the module at that path.
    SetModulePath(String),
}

/// What a `@module` tag does: a name hides the module when it is
/// `no-require` and does nothing else; without a name, a string gives the
/// module path.
pub fn module_tag_action(name: Option<&str>, path: Option<String>) -> (r: Option<ModuleTagAction>)
    ensures
        name matches Some(n) ==> (if n@ == "no-require"@ {
            r matches Some(ModuleTagAction::HideModule)
        } else {
            r is None
        }),
        name is None ==> match path {
            Some(p) => r matches Some(ModuleTagAction::SetModulePath(q)) && q == p,
            None => r is None,
        },
{
    match name {
        Some(n) => {
            if str_eq(n, "no-require") {
                Some(ModuleTagAction::HideModule)
            } else {
                None
            }
        },
        None => match path {
            Some(p) => Some(ModuleTagAction::SetModulePath(p)),
            None => None,
        },
    }
}

/// The analyzers that doc tags go to.
#[derive(Debug, Clone, Copy, PartialEq, Eq, Structural)]
pub enum TagAnalyzer {
    Class,
    FuncGeneric,
    Enum,
    Alias,
    Type,
    Param,
    Return,
    Overload,
    Module,
    Visibility,
    Source,
    Nodiscard,
    Deprecated,
}

/// The analyzer a doc tag goes to: declarations (`@class`, `@generic`,
/// `@enum`, `@alias`), references to types (`@type`, `@param`, `@return`,
/// `@overload`, `@module`) and properties (`@private` and the other
/// visibilities, `@source`, `@nodiscard`, `@deprecated`); other tags go to
/// none.
pub fn analyze_tag(kind: DocTagKind) -> (r: Option<TagAnalyzer>)
    ensures
        kind is Class ==> r == Some(TagAnalyzer::Class),
        kind is Generic ==> r == Some(TagAnalyzer::FuncGeneric),
        kind is Enum ==> r == Some(TagAnalyzer::Enum),
        kind is Alias ==> r == Some(TagAnalyzer::Alias),
        kind is Type ==> r == Some(TagAnalyzer::Type),
        kind is Param ==> r == Some(TagAnalyzer::Param),
        kind is Return ==> r == Some(TagAnalyzer::Return),
        kind is Overload ==> r == Some(TagAnalyzer::Overload),
        kind is Module ==> r == Some(TagAnalyzer::Module),
        kind is Visibility ==> r == Some(TagAnalyzer::Visibility),
        kind is Source ==> r == Some(TagAnalyzer::Source),
        kind is Nodiscard ==> r == Some(TagAnalyzer::Nodiscard),
        kind is Deprecated ==> r == Some(TagAnalyzer::Deprecated),
        (kind is Namespace || kind is Using || kind is Meta || kind is Other) ==> r is None,
{
    match kind {
        DocTagKind::Class => Some(TagAnalyzer::Class),
        DocTagKind::Generic => Some(TagAnalyzer::FuncGeneric),
        DocTagKind::Enum => Some(TagAnalyzer::Enum),
        DocTagKind::Alias => Some(TagAnalyzer::Alias),
        DocTagKind::Type => Some(TagAnalyzer::Type),
        DocTagKind::Param => Some(TagAnalyzer::Param),
        DocTagKind::Return => Some(TagAnalyzer::Return),
        DocTagKind::Overload => Some(TagAnalyzer::Overload),
        DocTagKind::Module => Some(TagAnalyzer::Module),
        DocTagKind::Visibility => Some(TagAnalyzer::Visibility),
        DocTagKind::Source => Some(TagAnalyzer::Source),
        DocTagKind::Nodiscard => Some(TagAnalyzer::Nodiscard),
        DocTagKind::Deprecated => Some(TagAnalyzer::Deprecated),
        _ => None,
    }
}


/// The statement a doc comment is attached to, as far as its owner
/// depends on it.
#[derive(Debug)]
pub enum CommentOwner {
    /// A `function` or `local function` statement, with the start of its
    /// closure when it has one.
    FuncStat { closure: Option<TextSize> },
    /// An assignment: the local declaration that its first target names,
    /// `None` when the target is not a name or names no local.
    AssignStat { name_decl: Option<LuaDeclId> },
    /// A local statement: the declaration of its first name, if found.
    LocalStat { name_decl: Option<LuaDeclId> },
    /// Any other statement, with the start of the first closure in it.
    Other { first_closure: Option<TextSize> },
}

/// What the properties of a doc comment are attached to.
#[derive(Debug, Clone, Copy, PartialEq, Eq, Structural)]
pub enum PropertyOwner {
    Decl(LuaDeclId),
    Signature(LuaSignatureId),
}

/// The closure a doc comment documents: that of a function statement, or
/// the first closure in any other statement.
pub fn find_owner_closure(owner: Option<&CommentOwner>) -> (r: Option<TextSize>)
    ensures
        match owner {
            Some(CommentOwner::FuncStat { closure }) => r == closure,
            Some(CommentOwner::Other { first_closure }) => r == first_closure,
            Some(CommentOwner::AssignStat { .. }) => r is None,
            Some(CommentOwner::LocalStat { .. }) => r is None,
            None => r is None,
        },
{
    match owner {
        Some(CommentOwner::FuncStat { closure }) => *closure,
        Some(CommentOwner::Other { first_closure }) => *first_closure,
        _ => None,
    }
}

/// What the doc comment's properties belong to: the signature of a
/// function statement's closure, or the local declared or assigned by the
/// statement; nothing for other statements.
pub fn get_owner_id(file_id: FileId, owner: Option<&CommentOwner>) -> (r: Option<PropertyOwner>)
    ensures
        match owner {
            Some(CommentOwner::FuncStat { closure }) => match closure {
                Some(p) => r == Some(PropertyOwner::Signature(LuaSignatureId { file_id, position: *p })),
                None => r is None,
            },
            Some(CommentOwner::AssignStat { name_decl }) => match name_decl {
                Some(d) => r == Some(PropertyOwner::Decl(*d)),
                None => r is None,
            },
            Some(CommentOwner::LocalStat { name_decl }) => match name_decl {
                Some(d) => r == Some(PropertyOwner::Decl(*d)),
                None => r is None,
            },
            _ => r is None,
        },
{
    match owner {
        Some(CommentOwner::FuncStat { .. }) => match find_owner_closure(owner) {
            Some(p) => Some(PropertyOwner::Signature(LuaSignatureId::new(file_id, p))),
            None => None,
        },
        Some(CommentOwner::AssignStat { name_decl }) | Some(CommentOwner::LocalStat { name_decl }) => {
            match name_decl {
                Some(d) => Some(PropertyOwner::Decl(*d)),
                None => None,
            }
        },
        _ => None,
    }
}

} // verus!
