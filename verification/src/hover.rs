//! The text of hovers: what is shown for a declaration, a member or a
//! declared type, from the renderings of its type and its descriptions.
use vstd::prelude::*;

use crate::decl::LuaDecl;
use crate::signature::{spec_find_param_doc, LuaDocParamInfo, LuaSignature};
use crate::types::{LuaMemberKey, LuaType};

verus! {

/// A part of a hover: Lua code, or Markdown text.
#[derive(Debug)]
pub enum HoverPart {
    LuaCode(String),
    Markdown(String),
}

/// The decimal digit `d`.
pub open spec fn digit_char(d: int) -> char {
    (48 + d) as char
}

/// The decimal writing of `n`.
pub open spec fn spec_decimal(n: nat) -> Seq<char>
    decreases n,
{
    if n < 10 {
        seq![digit_char(n as int)]
    } else {
        spec_decimal(n / 10).push(digit_char((n % 10) as int))
    }
}

/// The decimal writing of `i`, with a `-` when it is negative.
pub open spec fn spec_int_decimal(i: int) -> Seq<char> {
    if i < 0 {
        seq!['-'] + spec_decimal((-i) as nat)
    } else {
        spec_decimal(i as nat)
    }
}

fn digit_str(d: u64) -> (r: &'static str)
    requires
        d < 10,
    ensures
        r@ == seq![digit_char(d as int)],
{
    proof {
        reveal_strlit("0");
        reveal_strlit("1");
        reveal_strlit("2");
        reveal_strlit("3");
        reveal_strlit("4");
        reveal_strlit("5");
        reveal_strlit("6");
        reveal_strlit("7");
        reveal_strlit("8");
        reveal_strlit("9");
    }
    if d == 0 {
        "0"
    } else if d == 1 {
        "1"
    } else if d == 2 {
        "2"
    } else if d == 3 {
        "3"
    } else if d == 4 {
        "4"
    } else if d == 5 {
        "5"
    } else if d == 6 {
        "6"
    } else if d == 7 {
        "7"
    } else if d == 8 {
        "8"
    } else {
        "9"
    }
}

fn push_decimal(s: &mut String, n: u64)
    ensures
        final(s)@ == old(s)@ + spec_decimal(n as nat),
    decreases n,
{
    if n >= 10 {
        push_decimal(s, n / 10);
    }
    s.append(digit_str(n % 10));
    proof {
        assert(old(s)@ + spec_decimal(n as nat) =~= s@);
    }
}

/// The decimal writing of an integer.
pub fn int_to_decimal(i: i64) -> (r: String)
    ensures
        r@ == spec_int_decimal(i as int),
{
    let mut s = String::new();
    if i < 0 {
        s.append("-");
        proof {
            reveal_strlit("-");
        }
        let m: u64 = (0i128 - (i as i128)) as u64;
        assert(m == -(i as int));
        push_decimal(&mut s, m);
    } else {
        push_decimal(&mut s, i as u64);
    }
    s
}

/// How the type of a hovered name is rendered: a function by its
/// signature, a constant by its value, anything else by its name.
#[derive(Debug, Clone, Copy, PartialEq, Eq, Structural)]
pub enum HoverTypeKind {
    Function,
    Const,
    Other,
}

/// Which rendering a hover uses for a value of type `typ`.
pub fn hover_type_kind(typ: &LuaType) -> (r: HoverTypeKind)
    ensures
        (typ is DocFunction || typ is Function) ==> r == HoverTypeKind::Function,
        !(typ is DocFunction || typ is Function) && (typ is BooleanConst || typ is StringConst
            || typ is IntegerConst || typ is FloatConst || typ is TableConst) ==> r
            == HoverTypeKind::Const,
        !(typ is DocFunction || typ is Function || typ is BooleanConst || typ is StringConst
            || typ is IntegerConst || typ is FloatConst || typ is TableConst) ==> r
            == HoverTypeKind::Other,
{
    if typ.is_function() {
        HoverTypeKind::Function
    } else if typ.is_const() {
        HoverTypeKind::Const
    } else {
        HoverTypeKind::Other
    }
}

/// The line that documents a parameter with a description.
pub open spec fn spec_param_line(info: LuaDocParamInfo) -> Seq<char> {
    match info.description {
        Some(d) => "@*param* `"@ + info.name@ + "` — "@ + d@ + "\n"@,
        None => seq![],
    }
}

/// The lines documenting the first `n` parameters of a signature.
pub open spec fn spec_signature_text(sig: LuaSignature, n: int) -> Seq<char>
    decreases n,
{
    if n <= 0 || n > sig.params@.len() {
        seq![]
    } else {
        spec_signature_text(sig, n - 1) + match spec_find_param_doc(
            sig.param_docs@,
            sig.params@[n - 1]@,
        ) {
            Some(k) => spec_param_line(sig.param_docs@[k].1),
            None => seq![],
        }
    }
}

/// The documentation of the parameters of a signature that have a
/// description, one line each; `None` when there is none.
pub fn signature_description(sig: &LuaSignature) -> (r: Option<String>)
    ensures
        match r {
            Some(s) => s@ == spec_signature_text(*sig, sig.params@.len() as int) && s@.len() > 0,
            None => spec_signature_text(*sig, sig.params@.len() as int).len() == 0,
        },
{
    let mut s = String::new();
    let mut i: usize = 0;
    while i < sig.params.len()
        invariant
            0 <= i <= sig.params@.len(),
            s@ == spec_signature_text(*sig, i as int),
        decreases sig.params@.len() - i,
    {
        let info = sig.get_param_info_by_id(i);
        match info {
            Some(p) => match &p.description {
                Some(d) => {
                    let ghost before = s@;
                    s.append("@*param* `");
                    s.append(p.name.as_str());
                    s.append("` — ");
                    s.append(d.as_str());
                    s.append("\n");
                    proof {
                        assert(s@ =~= before + spec_param_line(*p));
                    }
                },
                None => {},
            },
            None => {},
        }
        i = i + 1;
        proof {
            let ghost k = spec_find_param_doc(sig.param_docs@, sig.params@[i - 1]@);
            assert(spec_signature_text(*sig, i as int) == spec_signature_text(*sig, i - 1) + match k {
                Some(k) => spec_param_line(sig.param_docs@[k].1),
                None => seq![],
            });
        }
    }
    if s.as_str().unicode_len() > 0 {
        Some(s)
    } else {
        None
    }
}

/// How a declaration is introduced in its hover.
pub open spec fn spec_decl_prefix(is_local: bool) -> Seq<char> {
    if is_local {
        "local "@
    } else {
        "(global) "@
    }
}

/// The hover of a declaration: its code line, then its description (or,
/// without one, that of the member or declaration it was assigned from),
/// then the descriptions of its parameters.
pub open spec fn spec_decl_hover(
    decl: LuaDecl,
    kind: HoverTypeKind,
    type_text: Seq<char>,
    decl_description: Option<String>,
    owner_description: Option<String>,
    signature_text: Option<Seq<char>>,
) -> Seq<(bool, Seq<char>)> {
    let first = if kind == HoverTypeKind::Function {
        type_text
    } else {
        spec_decl_prefix(decl is Local) + decl.spec_name()@ + ": "@ + type_text
    };
    let desc = match decl_description {
        Some(d) => seq![(false, d@)],
        None => match owner_description {
            Some(d) => seq![(false, d@)],
            None => seq![],
        },
    };
    let sig = match signature_text {
        Some(t) => seq![(false, t)],
        None => seq![],
    };
    seq![(true, first)] + desc + sig
}

/// A part as a pair: whether it is Lua code, and its text.
pub open spec fn part_view(p: HoverPart) -> (bool, Seq<char>) {
    match p {
        HoverPart::LuaCode(s) => (true, s@),
        HoverPart::Markdown(s) => (false, s@),
    }
}

/// The parts as pairs.
pub open spec fn parts_view(ps: Seq<HoverPart>) -> Seq<(bool, Seq<char>)> {
    ps.map_values(|p: HoverPart| part_view(p))
}

/// The text of the parameters' descriptions of the signature that `typ`
/// names, when the signature is known and has any.
pub open spec fn spec_signature_part(typ: LuaType, signature: Option<&LuaSignature>) -> Option<Seq<char>> {
    match (typ, signature) {
        (LuaType::Signature(_), Some(sig)) => if spec_signature_text(*sig, sig.params@.len() as int).len() > 0 {
            Some(spec_signature_text(*sig, sig.params@.len() as int))
        } else {
            None
        },
        _ => None,
    }
}

fn signature_part(typ: &LuaType, signature: Option<&LuaSignature>) -> (r: Option<String>)
    ensures
        match spec_signature_part(*typ, signature) {
            Some(t) => r matches Some(s) && s@ == t,
            None => r is None,
        },
{
    match (typ, signature) {
        (LuaType::Signature(_), Some(sig)) => signature_description(sig),
        _ => None,
    }
}

/// The hover of a declaration of type `typ`. `type_text` renders the type
/// as `hover_type_kind` says; the descriptions are those of the
/// declaration and of what it was assigned from; `signature` is the
/// signature that `typ` names, if it names a known one.
pub fn build_decl_hover(
    decl: &LuaDecl,
    typ: &LuaType,
    type_text: &str,
    decl_description: Option<String>,
    owner_description: Option<String>,
    signature: Option<&LuaSignature>,
) -> (r: Vec<HoverPart>)
    ensures
        parts_view(r@) == spec_decl_hover(
            *decl,
            if (*typ is DocFunction || *typ is Function) {
                HoverTypeKind::Function
            } else {
                HoverTypeKind::Other
            },
            type_text@,
            decl_description,
            owner_description,
            spec_signature_part(*typ, signature),
        ),
{
    let mut parts: Vec<HoverPart> = Vec::new();
    let is_fn = typ.is_function();
    if is_fn {
        parts.push(HoverPart::LuaCode(String::from_str(type_text)));
    } else {
        let mut s = String::new();
        if decl.is_local() {
            s.append("local ");
        } else {
            s.append("(global) ");
        }
        s.append(decl.get_name());
        s.append(": ");
        s.append(type_text);
        proof {
            assert(s@ =~= spec_decl_prefix(*decl is Local) + decl.spec_name()@ + ": "@ + type_text@);
        }
        parts.push(HoverPart::LuaCode(s));
    }
    match decl_description {
        Some(d) => {
            parts.push(HoverPart::Markdown(d));
        },
        None => match owner_description {
            Some(d) => {
                parts.push(HoverPart::Markdown(d));
            },
            None => {},
        },
    }
    match signature_part(typ, signature) {
        Some(t) => {
            parts.push(HoverPart::Markdown(t));
        },
        None => {},
    }
    proof {
        assert(parts_view(parts@) =~= spec_decl_hover(
            *decl,
            if (*typ is DocFunction || *typ is Function) {
                HoverTypeKind::Function
            } else {
                HoverTypeKind::Other
            },
            type_text@,
            decl_description,
            owner_description,
            spec_signature_part(*typ, signature),
        ));
    }
    parts
}

/// The name a member is shown by: its name, or `[i]` for an integer key;
/// a member without key has none.
pub open spec fn spec_member_hover_name(key: LuaMemberKey) -> Option<Seq<char>> {
    match key {
        LuaMemberKey::Name(n) => Some(n@),
        LuaMemberKey::Integer(i) => Some("["@ + spec_int_decimal(i as int) + "]"@),
        LuaMemberKey::NoneKey => None,
    }
}

/// The name a member is shown by in its hover.
pub fn member_hover_name(key: &LuaMemberKey) -> (r: Option<String>)
    ensures
        match spec_member_hover_name(*key) {
            Some(n) => r matches Some(s) && s@ == n,
            None => r is None,
        },
{
    match key {
        LuaMemberKey::Name(n) => Some(n.clone()),
        LuaMemberKey::Integer(i) => {
            let mut s = String::from_str("[");
            let d = int_to_decimal(*i);
            s.append(d.as_str());
            s.append("]");
            Some(s)
        },
        LuaMemberKey::NoneKey => None,
    }
}

/// The hover of a member: its code line, its description, then the
/// descriptions of its parameters.
pub open spec fn spec_member_hover(
    name: Seq<char>,
    kind: HoverTypeKind,
    type_text: Seq<char>,
    description: Option<String>,
    signature_text: Option<Seq<char>>,
) -> Seq<(bool, Seq<char>)> {
    let first = if kind == HoverTypeKind::Function {
        type_text
    } else {
        "(field) "@ + name + ": "@ + type_text
    };
    seq![(true, first)] + match description {
        Some(d) => seq![(false, d@)],
        None => seq![],
    } + match signature_text {
        Some(t) => seq![(false, t)],
        None => seq![],
    }
}

/// The hover of the member with key `key` and type `typ`; `None` for a
/// member without name. `type_text` renders the type as `hover_type_kind`
/// says.
pub fn build_member_hover(
    key: &LuaMemberKey,
    typ: &LuaType,
    type_text: &str,
    description: Option<String>,
    signature: Option<&LuaSignature>,
) -> (r: Option<Vec<HoverPart>>)
    ensures
        match spec_member_hover_name(*key) {
            None => r is None,
            Some(name) => r matches Some(parts) && parts_view(parts@) == spec_member_hover(
                name,
                if (*typ is DocFunction || *typ is Function) {
                    HoverTypeKind::Function
                } else {
                    HoverTypeKind::Other
                },
                type_text@,
                description,
                spec_signature_part(*typ, signature),
            ),
        },
{
    let name = match member_hover_name(key) {
        Some(n) => n,
        None => {
            return None;
        },
    };
    let mut parts: Vec<HoverPart> = Vec::new();
    if typ.is_function() {
        parts.push(HoverPart::LuaCode(String::from_str(type_text)));
    } else {
        let mut s = String::from_str("(field) ");
        s.append(name.as_str());
        s.append(": ");
        s.append(type_text);
        parts.push(HoverPart::LuaCode(s));
    }
    match description {
        Some(d) => {
            parts.push(HoverPart::Markdown(d));
        },
        None => {},
    }
    match signature_part(typ, signature) {
        Some(t) => {
            parts.push(HoverPart::Markdown(t));
        },
        None => {},
    }
    proof {
        assert(parts_view(parts@) =~= spec_member_hover(
            name@,
            if (*typ is DocFunction || *typ is Function) {
                HoverTypeKind::Function
            } else {
                HoverTypeKind::Other
            },
            type_text@,
            description,
            spec_signature_part(*typ, signature),
        ));
    }
    Some(parts)
}

/// What a hover shows of a declared type.
#[derive(Debug)]
pub enum TypeDeclHoverInfo {
    /// An alias: the rendering of the type it stands for, when it has one;
    /// else its union members, each rendered with its description, `None`
    /// where a member cannot be found (and `None` for the whole list when
    /// the alias has no members).
    Alias { origin_text: Option<String>, members: Option<Vec<Option<(String, Option<String>)>>> },
    Enum,
    /// A class, with the rendering of its definition.
    Class { text: String },
}

/// The line of a union member of an alias.
pub open spec fn spec_alias_member_line(text: Seq<char>, description: Option<String>) -> Seq<char> {
    match description {
        Some(d) => "    | "@ + text + "  --"@ + d@ + "\n"@,
        None => "    | "@ + text + "\n"@,
    }
}

/// The lines of the union members of an alias; `None` when a member is
/// missing.
pub open spec fn spec_alias_members_text(members: Seq<Option<(String, Option<String>)>>) -> Option<
    Seq<char>,
>
    decreases members.len(),
{
    if members.len() == 0 {
        Some(seq![])
    } else {
        match (spec_alias_members_text(members.drop_last()), members.last()) {
            (Some(t), Some(m)) => Some(t + spec_alias_member_line(m.0@, m.1)),
            _ => None,
        }
    }
}

/// The hover of a declared type named `name`: `None` when an alias with
/// no type to stand for has members that cannot be listed.
pub open spec fn spec_type_decl_hover(
    info: TypeDeclHoverInfo,
    name: Seq<char>,
    description: Option<String>,
) -> Option<Seq<(bool, Seq<char>)>> {
    let desc = match description {
        Some(d) => seq![(false, d@)],
        None => seq![],
    };
    match info {
        TypeDeclHoverInfo::Alias { origin_text, members } => match origin_text {
            Some(o) => Some(seq![(true, "(type alias) "@ + name + " = "@ + o@)] + desc),
            None => match members {
                Some(ms) => match spec_alias_members_text(ms@) {
                    Some(t) => Some(seq![(true, "(type alias) "@ + name), (true, t)] + desc),
                    None => None,
                },
                None => None,
            },
        },
        TypeDeclHoverInfo::Enum => Some(seq![(true, "(enum) "@ + name)] + desc),
        TypeDeclHoverInfo::Class { text } => Some(seq![(true, "(class) "@ + text@)] + desc),
    }
}

fn alias_members_text(members: &Vec<Option<(String, Option<String>)>>) -> (r: Option<String>)
    ensures
        match spec_alias_members_text(members@) {
            Some(t) => r matches Some(s) && s@ == t,
            None => r is None,
        },
{
    let mut s = String::new();
    let mut i: usize = 0;
    while i < members.len()
        invariant
            0 <= i <= members@.len(),
            spec_alias_members_text(members@.take(i as int)) == Some(s@),
        decreases members@.len() - i,
    {
        proof {
            assert(members@.take(i + 1).drop_last() =~= members@.take(i as int));
            assert(members@.take(i + 1).last() == members@[i as int]);
        }
        match &members[i] {
            None => {
                proof {
                    lemma_alias_members_missing(members@, i as int + 1);
                    assert(members@.take(members@.len() as int) =~= members@);
                }
                return None;
            },
            Some(m) => {
                let ghost before = s@;
                s.append("    | ");
                s.append(m.0.as_str());
                match &m.1 {
                    Some(d) => {
                        s.append("  --");
                        s.append(d.as_str());
                        s.append("\n");
                    },
                    None => {
                        s.append("\n");
                    },
                }
                proof {
                    assert(s@ =~= before + spec_alias_member_line(m.0@, m.1));
                }
            },
        }
        i = i + 1;
    }
    proof {
        assert(members@.take(i as int) =~= members@);
    }
    Some(s)
}

/// Once a prefix of the members has a missing one, so do all longer
/// prefixes.
proof fn lemma_alias_members_missing(members: Seq<Option<(String, Option<String>)>>, n: int)
    requires
        0 <= n <= members.len(),
        spec_alias_members_text(members.take(n)) is None,
    ensures
        spec_alias_members_text(members.take(members.len() as int)) is None,
    decreases members.len() - n,
{
    if n < members.len() {
        assert(members.take(n + 1).drop_last() =~= members.take(n));
        lemma_alias_members_missing(members, n + 1);
    }
}

/// The hover of the declared type named `name`, with its description.
pub fn build_type_decl_hover(info: &TypeDeclHoverInfo, name: &str, description: Option<String>) -> (r:
    Option<Vec<HoverPart>>)
    ensures
        match spec_type_decl_hover(*info, name@, description) {
            Some(v) => r matches Some(parts) && parts_view(parts@) == v,
            None => r is None,
        },
{
    let mut parts: Vec<HoverPart> = Vec::new();
    match info {
        TypeDeclHoverInfo::Alias { origin_text, members } => match origin_text {
            Some(o) => {
                let mut s = String::from_str("(type alias) ");
                s.append(name);
                s.append(" = ");
                s.append(o.as_str());
                parts.push(HoverPart::LuaCode(s));
            },
            None => {
                let mut s = String::from_str("(type alias) ");
                s.append(name);
                parts.push(HoverPart::LuaCode(s));
                let ms = match members {
                    Some(ms) => ms,
                    None => {
                        return None;
                    },
                };
                match alias_members_text(ms) {
                    Some(t) => {
                        parts.push(HoverPart::LuaCode(t));
                    },
                    None => {
                        return None;
                    },
                }
            },
        },
        TypeDeclHoverInfo::Enum => {
            let mut s = String::from_str("(enum) ");
            s.append(name);
            parts.push(HoverPart::LuaCode(s));
        },
        TypeDeclHoverInfo::Class { text } => {
            let mut s = String::from_str("(class) ");
            s.append(text.as_str());
            parts.push(HoverPart::LuaCode(s));
        },
    }
    match description {
        Some(d) => {
            parts.push(HoverPart::Markdown(d));
        },
        None => {},
    }
    proof {
        assert(parts_view(parts@) =~= spec_type_decl_hover(*info, name@, description)->Some_0);
    }
    Some(parts)
}


/// What a hover is asked about, with what its text is built from.
#[derive(Debug)]
pub enum HoverSubject {
    /// A value with no declaration or member behind it: its type rendered
    /// in full.
    Value { type_text: String },
    /// A declaration, as `build_decl_hover` takes it.
    Decl {
        decl: LuaDecl,
        typ: LuaType,
        type_text: String,
        decl_description: Option<String>,
        owner_description: Option<String>,
        signature: Option<LuaSignature>,
    },
    /// A member, as `build_member_hover` takes it.
    Member {
        key: LuaMemberKey,
        typ: LuaType,
        type_text: String,
        description: Option<String>,
        signature: Option<LuaSignature>,
    },
    /// A declared type, as `build_type_decl_hover` takes it.
    TypeDecl { info: TypeDeclHoverInfo, name: String, description: Option<String> },
    /// Anything else, which gets no hover.
    Other,
}

/// The content of a hover: one Markdown text, or a list of parts.
#[derive(Debug)]
pub enum HoverContent {
    Markup(String),
    Parts(Vec<HoverPart>),
}

/// The hover of a subject: a value shows its type; a declaration, a member
/// and a declared type show what their builders give; anything else shows
/// nothing.
pub fn build_semantic_info_hover(subject: HoverSubject) -> (r: Option<HoverContent>)
    ensures
        match subject {
            HoverSubject::Value { type_text } => r matches Some(HoverContent::Markup(t)) && t == type_text,
            HoverSubject::Decl { decl, typ, type_text, decl_description, owner_description, signature } =>
                r matches Some(HoverContent::Parts(parts)) && parts_view(parts@) == spec_decl_hover(
                decl,
                if (typ is DocFunction || typ is Function) {
                    HoverTypeKind::Function
                } else {
                    HoverTypeKind::Other
                },
                type_text@,
                decl_description,
                owner_description,
                spec_signature_part(typ, match signature {
                    Some(s) => Some(&s),
                    None => None,
                }),
            ),
            HoverSubject::Member { key, typ, type_text, description, signature } => match spec_member_hover_name(key) {
                None => r is None,
                Some(name) => r matches Some(HoverContent::Parts(parts)) && parts_view(parts@)
                    == spec_member_hover(
                    name,
                    if (typ is DocFunction || typ is Function) {
                        HoverTypeKind::Function
                    } else {
                        HoverTypeKind::Other
                    },
                    type_text@,
                    description,
                    spec_signature_part(typ, match signature {
                        Some(s) => Some(&s),
                        None => None,
                    }),
                ),
            },
            HoverSubject::TypeDecl { info, name, description } => match spec_type_decl_hover(
                info,
                name@,
                description,
            ) {
                Some(v) => r matches Some(HoverContent::Parts(parts)) && parts_view(parts@) == v,
                None => r is None,
            },
            HoverSubject::Other => r is None,
        },
{
    match subject {
        HoverSubject::Value { type_text } => Some(HoverContent::Markup(type_text)),
        HoverSubject::Decl { decl, typ, type_text, decl_description, owner_description, signature } => {
            let parts = build_decl_hover(
                &decl,
                &typ,
                type_text.as_str(),
                decl_description,
                owner_description,
                signature.as_ref(),
            );
            Some(HoverContent::Parts(parts))
        },
        HoverSubject::Member { key, typ, type_text, description, signature } => {
            match build_member_hover(&key, &typ, type_text.as_str(), description, signature.as_ref()) {
                Some(parts) => Some(HoverContent::Parts(parts)),
                None => None,
            }
        },
        HoverSubject::TypeDecl { info, name, description } => {
            match build_type_decl_hover(&info, name.as_str(), description) {
                Some(parts) => Some(HoverContent::Parts(parts)),
                None => None,
            }
        },
        HoverSubject::Other => None,
    }
}

} // verus!
