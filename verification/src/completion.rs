//! Completion decisions: the variables in scope, and the module paths that
//! complete the string argument of `require`.
use vstd::prelude::*;

use crate::base::str_eq;
use crate::decl::LuaDeclId;
use crate::types::LuaType;

verus! {

/// A declaration in scope, with the type it has where completion is asked.
#[derive(Debug)]
pub struct EnvDecl {
    pub decl_id: LuaDeclId,
    pub name: String,
    pub typ: LuaType,
}

impl Clone for EnvDecl {
    fn clone(&self) -> (r: Self)
        ensures
            r == *self,
    {
        EnvDecl { decl_id: self.decl_id, name: self.name.clone(), typ: self.typ.clone() }
    }
}

/// Some declaration of `items` has the name `name`.
pub open spec fn has_name(items: Seq<EnvDecl>, name: Seq<char>) -> bool {
    exists|i: int| 0 <= i < items.len() && (#[trigger] items[i]).name@ == name
}

/// Some declaration of scope is missing.
pub open spec fn env_aborts(decls: Seq<Option<EnvDecl>>) -> bool {
    exists|i: int| 0 <= i < decls.len() && (#[trigger] decls[i]) is None
}

/// The declarations offered, in order: each name once, by the first
/// declaration that has it, up to the first declaration that cannot be
/// found.
pub open spec fn spec_env_items(decls: Seq<Option<EnvDecl>>) -> Seq<EnvDecl>
    decreases decls.len(),
{
    if decls.len() == 0 {
        seq![]
    } else {
        let rest = spec_env_items(decls.drop_last());
        if env_aborts(decls.drop_last()) {
            rest
        } else {
            match decls.last() {
                None => rest,
                Some(d) => if has_name(rest, d.name@) {
                    rest
                } else {
                    rest.push(d)
                },
            }
        }
    }
}

/// The completions of the names in scope.
#[derive(Debug)]
pub struct EnvCompletions {
    /// The declarations offered.
    pub items: Vec<EnvDecl>,
    /// The names offered, which later providers leave out; `None` when a
    /// declaration could not be found and the provider stopped.
    pub names: Option<Vec<String>>,
}

/// The names of the declarations, in order.
pub open spec fn item_names(items: Seq<EnvDecl>) -> Seq<Seq<char>> {
    items.map_values(|d: EnvDecl| d.name@)
}

fn find_name(items: &Vec<EnvDecl>, name: &str) -> (r: bool)
    ensures
        r == has_name(items@, name@),
{
    let mut i: usize = 0;
    while i < items.len()
        invariant
            0 <= i <= items@.len(),
            forall|j: int| 0 <= j < i ==> items@[j].name@ != name@,
        decreases items@.len() - i,
    {
        if str_eq(items[i].name.as_str(), name) {
            return true;
        }
        i = i + 1;
    }
    false
}

/// Offers `d` unless its name is offered already.
fn offer(items: &mut Vec<EnvDecl>, names: &mut Vec<String>, d: &EnvDecl)
    requires
        old(names)@.map_values(|s: String| s@) == item_names(old(items)@),
    ensures
        final(items)@ == if has_name(old(items)@, d.name@) {
            old(items)@
        } else {
            old(items)@.push(*d)
        },
        final(names)@.map_values(|s: String| s@) == item_names(final(items)@),
{
    if !find_name(items, d.name.as_str()) {
        let ghost before = items@;
        let ghost before_names = names@;
        items.push(d.clone());
        names.push(d.name.clone());
        proof {
            assert(names@.map_values(|s: String| s@) =~= before_names.map_values(|s: String| s@).push(
                d.name@,
            ));
            assert(item_names(items@) =~= item_names(before).push(d.name@));
        }
    }
}

/// The completions of the declarations in scope: the local ones first,
/// then the globals, each name once, by the first declaration that has
/// it. A declaration that cannot be found (`None`) stops the provider:
/// what was offered before stays, and no names are handed on.
pub fn env_completions(locals: &Vec<Option<EnvDecl>>, globals: &Vec<Option<EnvDecl>>) -> (r:
    EnvCompletions)
    ensures
        r.items@ == spec_env_items(locals@ + globals@),
        env_aborts(locals@ + globals@) ==> r.names is None,
        !env_aborts(locals@ + globals@) ==> (r.names matches Some(n) && n@.map_values(
            |s: String| s@,
        ) == item_names(r.items@)),
{
    let ghost all = locals@ + globals@;
    let mut items: Vec<EnvDecl> = Vec::new();
    let mut names: Vec<String> = Vec::new();
    let mut k: usize = 0;
    proof {
        assert(all.take(0) =~= Seq::<Option<EnvDecl>>::empty());
        assert(names@.map_values(|s: String| s@) =~= item_names(items@));
    }
    while k < locals.len()
        invariant
            all == locals@ + globals@,
            0 <= k <= locals@.len(),
            !env_aborts(all.take(k as int)),
            items@ == spec_env_items(all.take(k as int)),
            names@.map_values(|s: String| s@) == item_names(items@),
        decreases locals@.len() - k,
    {
        assert(locals@[k as int] == all[k as int]);
        proof {
            assert(all.take(k + 1).drop_last() =~= all.take(k as int));
            assert(all.take(k + 1).last() == all[k as int]);
        }
        match &locals[k] {
            None => {
                proof {
                    assert(all.take(k + 1)[k as int] is None);
                    lemma_env_aborted_rest(all, k as int + 1);
                }
                return EnvCompletions { items, names: None };
            },
            Some(d) => {
                offer(&mut items, &mut names, d);
            },
        }
        proof {
            assert forall|i: int| 0 <= i < k + 1 implies !(#[trigger] all.take(k + 1)[i] is None) by {
                if i < k {
                    assert(all.take(k + 1)[i] == all.take(k as int)[i]);
                }
            }
        }
        k = k + 1;
    }
    let mut j: usize = 0;
    while j < globals.len()
        invariant
            all == locals@ + globals@,
            k == locals@.len(),
            0 <= j <= globals@.len(),
            !env_aborts(all.take(k + j)),
            items@ == spec_env_items(all.take(k + j)),
            names@.map_values(|s: String| s@) == item_names(items@),
        decreases globals@.len() - j,
    {
        let ghost p = k + j;
        assert(globals@[j as int] == all[p]);
        proof {
            assert(all.take(p + 1).drop_last() =~= all.take(p));
            assert(all.take(p + 1).last() == all[p]);
        }
        match &globals[j] {
            None => {
                proof {
                    assert(all.take(p + 1)[p] is None);
                    lemma_env_aborted_rest(all, p + 1);
                }
                return EnvCompletions { items, names: None };
            },
            Some(d) => {
                offer(&mut items, &mut names, d);
            },
        }
        proof {
            assert forall|i: int| 0 <= i < p + 1 implies !(#[trigger] all.take(p + 1)[i] is None) by {
                if i < p {
                    assert(all.take(p + 1)[i] == all.take(p)[i]);
                }
            }
        }
        j = j + 1;
    }
    proof {
        assert(all.take(k + j) =~= all);
    }
    EnvCompletions { items, names: Some(names) }
}

/// Once a declaration is missing, the offer stays as it was.
proof fn lemma_env_aborted_rest(decls: Seq<Option<EnvDecl>>, n: int)
    requires
        0 <= n <= decls.len(),
        env_aborts(decls.take(n)),
    ensures
        spec_env_items(decls) == spec_env_items(decls.take(n)),
        env_aborts(decls),
    decreases decls.len() - n,
{
    if n < decls.len() {
        assert(decls.take(n + 1).drop_last() =~= decls.take(n));
        let i = choose|i: int| 0 <= i < decls.take(n).len() && (#[trigger] decls.take(n)[i]) is None;
        assert(decls.take(n + 1)[i] == decls.take(n)[i]);
        lemma_env_aborted_rest(decls, n + 1);
    } else {
        assert(decls.take(n) =~= decls);
    }
}

/// No two offered declarations share a name.
pub proof fn lemma_env_items_distinct(decls: Seq<Option<EnvDecl>>)
    ensures
        forall|i: int, j: int|
            0 <= i < j < spec_env_items(decls).len() ==> (#[trigger] spec_env_items(decls)[i]).name@
                != (#[trigger] spec_env_items(decls)[j]).name@,
    decreases decls.len(),
{
    if decls.len() > 0 {
        lemma_env_items_distinct(decls.drop_last());
    }
}

/// A name declared in scope is offered when no declaration is missing:
/// by the first declaration that has it.
pub proof fn lemma_env_name_offered(decls: Seq<Option<EnvDecl>>, k: int)
    requires
        !env_aborts(decls),
        0 <= k < decls.len(),
    ensures
        has_name(spec_env_items(decls), decls[k]->Some_0.name@),
    decreases decls.len(),
{
    assert(decls[k] is Some);
    let rest = spec_env_items(decls.drop_last());
    assert(!env_aborts(decls.drop_last())) by {
        if env_aborts(decls.drop_last()) {
            let i = choose|i: int|
                0 <= i < decls.drop_last().len() && (#[trigger] decls.drop_last()[i]) is None;
            assert(decls[i] == decls.drop_last()[i]);
        }
    }
    if k < decls.len() - 1 {
        assert(decls.drop_last()[k] == decls[k]);
        lemma_env_name_offered(decls.drop_last(), k);
        let i = choose|i: int| 0 <= i < rest.len() && (#[trigger] rest[i]).name@ == decls[k]->Some_0.name@;
        let d = decls.last()->Some_0;
        if !has_name(rest, d.name@) {
            assert(spec_env_items(decls)[i] == rest[i]);
        }
    } else {
        let d = decls.last()->Some_0;
        if !has_name(rest, d.name@) {
            assert(spec_env_items(decls)[rest.len() as int] == d);
        }
    }
}

/// Whether a function called by `name` loads a module: `require`, or one
/// of the functions configured to act like it.
pub fn is_require_call(require_like: &Vec<String>, name: &str) -> (r: bool)
    ensures
        r == (name@ == "require"@ || exists|i: int|
            0 <= i < require_like@.len() && require_like@[i]@ == name@),
{
    let mut i: usize = 0;
    while i < require_like.len()
        invariant
            0 <= i <= require_like@.len(),
            forall|j: int| 0 <= j < i ==> require_like@[j]@ != name@,
        decreases require_like@.len() - i,
    {
        if str_eq(name, require_like[i].as_str()) {
            return true;
        }
        i = i + 1;
    }
    str_eq(name, "require")
}

/// A separator of the parts of a module path.
pub open spec fn is_module_sep(c: char) -> bool {
    c == '.' || c == '/' || c == '\\'
}

/// The position of the last separator, if any.
pub open spec fn spec_last_sep(s: Seq<char>) -> Option<int>
    decreases s.len(),
{
    if s.len() == 0 {
        None
    } else if is_module_sep(s.last()) {
        Some(s.len() - 1)
    } else {
        spec_last_sep(s.drop_last())
    }
}

/// The module whose children complete a typed path: the parts before the
/// last, joined by `.`; empty for a path of one part.
pub open spec fn spec_module_path(s: Seq<char>) -> Seq<char> {
    match spec_last_sep(s) {
        Some(k) => s.take(k).map_values(|c: char| if is_module_sep(c) { '.' } else { c }),
        None => seq![],
    }
}

/// What the completed name is typed after: the path up to and including
/// its last separator; empty for a path of one part.
pub open spec fn spec_completion_prefix(s: Seq<char>) -> Seq<char> {
    match spec_last_sep(s) {
        Some(k) => s.take(k + 1),
        None => seq![],
    }
}

/// The last separator lies in the path.
proof fn lemma_last_sep_bound(s: Seq<char>)
    ensures
        spec_last_sep(s) matches Some(k) ==> 0 <= k < s.len() && is_module_sep(s[k]),
    decreases s.len(),
{
    if s.len() > 0 && !is_module_sep(s.last()) {
        lemma_last_sep_bound(s.drop_last());
        if let Some(k) = spec_last_sep(s.drop_last()) {
            assert(s[k] == s.drop_last()[k]);
        }
    }
}

/// The module path is made of the parts of the typed path joined by `.`:
/// it holds no `/` or `\\`, and the completion prefix begins the typed
/// path.
pub proof fn lemma_module_path_uses_dots(s: Seq<char>)
    ensures
        forall|i: int|
            0 <= i < spec_module_path(s).len() ==> #[trigger] spec_module_path(s)[i] != '/'
                && spec_module_path(s)[i] != '\\',
        spec_completion_prefix(s).is_prefix_of(s),
{
    lemma_last_sep_bound(s);
}

fn last_sep(s: &str) -> (r: Option<usize>)
    ensures
        s@.len() <= usize::MAX,
        match spec_last_sep(s@) {
            Some(k) => r == Some(k as usize) && 0 <= k < s@.len(),
            None => r is None,
        },
        r matches Some(k) ==> k < s@.len(),
{
    let n = s.unicode_len();
    let mut i: usize = n;
    proof {
        assert(s@.take(n as int) =~= s@);
        lemma_last_sep_bound(s@);
    }
    while i > 0
        invariant
            n == s@.len(),
            0 <= i <= n,
            spec_last_sep(s@) == spec_last_sep(s@.take(i as int)),
        decreases i,
    {
        let c = s.get_char(i - 1);
        proof {
            assert(s@.take(i as int).drop_last() =~= s@.take(i - 1));
            assert(s@.take(i as int).last() == s@[i - 1]);
        }
        if c == '.' || c == '/' || c == '\\' {
            return Some(i - 1);
        }
        i = i - 1;
    }
    None
}

/// The module path of a typed path: the parts before the last, joined by
/// `.`.
pub fn module_path_of(prefix_content: &str) -> (r: String)
    ensures
        r@ == spec_module_path(prefix_content@),
{
    let mut out = String::new();
    match last_sep(prefix_content) {
        None => out,
        Some(k) => {
            let mut i: usize = 0;
            while i < k
                invariant
                    0 <= i <= k,
                    k < prefix_content@.len(),
                    out@ == prefix_content@.take(i as int).map_values(
                        |c: char| if is_module_sep(c) { '.' } else { c },
                    ),
                decreases k - i,
            {
                let c = prefix_content.get_char(i);
                if c == '.' || c == '/' || c == '\\' {
                    out.append(".");
                    proof {
                        reveal_strlit(".");
                    }
                } else {
                    out.append(prefix_content.substring_char(i, i + 1));
                }
                proof {
                    assert(out@ =~= prefix_content@.take(i + 1).map_values(
                        |c: char| if is_module_sep(c) { '.' } else { c },
                    ));
                }
                i = i + 1;
            }
            out
        },
    }
}

/// The prefix the completed name is typed after.
pub fn completion_prefix_of(prefix_content: &str) -> (r: &str)
    ensures
        r@ == spec_completion_prefix(prefix_content@),
{
    match last_sep(prefix_content) {
        None => {
            proof {
                reveal_strlit("");
            }
            ""
        },
        Some(k) => prefix_content.substring_char(0, k + 1),
    }
}

/// A module found under the typed path.
#[derive(Debug)]
pub struct ChildModule {
    /// The module is visible to the configured Lua version.
    pub visible: bool,
    /// The uri of its file, `None` when it cannot be found.
    pub uri: Option<String>,
}

/// A child of the module node of the typed path.
#[derive(Debug)]
pub enum ChildNode {
    /// A directory, with no file of its own.
    Folder,
    /// A module file: its module, `None` when it cannot be found.
    File(Option<ChildModule>),
}

/// Whether a completion names a file or a directory.
#[derive(Debug, Clone, Copy, PartialEq, Eq, Structural)]
pub enum ModuleCompletionKind {
    File,
    Folder,
}

/// A completion of a module path.
#[derive(Debug)]
pub struct ModuleCompletion {
    pub label: String,
    pub kind: ModuleCompletionKind,
    pub filter_text: String,
    pub insert_text: String,
    pub detail: Option<String>,
}

/// The plain-value form of a completion.
pub open spec fn completion_view(c: ModuleCompletion) -> (Seq<char>, ModuleCompletionKind, Seq<char>, Seq<char>, Option<Seq<char>>) {
    (c.label@, c.kind, c.filter_text@, c.insert_text@, match c.detail {
        Some(d) => Some(d@),
        None => None,
    })
}

/// The completion a child gives, if any; `Err` when something it needs
/// cannot be found, which stops the whole completion.
pub open spec fn spec_child_completion(prefix: Seq<char>, name: Seq<char>, node: Option<ChildNode>) -> Result<
    Option<(Seq<char>, ModuleCompletionKind, Seq<char>, Seq<char>, Option<Seq<char>>)>,
    (),
> {
    match node {
        None => Err(()),
        Some(ChildNode::Folder) => Ok(Some((name, ModuleCompletionKind::Folder, name, name, None))),
        Some(ChildNode::File(m)) => match m {
            None => Err(()),
            Some(cm) => if !cm.visible {
                Ok(None)
            } else {
                match cm.uri {
                    None => Err(()),
                    Some(u) => Ok(
                        Some(
                            (
                                name,
                                ModuleCompletionKind::File,
                                prefix + name,
                                prefix + name,
                                Some(u@),
                            ),
                        ),
                    ),
                }
            },
        },
    }
}

/// The completions of the children, in order; `None` when one of them
/// needs something that cannot be found.
pub open spec fn spec_module_completions(
    prefix: Seq<char>,
    children: Seq<(String, Option<ChildNode>)>,
) -> Option<Seq<(Seq<char>, ModuleCompletionKind, Seq<char>, Seq<char>, Option<Seq<char>>)>>
    decreases children.len(),
{
    if children.len() == 0 {
        Some(seq![])
    } else {
        match (
            spec_module_completions(prefix, children.drop_last()),
            spec_child_completion(prefix, children.last().0@, children.last().1),
        ) {
            (Some(rest), Ok(Some(c))) => Some(rest.push(c)),
            (Some(rest), Ok(None)) => Some(rest),
            _ => None,
        }
    }
}

/// Once a prefix of the children fails, the whole completion fails.
proof fn lemma_module_completions_fail(
    prefix: Seq<char>,
    children: Seq<(String, Option<ChildNode>)>,
    n: int,
)
    requires
        0 <= n <= children.len(),
        spec_module_completions(prefix, children.take(n)) is None,
    ensures
        spec_module_completions(prefix, children) is None,
    decreases children.len() - n,
{
    if n < children.len() {
        assert(children.take(n + 1).drop_last() =~= children.take(n));
        lemma_module_completions_fail(prefix, children, n + 1);
    } else {
        assert(children.take(n) =~= children);
    }
}

/// The completions of the children of the module node of the typed path,
/// given as names with their nodes (`None` where a node cannot be found):
/// a directory completes its name; a module visible to the configured
/// version completes `prefix` and its name, with its uri as detail.
pub fn module_completions(prefix: &str, children: &Vec<(String, Option<ChildNode>)>) -> (r: Option<
    Vec<ModuleCompletion>,
>)
    ensures
        match spec_module_completions(prefix@, children@) {
            Some(v) => r matches Some(items) && items@.map_values(
                |c: ModuleCompletion| completion_view(c),
            ) == v,
            None => r is None,
        },
{
    let mut items: Vec<ModuleCompletion> = Vec::new();
    let mut i: usize = 0;
    while i < children.len()
        invariant
            0 <= i <= children@.len(),
            spec_module_completions(prefix@, children@.take(i as int)) == Some(
                items@.map_values(|c: ModuleCompletion| completion_view(c)),
            ),
        decreases children@.len() - i,
    {
        proof {
            assert(children@.take(i + 1).drop_last() =~= children@.take(i as int));
            assert(children@.take(i + 1).last() == children@[i as int]);
        }
        let name = &children[i].0;
        let ghost before = items@;
        match &children[i].1 {
            None => {
                proof {
                    lemma_module_completions_fail(prefix@, children@, i + 1);
                }
                return None;
            },
            Some(ChildNode::Folder) => {
                items.push(
                    ModuleCompletion {
                        label: name.clone(),
                        kind: ModuleCompletionKind::Folder,
                        filter_text: name.clone(),
                        insert_text: name.clone(),
                        detail: None,
                    },
                );
            },
            Some(ChildNode::File(m)) => match m {
                None => {
                    proof {
                        lemma_module_completions_fail(prefix@, children@, i + 1);
                    }
                    return None;
                },
                Some(cm) => {
                    if cm.visible {
                        match &cm.uri {
                            None => {
                                proof {
                                    lemma_module_completions_fail(prefix@, children@, i + 1);
                                }
                                return None;
                            },
                            Some(u) => {
                                let mut filter = String::from_str(prefix);
                                filter.append(name.as_str());
                                let insert = filter.clone();
                                items.push(
                                    ModuleCompletion {
                                        label: name.clone(),
                                        kind: ModuleCompletionKind::File,
                                        filter_text: filter,
                                        insert_text: insert,
                                        detail: Some(u.clone()),
                                    },
                                );
                            },
                        }
                    }
                },
            },
        }
        proof {
            assert(items@.map_values(|c: ModuleCompletion| completion_view(c)) =~= match spec_child_completion(
                prefix@,
                children@[i as int].0@,
                children@[i as int].1,
            ) {
                Ok(Some(c)) => before.map_values(|c: ModuleCompletion| completion_view(c)).push(c),
                _ => before.map_values(|c: ModuleCompletion| completion_view(c)),
            });
        }
        i = i + 1;
    }
    proof {
        assert(children@.take(i as int) =~= children@);
    }
    Some(items)
}

} // verus!
