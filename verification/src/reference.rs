//! Where declarations and global names are referenced: per file, the ranges
//! that use each local declaration, and per name or key, the file and
//! syntax node that references it.
use vstd::prelude::*;

use crate::assoc::{
    assoc_lookup, assoc_remove, keys_unique, lemma_lookup_found, lemma_lookup_none,
    lemma_lookup_push, lemma_lookup_remove, lemma_lookup_some, lemma_lookup_update,
};
use crate::base::{FileId, InFiled, LuaSyntaxId, LuaSyntaxKind, TextRange};
use crate::decl::LuaDeclId;

verus! {

/// The plain-value form of a reference key, used in contracts.
pub enum RefKeyView {
    NoneKey,
    Name(Seq<char>),
    Integer(i64),
}

/// What a global reference is recorded under: a name, an integer key, or
/// nothing that can be named.
#[derive(Debug, Hash)]
pub enum LuaReferenceKey {
    NoneKey,
    Name(String),
    Integer(i64),
}

impl View for LuaReferenceKey {
    type V = RefKeyView;

    open spec fn view(&self) -> RefKeyView {
        match self {
            LuaReferenceKey::NoneKey => RefKeyView::NoneKey,
            LuaReferenceKey::Name(s) => RefKeyView::Name(s@),
            LuaReferenceKey::Integer(i) => RefKeyView::Integer(*i),
        }
    }
}

impl LuaReferenceKey {
    /// Whether the two keys are the same key.
    pub fn key_eq(&self, other: &LuaReferenceKey) -> (r: bool)
        ensures
            r == (self@ == other@),
    {
        match (self, other) {
            (LuaReferenceKey::NoneKey, LuaReferenceKey::NoneKey) => true,
            (LuaReferenceKey::Name(a), LuaReferenceKey::Name(b)) => *a == *b,
            (LuaReferenceKey::Integer(a), LuaReferenceKey::Integer(b)) => *a == *b,
            _ => false,
        }
    }
}

impl Clone for LuaReferenceKey {
    fn clone(&self) -> (r: Self)
        ensures
            r == *self,
    {
        match self {
            LuaReferenceKey::NoneKey => LuaReferenceKey::NoneKey,
            LuaReferenceKey::Name(s) => LuaReferenceKey::Name(s.clone()),
            LuaReferenceKey::Integer(i) => LuaReferenceKey::Integer(*i),
        }
    }
}

impl PartialEq for LuaReferenceKey {
    fn eq(&self, other: &Self) -> (r: bool) {
        self.key_eq(other)
    }
}

impl vstd::std_specs::cmp::PartialEqSpecImpl for LuaReferenceKey {
    open spec fn obeys_eq_spec() -> bool {
        true
    }

    open spec fn eq_spec(&self, other: &Self) -> bool {
        self@ == other@
    }
}

impl From<String> for LuaReferenceKey {
    fn from(name: String) -> (r: LuaReferenceKey) {
        LuaReferenceKey::Name(name)
    }
}

impl vstd::std_specs::convert::FromSpecImpl<String> for LuaReferenceKey {
    open spec fn obeys_from_spec() -> bool {
        true
    }

    open spec fn from_spec(name: String) -> LuaReferenceKey {
        LuaReferenceKey::Name(name)
    }
}

impl From<i64> for LuaReferenceKey {
    fn from(integer: i64) -> (r: LuaReferenceKey) {
        LuaReferenceKey::Integer(integer)
    }
}

impl vstd::std_specs::convert::FromSpecImpl<i64> for LuaReferenceKey {
    open spec fn obeys_from_spec() -> bool {
        true
    }

    open spec fn from_spec(integer: i64) -> LuaReferenceKey {
        LuaReferenceKey::Integer(integer)
    }
}

/// The references to the local declarations of one file.
///
/// An association list from declaration to ranges, at most one entry per
/// declaration: a declaration id is a struct whose `Hash` and `Eq` come from
/// `derive`, of which the verifier proves nothing, so a hash map keyed by it
/// would let no lookup be stated; the list also keeps the declarations in
/// the order they were first referenced.
#[derive(Debug)]
pub struct LocalReference {
    refs: Vec<(LuaDeclId, Vec<TextRange>)>,
}

/// The ranges of the references to `d`, in the order they were added.
pub open spec fn local_entries(refs: Seq<(LuaDeclId, Vec<TextRange>)>) -> Seq<
    (LuaDeclId, Seq<TextRange>),
> {
    refs.map_values(|e: (LuaDeclId, Vec<TextRange>)| (e.0, e.1@))
}

impl LocalReference {
    /// Each declaration with references, with their ranges.
    pub closed spec fn spec_entries(self) -> Seq<(LuaDeclId, Seq<TextRange>)> {
        local_entries(self.refs@)
    }

    /// No declaration is listed twice.
    pub closed spec fn wf(self) -> bool {
        keys_unique(self.spec_entries())
    }

    /// The ranges that reference the declaration `d`, `None` when it has
    /// none recorded.
    pub open spec fn spec_refs(self, d: LuaDeclId) -> Option<Seq<TextRange>> {
        assoc_lookup(self.spec_entries(), d)
    }

    pub fn new() -> (r: LocalReference)
        ensures
            r.wf(),
            forall|d: LuaDeclId| r.spec_refs(d) is None,
    {
        LocalReference { refs: Vec::new() }
    }

    fn find(&self, decl_id: LuaDeclId) -> (r: Option<usize>)
        requires
            self.wf(),
        ensures
            match r {
                Some(i) => i < self.refs@.len() && self.refs@[i as int].0 == decl_id
                    && self.spec_refs(decl_id) == Some(self.refs@[i as int].1@),
                None => self.spec_refs(decl_id) is None,
            },
    {
        let mut i: usize = 0;
        while i < self.refs.len()
            invariant
                0 <= i <= self.refs@.len(),
                self.wf(),
                forall|j: int| 0 <= j < i ==> self.refs@[j].0 != decl_id,
            decreases self.refs@.len() - i,
        {
            if self.refs[i].0 == decl_id {
                proof {
                    assert(self.spec_entries()[i as int] == (decl_id, self.refs@[i as int].1@));
                    lemma_lookup_found(self.spec_entries(), i as int);
                }
                return Some(i);
            }
            i = i + 1;
        }
        proof {
            assert forall|j: int| 0 <= j < self.spec_entries().len() implies self.spec_entries()[
                j
            ].0 != decl_id by {
                assert(self.spec_entries()[j].0 == self.refs@[j].0);
            }
            lemma_lookup_none(self.spec_entries(), decl_id);
        }
        None
    }

    /// Records that `range` references the declaration `decl_id`.
    #[verifier::rlimit(40)]
    pub fn add_local_reference(&mut self, decl_id: LuaDeclId, range: TextRange)
        requires
            old(self).wf(),
        ensures
            final(self).wf(),
            final(self).spec_refs(decl_id) == Some(
                match old(self).spec_refs(decl_id) {
                    Some(v) => v,
                    None => seq![],
                }.push(range),
            ),
            forall|d: LuaDeclId| d != decl_id ==> final(self).spec_refs(d) == old(self).spec_refs(d),
    {
        let ghost old_entries = self.spec_entries();
        match self.find(decl_id) {
            Some(i) => {
                let mut entry = self.refs.remove(i);
                entry.1.push(range);
                self.refs.insert(i, entry);
                proof {
                    assert(self.spec_entries() =~= old_entries.update(
                        i as int,
                        (decl_id, old_entries[i as int].1.push(range)),
                    ));
                    assert forall|d: LuaDeclId| #[trigger] self.spec_refs(d) == if d == decl_id {
                        Some(old_entries[i as int].1.push(range))
                    } else {
                        assoc_lookup(old_entries, d)
                    } by {
                        lemma_lookup_update(
                            old_entries,
                            i as int,
                            old_entries[i as int].1.push(range),
                            d,
                        );
                    }
                    lemma_lookup_update(
                        old_entries,
                        i as int,
                        old_entries[i as int].1.push(range),
                        decl_id,
                    );
                }
            },
            None => {
                let mut v: Vec<TextRange> = Vec::new();
                v.push(range);
                self.refs.push((decl_id, v));
                proof {
                    assert(self.spec_entries() =~= old_entries.push((decl_id, seq![range])));
                    lemma_lookup_none(old_entries, decl_id);
                    assert forall|d: LuaDeclId| #[trigger] self.spec_refs(d) == if d == decl_id {
                        Some(seq![range])
                    } else {
                        assoc_lookup(old_entries, d)
                    } by {
                        lemma_lookup_push(old_entries, decl_id, seq![range], d);
                    }
                    assert(seq![range] =~= Seq::<TextRange>::empty().push(range));
                }
            },
        }
    }

    /// The ranges that reference `decl_id`, `None` when there are none.
    pub fn get_local_references(&self, decl_id: &LuaDeclId) -> (r: Option<&Vec<TextRange>>)
        requires
            self.wf(),
        ensures
            match self.spec_refs(*decl_id) {
                Some(v) => r matches Some(x) && x@ == v,
                None => r is None,
            },
    {
        match self.find(*decl_id) {
            Some(i) => Some(&self.refs[i].1),
            None => None,
        }
    }

    /// Every declaration with references, with their ranges.
    pub fn get_local_references_map(&self) -> (r: &Vec<(LuaDeclId, Vec<TextRange>)>)
        ensures
            local_entries(r@) == self.spec_entries(),
    {
        &self.refs
    }
}

/// The plain-value form of the index of global references.
pub open spec fn index_entries(index: Seq<(LuaReferenceKey, Vec<(FileId, LuaSyntaxId)>)>) -> Seq<
    (RefKeyView, Seq<(FileId, LuaSyntaxId)>),
> {
    index.map_values(|e: (LuaReferenceKey, Vec<(FileId, LuaSyntaxId)>)| (e.0@, e.1@))
}

/// The index after the references of file `f` are taken out: each key
/// keeps the references of the other files, and a key left with none goes.
pub open spec fn prune_file(s: Seq<(RefKeyView, Seq<(FileId, LuaSyntaxId)>)>, f: FileId) -> Seq<
    (RefKeyView, Seq<(FileId, LuaSyntaxId)>),
>
    decreases s.len(),
{
    if s.len() == 0 {
        seq![]
    } else {
        let rest = prune_file(s.drop_last(), f);
        let kept = assoc_remove(s.last().1, f);
        if kept.len() > 0 {
            rest.push((s.last().0, kept))
        } else {
            rest
        }
    }
}

/// The ranges of the references of file `f` among `refs`, in order.
pub open spec fn ranges_of_file(refs: Seq<(FileId, LuaSyntaxId)>, f: FileId) -> Seq<TextRange>
    decreases refs.len(),
{
    if refs.len() == 0 {
        seq![]
    } else if refs.last().0 == f {
        ranges_of_file(refs.drop_last(), f).push(refs.last().1.range)
    } else {
        ranges_of_file(refs.drop_last(), f)
    }
}

/// Where declarations and global names are referenced.
///
/// Both tables are association lists with at most one entry per key (the
/// invariant `wf`), not hash maps. The keys of the outer global table are
/// names, whose `Hash` and `Eq` come from `derive` and are not read by the
/// verifier, so a hash map keyed by them would let no lookup be proved. The
/// tables keyed by file could be hash maps keyed by the file's number, but
/// then the files' entries would come out in the order of the hasher: with
/// lists, each operation states exactly which entry it finds, replaces or
/// drops, and the references of a key come out in the order they were added.
#[derive(Debug)]
pub struct LuaReferenceIndex {
    local_references: Vec<(FileId, LocalReference)>,
    index_reference: Vec<(LuaReferenceKey, Vec<(FileId, LuaSyntaxId)>)>,
}

impl LuaReferenceIndex {
    /// The local references of each file.
    pub closed spec fn spec_locals(self) -> Seq<(FileId, LocalReference)> {
        self.local_references@
    }

    /// The global references of each key, by file.
    pub closed spec fn spec_index(self) -> Seq<(RefKeyView, Seq<(FileId, LuaSyntaxId)>)> {
        index_entries(self.index_reference@)
    }

    /// No file or key is listed twice, and every listed key has a reference.
    pub closed spec fn wf(self) -> bool {
        &&& keys_unique(self.spec_locals())
        &&& forall|i: int| 0 <= i < self.spec_locals().len() ==> #[trigger] self.spec_locals()[i].1.wf()
        &&& keys_unique(self.spec_index())
        &&& forall|i: int|
            0 <= i < self.spec_index().len() ==> keys_unique(#[trigger] self.spec_index()[i].1)
                && self.spec_index()[i].1.len() > 0
    }

    /// The local references of file `f`, if it has any recorded.
    pub open spec fn spec_local_file(self, f: FileId) -> Option<LocalReference> {
        assoc_lookup(self.spec_locals(), f)
    }

    /// The ranges in file `f` that reference the declaration `d`.
    pub open spec fn spec_local_refs(self, f: FileId, d: LuaDeclId) -> Option<Seq<TextRange>> {
        match self.spec_local_file(f) {
            Some(lr) => lr.spec_refs(d),
            None => None,
        }
    }

    /// The references under key `k`, one per file, in the order their
    /// files were first recorded.
    pub open spec fn spec_key_refs(self, k: RefKeyView) -> Option<Seq<(FileId, LuaSyntaxId)>> {
        assoc_lookup(self.spec_index(), k)
    }

    /// The node of file `f` that references key `k`.
    pub open spec fn spec_index_ref(self, k: RefKeyView, f: FileId) -> Option<LuaSyntaxId> {
        match self.spec_key_refs(k) {
            Some(refs) => assoc_lookup(refs, f),
            None => None,
        }
    }

    pub fn new() -> (r: LuaReferenceIndex)
        ensures
            r.wf(),
            forall|f: FileId| r.spec_local_file(f) is None,
            forall|k: RefKeyView| r.spec_key_refs(k) is None,
    {
        let r = LuaReferenceIndex { local_references: Vec::new(), index_reference: Vec::new() };
        proof {
            assert(r.spec_index() =~= Seq::empty());
        }
        r
    }

    fn find_file(&self, file_id: FileId) -> (r: Option<usize>)
        requires
            self.wf(),
        ensures
            match r {
                Some(i) => i < self.spec_locals().len() && self.spec_locals()[i as int].0 == file_id
                    && self.spec_local_file(file_id) == Some(self.spec_locals()[i as int].1),
                None => self.spec_local_file(file_id) is None,
            },
    {
        let mut i: usize = 0;
        while i < self.local_references.len()
            invariant
                0 <= i <= self.spec_locals().len(),
                self.wf(),
                self.spec_locals() == self.local_references@,
                forall|j: int| 0 <= j < i ==> self.spec_locals()[j].0 != file_id,
            decreases self.spec_locals().len() - i,
        {
            if self.local_references[i].0 == file_id {
                proof {
                    lemma_lookup_found(self.spec_locals(), i as int);
                }
                return Some(i);
            }
            i = i + 1;
        }
        proof {
            lemma_lookup_none(self.spec_locals(), file_id);
        }
        None
    }

    fn find_key(&self, key: &LuaReferenceKey) -> (r: Option<usize>)
        requires
            self.wf(),
        ensures
            match r {
                Some(i) => i < self.spec_index().len() && self.spec_index()[i as int].0 == key@
                    && self.spec_key_refs(key@) == Some(self.spec_index()[i as int].1),
                None => self.spec_key_refs(key@) is None,
            },
    {
        let mut i: usize = 0;
        while i < self.index_reference.len()
            invariant
                0 <= i <= self.index_reference@.len(),
                self.wf(),
                self.spec_index() == index_entries(self.index_reference@),
                forall|j: int| 0 <= j < i ==> self.spec_index()[j].0 != key@,
            decreases self.index_reference@.len() - i,
        {
            if self.index_reference[i].0.key_eq(key) {
                proof {
                    lemma_lookup_found(self.spec_index(), i as int);
                }
                return Some(i);
            }
            i = i + 1;
        }
        proof {
            lemma_lookup_none(self.spec_index(), key@);
        }
        None
    }

    /// Records that `range` in file `file_id` references the local
    /// declaration `decl_id`.
    pub fn add_local_reference(&mut self, decl_id: LuaDeclId, file_id: FileId, range: TextRange)
        requires
            old(self).wf(),
        ensures
            final(self).wf(),
            final(self).spec_local_refs(file_id, decl_id) == Some(
                match old(self).spec_local_refs(file_id, decl_id) {
                    Some(v) => v,
                    None => seq![],
                }.push(range),
            ),
            forall|f: FileId, d: LuaDeclId|
                f != file_id || d != decl_id ==> #[trigger] final(self).spec_local_refs(f, d)
                    == old(self).spec_local_refs(f, d),
            forall|k: RefKeyView| #[trigger] final(self).spec_key_refs(k) == old(self).spec_key_refs(k),
    {
        let ghost old_locals = self.spec_locals();
        match self.find_file(file_id) {
            Some(i) => {
                let mut entry = self.local_references.remove(i);
                entry.1.add_local_reference(decl_id, range);
                let ghost new_lr = entry.1;
                self.local_references.insert(i, entry);
                proof {
                    assert(self.spec_locals() =~= old_locals.update(i as int, (file_id, new_lr)));
                    assert forall|f: FileId| #[trigger] self.spec_local_file(f) == if f == file_id {
                        Some(new_lr)
                    } else {
                        assoc_lookup(old_locals, f)
                    } by {
                        lemma_lookup_update(old_locals, i as int, new_lr, f);
                    }
                    lemma_lookup_update(old_locals, i as int, new_lr, file_id);
                    assert forall|j: int| 0 <= j < self.spec_locals().len() implies #[trigger] self.spec_locals()[
                        j
                    ].1.wf() by {
                        if j != i {
                            assert(self.spec_locals()[j] == old_locals[j]);
                        }
                    }
                }
            },
            None => {
                let mut lr = LocalReference::new();
                lr.add_local_reference(decl_id, range);
                let ghost new_lr = lr;
                self.local_references.push((file_id, lr));
                proof {
                    assert(self.spec_locals() =~= old_locals.push((file_id, new_lr)));
                    lemma_lookup_none(old_locals, file_id);
                    assert forall|f: FileId| #[trigger] self.spec_local_file(f) == if f == file_id {
                        Some(new_lr)
                    } else {
                        assoc_lookup(old_locals, f)
                    } by {
                        lemma_lookup_push(old_locals, file_id, new_lr, f);
                    }
                    assert forall|j: int| 0 <= j < self.spec_locals().len() implies #[trigger] self.spec_locals()[
                        j
                    ].1.wf() by {
                        if j < old_locals.len() {
                            assert(self.spec_locals()[j] == old_locals[j]);
                        }
                    }
                }
            },
        }
    }

    /// Records that `name` is referenced in file `file_id` by the name
    /// expression at `range`; a reference of that file to that name
    /// recorded before is replaced.
    pub fn add_global_reference(&mut self, name: String, file_id: FileId, range: TextRange)
        requires
            old(self).wf(),
        ensures
            final(self).wf(),
            final(self).spec_index_ref(RefKeyView::Name(name@), file_id) == Some(
                LuaSyntaxId { kind: LuaSyntaxKind::NameExpr, range },
            ),
            forall|k: RefKeyView, f: FileId|
                k != RefKeyView::Name(name@) || f != file_id ==> #[trigger] final(self).spec_index_ref(
                    k,
                    f,
                ) == old(self).spec_index_ref(k, f),
            forall|k: RefKeyView|
                k != RefKeyView::Name(name@) ==> #[trigger] final(self).spec_key_refs(k) == old(
                    self,
                ).spec_key_refs(k),
            forall|f: FileId| #[trigger] final(self).spec_local_file(f) == old(self).spec_local_file(f),
    {
        let key = LuaReferenceKey::Name(name);
        self.add_index_reference(key, file_id, LuaSyntaxId::new(LuaSyntaxKind::NameExpr, range));
    }

    /// Records that key `key` is referenced in file `file_id` by the node
    /// `syntax_id`; a reference of that file to that key recorded before is
    /// replaced.
    #[verifier::rlimit(40)]
    pub fn add_index_reference(&mut self, key: LuaReferenceKey, file_id: FileId, syntax_id: LuaSyntaxId)
        requires
            old(self).wf(),
        ensures
            final(self).wf(),
            final(self).spec_index_ref(key@, file_id) == Some(syntax_id),
            forall|k: RefKeyView, f: FileId|
                k != key@ || f != file_id ==> #[trigger] final(self).spec_index_ref(k, f) == old(
                    self,
                ).spec_index_ref(k, f),
            forall|k: RefKeyView|
                k != key@ ==> #[trigger] final(self).spec_key_refs(k) == old(self).spec_key_refs(k),
            forall|f: FileId| #[trigger] final(self).spec_local_file(f) == old(self).spec_local_file(f),
    {
        let ghost old_index = self.spec_index();
        let ghost kv = key@;
        match self.find_key(&key) {
            Some(i) => {
                let (k, mut refs) = self.index_reference.remove(i);
                let ghost old_refs = refs@;
                assert(old_refs == old_index[i as int].1);
                let found_at = find_file_ref(&refs, file_id);
                if let Some(j) = found_at {
                    refs.set(j, (file_id, syntax_id));
                    proof {
                        assert(refs@ == old_refs.update(j as int, (old_refs[j as int].0, syntax_id)));
                        assert forall|f: FileId| #[trigger] assoc_lookup(refs@, f) == if f == file_id {
                            Some(syntax_id)
                        } else {
                            assoc_lookup(old_refs, f)
                        } by {
                            lemma_lookup_update(old_refs, j as int, syntax_id, f);
                        }
                        lemma_lookup_update(old_refs, j as int, syntax_id, file_id);
                    }
                } else {
                    refs.push((file_id, syntax_id));
                    proof {
                        lemma_lookup_none(old_refs, file_id);
                        assert forall|f: FileId| #[trigger] assoc_lookup(refs@, f) == if f == file_id {
                            Some(syntax_id)
                        } else {
                            assoc_lookup(old_refs, f)
                        } by {
                            lemma_lookup_push(old_refs, file_id, syntax_id, f);
                        }
                        assert(keys_unique(refs@)) by {
                            assert forall|a: int, b: int|
                                0 <= a < b < refs@.len() implies refs@[a].0 != refs@[b].0 by {
                                if b < old_refs.len() {
                                    assert(refs@[a] == old_refs[a]);
                                    assert(refs@[b] == old_refs[b]);
                                } else {
                                    assert(refs@[a] == old_refs[a]);
                                }
                            }
                        }
                    }
                }
                let ghost new_refs = refs@;
                self.index_reference.insert(i, (k, refs));
                proof {
                    assert(self.spec_index() =~= old_index.update(i as int, (kv, new_refs)));
                    assert forall|q: RefKeyView| #[trigger] self.spec_key_refs(q) == if q == kv {
                        Some(new_refs)
                    } else {
                        assoc_lookup(old_index, q)
                    } by {
                        lemma_lookup_update(old_index, i as int, new_refs, q);
                    }
                    lemma_lookup_update(old_index, i as int, new_refs, kv);
                    assert forall|m: int| 0 <= m < self.spec_index().len() implies keys_unique(
                        #[trigger] self.spec_index()[m].1,
                    ) && self.spec_index()[m].1.len() > 0 by {
                        if m != i {
                            assert(self.spec_index()[m] == old_index[m]);
                        }
                    }
                }
            },
            None => {
                let mut refs: Vec<(FileId, LuaSyntaxId)> = Vec::new();
                refs.push((file_id, syntax_id));
                let ghost new_refs = refs@;
                self.index_reference.push((key, refs));
                proof {
                    assert(self.spec_index() =~= old_index.push((kv, new_refs)));
                    lemma_lookup_none(old_index, kv);
                    assert forall|q: RefKeyView| #[trigger] self.spec_key_refs(q) == if q == kv {
                        Some(new_refs)
                    } else {
                        assoc_lookup(old_index, q)
                    } by {
                        lemma_lookup_push(old_index, kv, new_refs, q);
                    }
                    lemma_lookup_push(old_index, kv, new_refs, kv);
                    assert(new_refs =~= Seq::<(FileId, LuaSyntaxId)>::empty().push(
                        (file_id, syntax_id),
                    ));
                    assert forall|f: FileId| #[trigger] assoc_lookup(new_refs, f) == if f
                        == file_id {
                        Some(syntax_id)
                    } else {
                        None
                    } by {
                        lemma_lookup_push(Seq::empty(), file_id, syntax_id, f);
                    }
                    assert forall|m: int| 0 <= m < self.spec_index().len() implies keys_unique(
                        #[trigger] self.spec_index()[m].1,
                    ) && self.spec_index()[m].1.len() > 0 by {
                        if m < old_index.len() {
                            assert(self.spec_index()[m] == old_index[m]);
                        }
                    }
                }
            },
        }
    }

    /// The local references of file `file_id`.
    pub fn get_local_reference(&self, file_id: &FileId) -> (r: Option<&LocalReference>)
        requires
            self.wf(),
        ensures
            match self.spec_local_file(*file_id) {
                Some(lr) => r == Some(&lr),
                None => r is None,
            },
            r matches Some(lr) ==> lr.wf(),
    {
        match self.find_file(*file_id) {
            Some(i) => Some(&self.local_references[i].1),
            None => None,
        }
    }

    /// The ranges in file `file_id` that reference the declaration
    /// `decl_id`.
    pub fn get_local_references(&self, file_id: &FileId, decl_id: &LuaDeclId) -> (r: Option<
        &Vec<TextRange>,
    >)
        requires
            self.wf(),
        ensures
            match self.spec_local_refs(*file_id, *decl_id) {
                Some(v) => r matches Some(x) && x@ == v,
                None => r is None,
            },
    {
        match self.get_local_reference(file_id) {
            Some(lr) => lr.get_local_references(decl_id),
            None => None,
        }
    }

    /// Every declaration of file `file_id` with references, with their
    /// ranges.
    pub fn get_local_references_map(&self, file_id: &FileId) -> (r: Option<
        &Vec<(LuaDeclId, Vec<TextRange>)>,
    >)
        requires
            self.wf(),
        ensures
            match self.spec_local_file(*file_id) {
                Some(lr) => r matches Some(m) && local_entries(m@) == lr.spec_entries(),
                None => r is None,
            },
    {
        match self.get_local_reference(file_id) {
            Some(lr) => Some(lr.get_local_references_map()),
            None => None,
        }
    }

    /// The ranges in file `file_id` that reference the global `name`:
    /// `None` when no file references it.
    pub fn get_global_file_references(&self, name: &str, file_id: FileId) -> (r: Option<
        Vec<TextRange>,
    >)
        requires
            self.wf(),
        ensures
            match self.spec_key_refs(RefKeyView::Name(name@)) {
                None => r is None,
                Some(refs) => r matches Some(v) && v@ == match self.spec_index_ref(
                    RefKeyView::Name(name@),
                    file_id,
                ) {
                    Some(s) => seq![s.range],
                    None => seq![],
                },
            },
    {
        let key = LuaReferenceKey::Name(String::from_str(name));
        match self.find_key(&key) {
            None => None,
            Some(i) => {
                let refs = &self.index_reference[i].1;
                let ghost rv = refs@;
                assert(rv == self.spec_index()[i as int].1);
                let mut out: Vec<TextRange> = Vec::new();
                let mut j: usize = 0;
                while j < refs.len()
                    invariant
                        0 <= j <= rv.len(),
                        refs@ == rv,
                        out@ == ranges_of_file(rv.take(j as int), file_id),
                    decreases rv.len() - j,
                {
                    proof {
                        assert(rv.take(j + 1).drop_last() =~= rv.take(j as int));
                    }
                    if refs[j].0 == file_id {
                        out.push(refs[j].1.range);
                    }
                    j = j + 1;
                }
                proof {
                    assert(rv.take(j as int) =~= rv);
                    lemma_ranges_of_unique_file(rv, file_id);
                }
                Some(out)
            },
        }
    }

    /// Every reference to `key`, with its file: `None` when no file
    /// references it.
    pub fn get_global_references(&self, key: &LuaReferenceKey) -> (r: Option<
        Vec<InFiled<TextRange>>,
    >)
        requires
            self.wf(),
        ensures
            match self.spec_key_refs(key@) {
                None => r is None,
                Some(refs) => r matches Some(v) && v@ == refs.map_values(
                    |e: (FileId, LuaSyntaxId)| InFiled { file_id: e.0, value: e.1.range },
                ),
            },
    {
        match self.find_key(key) {
            None => None,
            Some(i) => {
                let refs = &self.index_reference[i].1;
                let ghost rv = refs@;
                let mut out: Vec<InFiled<TextRange>> = Vec::new();
                let mut j: usize = 0;
                while j < refs.len()
                    invariant
                        0 <= j <= rv.len(),
                        refs@ == rv,
                        out@ == rv.take(j as int).map_values(
                            |e: (FileId, LuaSyntaxId)| InFiled { file_id: e.0, value: e.1.range },
                        ),
                    decreases rv.len() - j,
                {
                    out.push(InFiled::new(refs[j].0, refs[j].1.range));
                    j = j + 1;
                    proof {
                        assert(out@ =~= rv.take(j as int).map_values(
                            |e: (FileId, LuaSyntaxId)| InFiled { file_id: e.0, value: e.1.range },
                        ));
                    }
                }
                proof {
                    assert(rv.take(j as int) =~= rv);
                }
                Some(out)
            },
        }
    }

    /// Forgets every reference found in file `file_id`: its local
    /// references, and its references to every key; a key that no other
    /// file references goes too.
    #[verifier::rlimit(40)]
    pub fn remove(&mut self, file_id: FileId)
        requires
            old(self).wf(),
        ensures
            final(self).wf(),
            final(self).spec_local_file(file_id) is None,
            forall|f: FileId|
                f != file_id ==> #[trigger] final(self).spec_local_file(f) == old(self).spec_local_file(f),
            final(self).spec_index() == prune_file(old(self).spec_index(), file_id),
            forall|k: RefKeyView, f: FileId| #[trigger]
                final(self).spec_index_ref(k, f) == if f == file_id {
                    None
                } else {
                    old(self).spec_index_ref(k, f)
                },
    {
        let ghost old_locals = self.spec_locals();
        let ghost old_index = self.spec_index();
        match self.find_file(file_id) {
            Some(i) => {
                self.local_references.remove(i);
                proof {
                    assert(self.spec_locals() =~= old_locals.remove(i as int));
                    lemma_assoc_remove_at(old_locals, i as int);
                    assert forall|f: FileId| #[trigger] self.spec_local_file(f) == if f == file_id {
                        None
                    } else {
                        assoc_lookup(old_locals, f)
                    } by {
                        lemma_lookup_remove(old_locals, file_id, f);
                    }
                    lemma_lookup_remove(old_locals, file_id, file_id);
                    assert forall|f: FileId| #[trigger] assoc_lookup(self.spec_locals(), f) == if f
                        == file_id {
                        None
                    } else {
                        assoc_lookup(old_locals, f)
                    } by {
                        lemma_lookup_remove(old_locals, file_id, f);
                    }
                    assert forall|j: int| 0 <= j < self.spec_locals().len() implies #[trigger] self.spec_locals()[
                        j
                    ].1.wf() by {
                        if j < i {
                            assert(self.spec_locals()[j] == old_locals[j]);
                        } else {
                            assert(self.spec_locals()[j] == old_locals[j + 1]);
                        }
                    }
                }
            },
            None => {
                proof {
                    assert forall|f: FileId| #[trigger] assoc_lookup(self.spec_locals(), f) == if f
                        == file_id {
                        None
                    } else {
                        assoc_lookup(old_locals, f)
                    } by {}
                }
            },
        }
        let ghost locals_mid = self.spec_locals();
        let mut new_index: Vec<(LuaReferenceKey, Vec<(FileId, LuaSyntaxId)>)> = Vec::new();
        let mut i: usize = 0;
        let ghost self_before = *self;
        while i < self.index_reference.len()
            invariant
                0 <= i <= self.index_reference@.len(),
                *self == self_before,
                index_entries(self.index_reference@) == old_index,
                keys_unique(old_index),
                forall|m: int|
                    0 <= m < old_index.len() ==> keys_unique(#[trigger] old_index[m].1),
                index_entries(new_index@) == prune_file(old_index.take(i as int), file_id),
            decreases self.index_reference@.len() - i,
        {
            proof {
                assert(old_index.take(i + 1).drop_last() =~= old_index.take(i as int));
                assert(old_index.take(i + 1).last() == old_index[i as int]);
            }
            let refs = &self.index_reference[i].1;
            let ghost rv = refs@;
            assert(rv == old_index[i as int].1);
            let mut kept: Vec<(FileId, LuaSyntaxId)> = Vec::new();
            let mut j: usize = 0;
            while j < refs.len()
                invariant
                    0 <= j <= rv.len(),
                    refs@ == rv,
                    kept@ == assoc_remove(rv.take(j as int), file_id),
                decreases rv.len() - j,
            {
                proof {
                    assert(rv.take(j + 1).drop_last() =~= rv.take(j as int));
                }
                if refs[j].0 != file_id {
                    kept.push(refs[j]);
                }
                j = j + 1;
            }
            proof {
                assert(rv.take(j as int) =~= rv);
            }
            if kept.len() > 0 {
                let ghost before = new_index@;
                let k = self.index_reference[i].0.clone();
                new_index.push((k, kept));
                proof {
                    assert(index_entries(new_index@) =~= index_entries(before).push(
                        (old_index[i as int].0, assoc_remove(rv, file_id)),
                    ));
                }
            }
            i = i + 1;
        }
        proof {
            assert(old_index.take(i as int) =~= old_index);
        }
        self.index_reference = new_index;
        proof {
            assert(self.spec_locals() == locals_mid);
            assert forall|f: FileId| f != file_id implies #[trigger] self.spec_local_file(f)
                == old(self).spec_local_file(f) by {
                assert(assoc_lookup(locals_mid, f) == assoc_lookup(old_locals, f));
            }
            assert(assoc_lookup(locals_mid, file_id) is None);
            lemma_prune_file(old_index, file_id);
            assert forall|k: RefKeyView, f: FileId| #[trigger]
                self.spec_index_ref(k, f) == if f == file_id {
                    None
                } else {
                    old_index_ref(old_index, k, f)
                } by {
                lemma_prune_lookup(old_index, file_id, k);
                match assoc_lookup(old_index, k) {
                    Some(r) => {
                        lemma_lookup_remove(r, file_id, f);
                        if assoc_remove(r, file_id).len() == 0 {
                            lemma_lookup_none(assoc_remove(r, file_id), f);
                        }
                    },
                    None => {},
                }
            }
        }
    }
}

/// The position of the reference of file `f` among `refs`.
fn find_file_ref(refs: &Vec<(FileId, LuaSyntaxId)>, f: FileId) -> (r: Option<usize>)
    ensures
        match r {
            Some(j) => j < refs@.len() && refs@[j as int].0 == f,
            None => forall|m: int| 0 <= m < refs@.len() ==> refs@[m].0 != f,
        },
{
    let mut j: usize = 0;
    while j < refs.len()
        invariant
            0 <= j <= refs@.len(),
            forall|m: int| 0 <= m < j ==> refs@[m].0 != f,
        decreases refs@.len() - j,
    {
        if refs[j].0 == f {
            return Some(j);
        }
        j = j + 1;
    }
    None
}

/// The node of file `f` referencing key `k` in the index `s`.
pub open spec fn old_index_ref(
    s: Seq<(RefKeyView, Seq<(FileId, LuaSyntaxId)>)>,
    k: RefKeyView,
    f: FileId,
) -> Option<LuaSyntaxId> {
    match assoc_lookup(s, k) {
        Some(refs) => assoc_lookup(refs, f),
        None => None,
    }
}

/// Removing the pair at `i` of a list with unique keys is removing its key.
proof fn lemma_assoc_remove_at<K, V>(s: Seq<(K, V)>, i: int)
    requires
        keys_unique(s),
        0 <= i < s.len(),
    ensures
        s.remove(i) == assoc_remove(s, s[i].0),
    decreases s.len(),
{
    let k = s[i].0;
    if i == s.len() - 1 {
        assert(s.remove(i) =~= s.drop_last());
        assert forall|j: int| 0 <= j < s.drop_last().len() implies s.drop_last()[j].0 != k by {
            assert(s.drop_last()[j] == s[j]);
        }
        lemma_remove_absent(s.drop_last(), k);
    } else {
        assert(s.drop_last()[i] == s[i]);
        lemma_assoc_remove_at(s.drop_last(), i);
        assert(s.remove(i) =~= s.drop_last().remove(i).push(s.last()));
    }
}

/// Removing a key that no pair holds leaves the list as it is.
proof fn lemma_remove_absent<K, V>(s: Seq<(K, V)>, k: K)
    requires
        forall|j: int| 0 <= j < s.len() ==> s[j].0 != k,
    ensures
        assoc_remove(s, k) == s,
    decreases s.len(),
{
    if s.len() > 0 {
        assert forall|j: int| 0 <= j < s.drop_last().len() implies s.drop_last()[j].0 != k by {
            assert(s.drop_last()[j] == s[j]);
        }
        lemma_remove_absent(s.drop_last(), k);
        assert(s.drop_last().push(s.last()) =~= s);
    }
}

/// With unique files, the ranges of file `f` are those of its one
/// reference, if it has one.
proof fn lemma_ranges_of_unique_file(refs: Seq<(FileId, LuaSyntaxId)>, f: FileId)
    requires
        keys_unique(refs),
    ensures
        ranges_of_file(refs, f) == match assoc_lookup(refs, f) {
            Some(s) => seq![s.range],
            None => Seq::<TextRange>::empty(),
        },
    decreases refs.len(),
{
    if refs.len() > 0 {
        assert(keys_unique(refs.drop_last()));
        if refs.last().0 == f {
            assert forall|j: int| 0 <= j < refs.drop_last().len() implies refs.drop_last()[j].0
                != f by {
                assert(refs.drop_last()[j] == refs[j]);
            }
            lemma_lookup_none(refs.drop_last(), f);
            lemma_ranges_of_unique_file(refs.drop_last(), f);
            assert(ranges_of_file(refs, f) =~= seq![refs.last().1.range]);
        } else {
            lemma_ranges_of_unique_file(refs.drop_last(), f);
        }
    }
}

/// Pruning keeps the index well formed: keys unique, and each key with
/// unique files and at least one reference.
proof fn lemma_prune_file(s: Seq<(RefKeyView, Seq<(FileId, LuaSyntaxId)>)>, f: FileId)
    requires
        keys_unique(s),
        forall|m: int| 0 <= m < s.len() ==> keys_unique(#[trigger] s[m].1),
    ensures
        keys_unique(prune_file(s, f)),
        forall|m: int|
            0 <= m < prune_file(s, f).len() ==> keys_unique(#[trigger] prune_file(s, f)[m].1)
                && prune_file(s, f)[m].1.len() > 0,
        forall|m: int|
            0 <= m < prune_file(s, f).len() ==> exists|i: int|
                0 <= i < s.len() && s[i].0 == #[trigger] prune_file(s, f)[m].0,
    decreases s.len(),
{
    if s.len() > 0 {
        let d = s.drop_last();
        assert forall|m: int| 0 <= m < d.len() implies keys_unique(#[trigger] d[m].1) by {
            assert(d[m] == s[m]);
        }
        lemma_prune_file(d, f);
        let rest = prune_file(d, f);
        let kept = assoc_remove(s.last().1, f);
        lemma_lookup_remove(s.last().1, f, f);
        assert(keys_unique(s.last().1));
        if kept.len() > 0 {
            let p = prune_file(s, f);
            assert(p == rest.push((s.last().0, kept)));
            assert forall|m: int| 0 <= m < p.len() implies exists|i: int|
                0 <= i < s.len() && s[i].0 == #[trigger] p[m].0 by {
                if m < rest.len() {
                    assert(p[m] == rest[m]);
                    let i = choose|i: int| 0 <= i < d.len() && d[i].0 == rest[m].0;
                    assert(s[i] == d[i]);
                } else {
                    assert(s[s.len() - 1].0 == p[m].0);
                }
            }
            assert forall|a: int, b: int| 0 <= a < b < p.len() implies p[a].0 != p[b].0 by {
                if b < rest.len() {
                    assert(p[a] == rest[a]);
                    assert(p[b] == rest[b]);
                } else {
                    assert(p[a] == rest[a]);
                    let i = choose|i: int| 0 <= i < d.len() && d[i].0 == rest[a].0;
                    assert(s[i] == d[i]);
                }
            }
            assert forall|m: int| 0 <= m < p.len() implies keys_unique(#[trigger] p[m].1)
                && p[m].1.len() > 0 by {
                if m < rest.len() {
                    assert(p[m] == rest[m]);
                }
            }
        } else {
            assert forall|m: int| 0 <= m < rest.len() implies exists|i: int|
                0 <= i < s.len() && s[i].0 == #[trigger] rest[m].0 by {
                let i = choose|i: int| 0 <= i < d.len() && d[i].0 == rest[m].0;
                assert(s[i] == d[i]);
            }
        }
    }
}

/// After pruning, a key finds the references of the other files, or
/// nothing when none is left.
proof fn lemma_prune_lookup(s: Seq<(RefKeyView, Seq<(FileId, LuaSyntaxId)>)>, f: FileId, k: RefKeyView)
    requires
        keys_unique(s),
        forall|m: int| 0 <= m < s.len() ==> keys_unique(#[trigger] s[m].1),
    ensures
        assoc_lookup(prune_file(s, f), k) == match assoc_lookup(s, k) {
            Some(r) => if assoc_remove(r, f).len() > 0 {
                Some(assoc_remove(r, f))
            } else {
                None
            },
            None => None,
        },
    decreases s.len(),
{
    if s.len() > 0 {
        let d = s.drop_last();
        assert forall|m: int| 0 <= m < d.len() implies keys_unique(#[trigger] d[m].1) by {
            assert(d[m] == s[m]);
        }
        lemma_prune_lookup(d, f, k);
        let rest = prune_file(d, f);
        let kept = assoc_remove(s.last().1, f);
        if kept.len() > 0 {
            lemma_lookup_push(rest, s.last().0, kept, k);
        }
        if s.last().0 == k {
            assert forall|j: int| 0 <= j < d.len() implies d[j].0 != k by {
                assert(d[j] == s[j]);
            }
            lemma_lookup_none(d, k);
        }
    }
}

/// A key is listed exactly when some file references it.
pub proof fn lemma_key_listed_iff_referenced(index: LuaReferenceIndex, k: RefKeyView)
    requires
        index.wf(),
    ensures
        index.spec_key_refs(k) is Some <==> exists|f: FileId| #[trigger]
            index.spec_index_ref(k, f) is Some,
{
    if index.spec_key_refs(k) is Some {
        let refs = index.spec_key_refs(k)->Some_0;
        lemma_lookup_some(index.spec_index(), k);
        let i = choose|i: int| 0 <= i < index.spec_index().len() && index.spec_index()[i] == (k, refs);
        assert(index.spec_index()[i].1 == refs);
        assert(keys_unique(refs) && refs.len() > 0);
        lemma_lookup_found(refs, 0);
        assert(index.spec_index_ref(k, refs[0].0) is Some);
    }
}

} // verus!
