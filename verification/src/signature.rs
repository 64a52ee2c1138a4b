//! Function signatures gathered from doc comments.
use vstd::prelude::*;

use crate::base::{str_eq, FileId, TextSize};
use crate::types::LuaType;

verus! {

/// Identifies a function by the file and the offset of its closure.
#[derive(Debug, Clone, Copy, PartialEq, Eq, Structural, Hash)]
pub struct LuaSignatureId {
    pub file_id: FileId,
    pub position: TextSize,
}

impl LuaSignatureId {
    /// The closure is given by its start offset.
    pub fn new(file_id: FileId, closure_position: TextSize) -> (r: LuaSignatureId)
        ensures
            r.file_id == file_id,
            r.position == closure_position,
    {
        LuaSignatureId { file_id, position: closure_position }
    }

    pub fn get_file_id(&self) -> (r: FileId)
        ensures
            r == self.file_id,
    {
        self.file_id
    }

    pub fn get_position(&self) -> (r: TextSize)
        ensures
            r == self.position,
    {
        self.position
    }
}


/// What the doc comments of a function say of it.
#[derive(Debug)]
pub struct LuaSignature {
    pub generic_params: Vec<(String, Option<LuaType>)>,
    pub overloads: Vec<LuaType>,
    /// The documented parameters, by name.
    pub param_docs: Vec<(String, LuaDocParamInfo)>,
    pub params: Vec<String>,
    pub return_docs: Vec<LuaDocReturnInfo>,
    /// The return type was already resolved from the function body.
    pub resolve_return: bool,
}

/// The documentation of a parameter: `---@param name type description`.
#[derive(Debug)]
pub struct LuaDocParamInfo {
    pub name: String,
    pub type_ref: LuaType,
    pub nullable: bool,
    pub description: Option<String>,
}

/// The documentation of a return value: `---@return type name description`.
#[derive(Debug)]
pub struct LuaDocReturnInfo {
    pub name: Option<String>,
    pub type_ref: LuaType,
    pub description: Option<String>,
}

/// The index of the first entry of `docs` named `name`, if any.
pub open spec fn spec_find_param_doc(docs: Seq<(String, LuaDocParamInfo)>, name: Seq<char>) -> Option<
    int,
>
    decreases docs.len(),
{
    if docs.len() == 0 {
        None
    } else if docs[0].0@ == name {
        Some(0)
    } else {
        match spec_find_param_doc(docs.drop_first(), name) {
            Some(i) => Some(i + 1),
            None => None,
        }
    }
}

/// A found index lies in range and names the parameter.
pub proof fn lemma_find_param_doc(docs: Seq<(String, LuaDocParamInfo)>, name: Seq<char>)
    ensures
        spec_find_param_doc(docs, name) matches Some(i) ==> 0 <= i < docs.len() && docs[i].0@ == name,
        spec_find_param_doc(docs, name) is None ==> forall|j: int|
            0 <= j < docs.len() ==> docs[j].0@ != name,
    decreases docs.len(),
{
    if docs.len() > 0 {
        lemma_find_param_doc(docs.drop_first(), name);
        if spec_find_param_doc(docs, name) is None {
            assert forall|j: int| 0 <= j < docs.len() implies docs[j].0@ != name by {
                if j > 0 {
                    assert(docs[j] == docs.drop_first()[j - 1]);
                }
            }
        }
    }
}

impl LuaSignature {
    pub fn new() -> (r: LuaSignature)
        ensures
            r.generic_params@.len() == 0,
            r.overloads@.len() == 0,
            r.param_docs@.len() == 0,
            r.params@.len() == 0,
            r.return_docs@.len() == 0,
            !r.resolve_return,
    {
        LuaSignature {
            generic_params: Vec::new(),
            overloads: Vec::new(),
            param_docs: Vec::new(),
            params: Vec::new(),
            return_docs: Vec::new(),
            resolve_return: false,
        }
    }

    /// The function has generic parameters.
    pub fn is_generic(&self) -> (r: bool)
        ensures
            r == (self.generic_params@.len() > 0),
    {
        self.generic_params.len() > 0
    }

    /// The return type is known: resolved already, or documented.
    pub fn is_resolve_return(&self) -> (r: bool)
        ensures
            r == (self.resolve_return || self.return_docs@.len() > 0),
    {
        self.resolve_return || self.return_docs.len() > 0
    }

    /// The documentation of the parameter at `idx`: the first entry of
    /// `param_docs` with its name.
    pub fn get_param_info_by_id(&self, idx: usize) -> (r: Option<&LuaDocParamInfo>)
        ensures
            idx >= self.params@.len() ==> r is None,
            idx < self.params@.len() ==> match spec_find_param_doc(
                self.param_docs@,
                self.params@[idx as int]@,
            ) {
                Some(i) => r == Some(&self.param_docs@[i].1),
                None => r is None,
            },
    {
        if idx >= self.params.len() {
            return None;
        }
        let name = self.params[idx].as_str();
        let mut i: usize = 0;
        proof {
            assert(self.param_docs@.skip(0) =~= self.param_docs@);
        }
        while i < self.param_docs.len()
            invariant
                0 <= i <= self.param_docs@.len(),
                idx < self.params@.len(),
                name@ == self.params@[idx as int]@,
                spec_find_param_doc(self.param_docs@, name@) == match spec_find_param_doc(
                    self.param_docs@.skip(i as int),
                    name@,
                ) {
                    Some(k) => Some(k + i),
                    None => None,
                },
            decreases self.param_docs@.len() - i,
        {
            proof {
                assert(self.param_docs@.skip(i as int).drop_first() =~= self.param_docs@.skip(
                    i + 1,
                ));
                assert(self.param_docs@.skip(i as int)[0] == self.param_docs@[i as int]);
            }
            if str_eq(self.param_docs[i].0.as_str(), name) {
                return Some(&self.param_docs[i].1);
            }
            i = i + 1;
        }
        proof {
            assert(self.param_docs@.skip(i as int).len() == 0);
        }
        None
    }
}

} // verus!
