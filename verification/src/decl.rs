//! Declarations of local and global variables.
use vstd::prelude::*;

use crate::base::{FileId, TextRange, TextSize};
use crate::types::LuaType;

verus! {

/// The attribute of a local variable: `<const>` or `<close>`.
#[derive(Debug, Clone, Copy, PartialEq, Eq, Structural, Hash)]
pub enum LocalAttribute {
    Const,
    Close,
    IterConst,
}

/// Identifies a declaration by its file and the offset where its name starts.
#[derive(Debug, Clone, Copy, PartialEq, Eq, Structural, Hash)]
pub struct LuaDeclId {
    pub file_id: FileId,
    pub position: TextSize,
}

impl LuaDeclId {
    pub fn new(file_id: FileId, position: TextSize) -> (r: LuaDeclId)
        ensures
            r.file_id == file_id,
            r.position == position,
    {
        LuaDeclId { file_id, position }
    }
}

/// A declared variable.
#[derive(Debug, Hash)]
pub enum LuaDecl {
    Local {
        name: String,
        file_id: FileId,
        range: TextRange,
        attrib: Option<LocalAttribute>,
        decl_type: Option<LuaType>,
    },
    Global { name: String, file_id: FileId, range: TextRange, decl_type: Option<LuaType> },
}

impl LuaDecl {
    /// The file of the declaration.
    pub open spec fn spec_file_id(self) -> FileId {
        match self {
            LuaDecl::Local { file_id, .. } => file_id,
            LuaDecl::Global { file_id, .. } => file_id,
        }
    }

    /// The range of the declared name.
    pub open spec fn spec_range(self) -> TextRange {
        match self {
            LuaDecl::Local { range, .. } => range,
            LuaDecl::Global { range, .. } => range,
        }
    }

    /// The declared name.
    pub open spec fn spec_name(self) -> String {
        match self {
            LuaDecl::Local { name, .. } => name,
            LuaDecl::Global { name, .. } => name,
        }
    }

    /// The type given to the declaration, if any.
    pub open spec fn spec_type(self) -> Option<LuaType> {
        match self {
            LuaDecl::Local { decl_type, .. } => decl_type,
            LuaDecl::Global { decl_type, .. } => decl_type,
        }
    }

    pub fn get_file_id(&self) -> (r: FileId)
        ensures
            r == self.spec_file_id(),
    {
        match self {
            LuaDecl::Local { file_id, .. } => *file_id,
            LuaDecl::Global { file_id, .. } => *file_id,
        }
    }

    /// The id of the declaration: its file and the start of its name.
    pub fn get_id(&self) -> (r: LuaDeclId)
        ensures
            r.file_id == self.spec_file_id(),
            r.position == self.spec_range().spec_start(),
    {
        LuaDeclId::new(self.get_file_id(), self.get_position())
    }

    pub fn get_name(&self) -> (r: &str)
        ensures
            r@ == self.spec_name()@,
    {
        match self {
            LuaDecl::Local { name, .. } => name.as_str(),
            LuaDecl::Global { name, .. } => name.as_str(),
        }
    }

    /// Where the declared name starts.
    pub fn get_position(&self) -> (r: TextSize)
        ensures
            r == self.spec_range().spec_start(),
    {
        match self {
            LuaDecl::Local { range, .. } => range.start(),
            LuaDecl::Global { range, .. } => range.start(),
        }
    }

    pub fn get_range(&self) -> (r: TextRange)
        ensures
            r == self.spec_range(),
    {
        match self {
            LuaDecl::Local { range, .. } => *range,
            LuaDecl::Global { range, .. } => *range,
        }
    }

    pub fn get_type(&self) -> (r: Option<&LuaType>)
        ensures
            match self.spec_type() {
                Some(t) => r == Some(&t),
                None => r is None,
            },
    {
        match self {
            LuaDecl::Local { decl_type, .. } => decl_type.as_ref(),
            LuaDecl::Global { decl_type, .. } => decl_type.as_ref(),
        }
    }

    /// Gives the declaration a type; nothing else changes.
    pub fn set_decl_type(&mut self, decl_type: LuaType)
        ensures
            final(self).spec_type() == Some(decl_type),
            final(self).spec_name() == old(self).spec_name(),
            final(self).spec_file_id() == old(self).spec_file_id(),
            final(self).spec_range() == old(self).spec_range(),
            (*final(self) is Local) == (*old(self) is Local),
            *old(self) is Local ==> (*final(self))->attrib == (*old(self))->attrib,
    {
        match self {
            LuaDecl::Local { decl_type: dt, .. } => {
                *dt = Some(decl_type);
            },
            LuaDecl::Global { decl_type: dt, .. } => {
                *dt = Some(decl_type);
            },
        }
    }

    pub fn is_local(&self) -> (r: bool)
        ensures
            r == self is Local,
    {
        matches!(self, LuaDecl::Local { .. })
    }

    pub fn is_global(&self) -> (r: bool)
        ensures
            r == self is Global,
    {
        matches!(self, LuaDecl::Global { .. })
    }
}

impl Clone for LuaDecl {
    fn clone(&self) -> (r: Self)
        ensures
            r == *self,
    {
        match self {
            LuaDecl::Local { name, file_id, range, attrib, decl_type } => LuaDecl::Local {
                name: name.clone(),
                file_id: *file_id,
                range: *range,
                attrib: *attrib,
                decl_type: match decl_type {
                    Some(t) => Some(t.clone()),
                    None => None,
                },
            },
            LuaDecl::Global { name, file_id, range, decl_type } => LuaDecl::Global {
                name: name.clone(),
                file_id: *file_id,
                range: *range,
                decl_type: match decl_type {
                    Some(t) => Some(t.clone()),
                    None => None,
                },
            },
        }
    }
}

} // verus!
