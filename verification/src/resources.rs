//! The standard library files shipped with the analyzer: walking the
//! embedded resource tree, and choosing its Lua files.
use vstd::prelude::*;

use crate::base::str_eq;

verus! {

/// A file to analyze: its path and its text.
#[derive(Debug)]
pub struct LuaFileInfo {
    pub path: String,
    pub content: String,
}

impl Clone for LuaFileInfo {
    fn clone(&self) -> (r: Self)
        ensures
            r == *self,
    {
        LuaFileInfo { path: self.path.clone(), content: self.content.clone() }
    }
}

/// An entry of the embedded resource tree: a file with its path and its
/// text, or a directory with its entries.
#[derive(Debug)]
pub enum ResourceEntry {
    File { path: String, content: String },
    Dir(Vec<ResourceEntry>),
}

/// The files below the entries, depth first, in the order of the entries.
pub open spec fn spec_walk(entries: Seq<ResourceEntry>) -> Seq<LuaFileInfo>
    decreases entries,
{
    if entries.len() == 0 {
        seq![]
    } else {
        spec_walk(entries.drop_last()) + match entries[entries.len() - 1] {
            ResourceEntry::File { path, content } => seq![LuaFileInfo { path, content }],
            ResourceEntry::Dir(sub) => spec_walk(sub@),
        }
    }
}

/// Appends the files below `entries` to `files`, depth first.
fn walk_resource_dir(entries: &Vec<ResourceEntry>, files: &mut Vec<LuaFileInfo>)
    ensures
        final(files)@ == old(files)@ + spec_walk(entries@),
    decreases entries@,
{
    let ghost start = files@;
    let mut i: usize = 0;
    while i < entries.len()
        invariant
            0 <= i <= entries@.len(),
            files@ == start + spec_walk(entries@.take(i as int)),
        decreases entries@.len() - i,
    {
        proof {
            assert(entries@.take(i + 1).drop_last() =~= entries@.take(i as int));
            assert(entries@.take(i + 1)[i as int] == entries@[i as int]);
        }
        match &entries[i] {
            ResourceEntry::File { path, content } => {
                files.push(LuaFileInfo { path: path.clone(), content: content.clone() });
            },
            ResourceEntry::Dir(sub) => {
                proof {
                    assert(decreases_to!(entries@ => entries@[i as int]));
                }
                walk_resource_dir(sub, files);
            },
        }
        proof {
            assert(files@ =~= start + spec_walk(entries@.take(i + 1)));
        }
        i = i + 1;
    }
    proof {
        assert(entries@.take(i as int) =~= entries@);
    }
}

/// Every file of the embedded resource tree, depth first.
pub fn load_resource_from_include_dir(root: &Vec<ResourceEntry>) -> (r: Vec<LuaFileInfo>)
    ensures
        r@ == spec_walk(root@),
{
    let mut files: Vec<LuaFileInfo> = Vec::new();
    walk_resource_dir(root, &mut files);
    proof {
        assert(files@ =~= spec_walk(root@));
    }
    files
}

/// The path names a Lua file.
pub open spec fn is_lua_path(path: Seq<char>) -> bool {
    path.len() >= 4 && path.skip(path.len() - 4) == ".lua"@
}

/// Whether the path names a Lua file: it ends with `.lua`.
pub fn is_lua_resource(path: &str) -> (r: bool)
    ensures
        r == is_lua_path(path@),
{
    let n = path.unicode_len();
    if n < 4 {
        return false;
    }
    let tail = path.substring_char(n - 4, n);
    proof {
        assert(tail@ =~= path@.skip(n - 4));
    }
    str_eq(tail, ".lua")
}

/// The Lua files among the standard library's files, in order.
pub open spec fn spec_lua_files(files: Seq<LuaFileInfo>) -> Seq<LuaFileInfo>
    decreases files.len(),
{
    if files.len() == 0 {
        seq![]
    } else if is_lua_path(files.last().path@) {
        spec_lua_files(files.drop_last()).push(files.last())
    } else {
        spec_lua_files(files.drop_last())
    }
}

/// Keeps the Lua files, in order.
pub fn filter_lua_files(files: &Vec<LuaFileInfo>) -> (r: Vec<LuaFileInfo>)
    ensures
        r@ == spec_lua_files(files@),
{
    let mut out: Vec<LuaFileInfo> = Vec::new();
    let mut i: usize = 0;
    while i < files.len()
        invariant
            0 <= i <= files@.len(),
            out@ == spec_lua_files(files@.take(i as int)),
        decreases files@.len() - i,
    {
        proof {
            assert(files@.take(i + 1).drop_last() =~= files@.take(i as int));
            assert(files@.take(i + 1).last() == files@[i as int]);
        }
        if is_lua_resource(files[i].path.as_str()) {
            out.push(files[i].clone());
        }
        i = i + 1;
    }
    proof {
        assert(files@.take(i as int) =~= files@);
    }
    out
}

} // verus!
