//! Settings read from the project's configuration file.
use vstd::prelude::*;

verus! {

/// Which inlay hints to show; `None` leaves the choice to the client.
#[derive(Debug, Clone, Copy, PartialEq, Eq, Structural)]
pub struct EmmyrcInlayHint {
    pub param_hint: Option<bool>,
    pub index_hint: Option<bool>,
    pub local_hint: Option<bool>,
    pub override_hint: Option<bool>,
}

/// Where the workspace's files are, and how to read them.
#[derive(Debug)]
pub struct EmmyrcWorkspace {
    pub ignore_dir: Vec<String>,
    pub ignore_globs: Vec<String>,
    pub library: Vec<String>,
    pub workspace_roots: Vec<String>,
    pub preload_file_size: i32,
    pub encoding: String,
}

/// The encoding assumed for files when none is configured.
pub fn encoding_default() -> (r: String)
    ensures
        r@ == "utf-8"@,
{
    String::from_str("utf-8")
}

impl Default for EmmyrcWorkspace {
    /// No ignored or extra directories, no preload limit, UTF-8 files.
    fn default() -> (r: EmmyrcWorkspace)
        ensures
            r.ignore_dir@.len() == 0,
            r.ignore_globs@.len() == 0,
            r.library@.len() == 0,
            r.workspace_roots@.len() == 0,
            r.preload_file_size == 0,
            r.encoding@ == "utf-8"@,
    {
        EmmyrcWorkspace {
            ignore_dir: Vec::new(),
            ignore_globs: Vec::new(),
            library: Vec::new(),
            workspace_roots: Vec::new(),
            preload_file_size: 0,
            encoding: encoding_default(),
        }
    }
}

/// Whether hovers are shown.
#[derive(Debug, Clone, Copy, PartialEq, Eq, Structural)]
pub struct EmmyrcHover {
    pub enable: bool,
}

/// The value of a switch that is on unless configured otherwise.
pub fn default_true() -> (r: bool)
    ensures
        r,
{
    true
}

impl Default for EmmyrcHover {
    /// Hovers are shown.
    fn default() -> (r: EmmyrcHover)
        ensures
            r.enable,
    {
        EmmyrcHover { enable: default_true() }
    }
}

} // verus!
