//! The editor the server talks to, and the settings it gives.
use vstd::prelude::*;

use crate::base::str_eq;

verus! {

/// The kind of editor that connected.
#[derive(Debug, Clone, Copy, PartialEq, Eq, Structural)]
pub enum ClientId {
    VSCode,
    Intellij,
    Neovim,
    Other,
}

impl ClientId {
    pub fn is_vscode(&self) -> (r: bool)
        ensures
            r == (*self is VSCode),
    {
        matches!(self, ClientId::VSCode)
    }

    pub fn is_intellij(&self) -> (r: bool)
        ensures
            r == (*self is Intellij),
    {
        matches!(self, ClientId::Intellij)
    }

    pub fn is_neovim(&self) -> (r: bool)
        ensures
            r == (*self is Neovim),
    {
        matches!(self, ClientId::Neovim)
    }

    pub fn is_other(&self) -> (r: bool)
        ensures
            r == (*self is Other),
    {
        matches!(self, ClientId::Other)
    }
}

/// The editor named by the client information the editor sent.
pub open spec fn spec_client_id(client_name: Option<Seq<char>>) -> ClientId {
    match client_name {
        Some(name) => if name == "Visual Studio Code"@ {
            ClientId::VSCode
        } else if name == "IntelliJ"@ {
            ClientId::Intellij
        } else if name == "Neovim"@ {
            ClientId::Neovim
        } else {
            ClientId::Other
        },
        None => ClientId::Other,
    }
}

/// Each known editor is recognised by its own name and by no other: the
/// name "Visual Studio Code" gives `VSCode`, "IntelliJ" gives `Intellij`,
/// "Neovim" gives `Neovim`, and an unknown name or none gives `Other`.
pub proof fn lemma_client_recognised_by_its_name(client_name: Option<Seq<char>>)
    ensures
        spec_client_id(client_name) is VSCode <==> client_name == Some("Visual Studio Code"@),
        spec_client_id(client_name) is Intellij <==> client_name == Some("IntelliJ"@),
        spec_client_id(client_name) is Neovim <==> client_name == Some("Neovim"@),
        spec_client_id(client_name) is Other <==> !(client_name == Some("Visual Studio Code"@)
            || client_name == Some("IntelliJ"@) || client_name == Some("Neovim"@)),
{
    reveal_strlit("Visual Studio Code");
    reveal_strlit("IntelliJ");
    reveal_strlit("Neovim");
    assert("Visual Studio Code"@.len() == 18 && "IntelliJ"@.len() == 8 && "Neovim"@.len() == 6);
}

/// Recognises the editor by the name in its client information.
pub fn get_client_id(client_name: Option<&str>) -> (r: ClientId)
    ensures
        r == spec_client_id(
            match client_name {
                Some(n) => Some(n@),
                None => None,
            },
        ),
{
    match client_name {
        Some(name) => {
            if str_eq(name, "Visual Studio Code") {
                ClientId::VSCode
            } else if str_eq(name, "IntelliJ") {
                ClientId::Intellij
            } else if str_eq(name, "Neovim") {
                ClientId::Neovim
            } else {
                ClientId::Other
            }
        },
        None => ClientId::Other,
    }
}

/// What the editor tells about the files of the workspace.
#[derive(Debug)]
pub struct ClientConfig {
    pub client_id: ClientId,
    pub exclude: Vec<String>,
    pub extensions: Vec<String>,
    pub encoding: String,
}

/// The `files` settings of Visual Studio Code: excluded patterns, file
/// associations (pattern, language) and encoding, in the order received.
#[derive(Debug)]
pub struct VscodeFilesConfig {
    pub exclude: Option<Vec<(String, bool)>>,
    pub associations: Option<Vec<(String, String)>>,
    pub encoding: Option<String>,
}

/// Nothing excluded, no extra extensions, UTF-8 files.
pub fn new_client_config(client_id: ClientId) -> (r: ClientConfig)
    ensures
        r.client_id == client_id,
        r.exclude@.len() == 0,
        r.extensions@.len() == 0,
        r.encoding@ == "utf-8"@,
{
    ClientConfig {
        client_id,
        exclude: Vec::new(),
        extensions: Vec::new(),
        encoding: String::from_str("utf-8"),
    }
}

/// The views of a list of strings.
pub open spec fn string_views(v: Seq<String>) -> Seq<Seq<char>> {
    v.map_values(|s: String| s@)
}

/// The patterns of the excluded entries, whatever their flag.
pub open spec fn exclude_patterns(exclude: Seq<(String, bool)>) -> Seq<Seq<char>> {
    exclude.map_values(|e: (String, bool)| e.0@)
}

/// The patterns associated with the language `lua` or `Lua`, in order.
pub open spec fn lua_patterns(associations: Seq<(String, String)>) -> Seq<Seq<char>>
    decreases associations.len(),
{
    if associations.len() == 0 {
        Seq::empty()
    } else {
        let before = lua_patterns(associations.drop_last());
        let (pattern, extension) = associations.last();
        if extension@ == "lua"@ || extension@ == "Lua"@ {
            before.push(pattern@)
        } else {
            before
        }
    }
}

/// The excluded patterns that a list of `files` settings adds.
pub open spec fn all_exclude_patterns(configs: Seq<VscodeFilesConfig>) -> Seq<Seq<char>>
    decreases configs.len(),
{
    if configs.len() == 0 {
        Seq::empty()
    } else {
        all_exclude_patterns(configs.drop_last()) + match configs.last().exclude {
            Some(e) => exclude_patterns(e@),
            None => Seq::empty(),
        }
    }
}

/// The Lua file patterns that a list of `files` settings adds.
pub open spec fn all_lua_patterns(configs: Seq<VscodeFilesConfig>) -> Seq<Seq<char>>
    decreases configs.len(),
{
    if configs.len() == 0 {
        Seq::empty()
    } else {
        all_lua_patterns(configs.drop_last()) + match configs.last().associations {
            Some(a) => lua_patterns(a@),
            None => Seq::empty(),
        }
    }
}

/// The Lua patterns are exactly the patterns associated with the language
/// `lua` or `Lua`: each comes from such an association, each such
/// association gives its pattern, and other associations give none.
pub proof fn lemma_lua_patterns_are_lua_associations(associations: Seq<(String, String)>)
    ensures
        forall|i: int|
            0 <= i < lua_patterns(associations).len() ==> exists|j: int|
                0 <= j < associations.len() && (#[trigger] associations[j]).0@ == #[trigger] lua_patterns(
                    associations,
                )[i] && (associations[j].1@ == "lua"@ || associations[j].1@ == "Lua"@),
        forall|j: int|
            0 <= j < associations.len() && ((#[trigger] associations[j]).1@ == "lua"@
                || associations[j].1@ == "Lua"@) ==> lua_patterns(associations).contains(
                associations[j].0@,
            ),
    decreases associations.len(),
{
    if associations.len() > 0 {
        let rest = associations.drop_last();
        lemma_lua_patterns_are_lua_associations(rest);
        let lp = lua_patterns(associations);
        let lr = lua_patterns(rest);
        let last = associations.last();
        assert forall|i: int| 0 <= i < lp.len() implies exists|j: int|
            0 <= j < associations.len() && (#[trigger] associations[j]).0@ == #[trigger] lp[i] && (
            associations[j].1@ == "lua"@ || associations[j].1@ == "Lua"@) by {
            if i < lr.len() {
                let j = choose|j: int|
                    0 <= j < rest.len() && (#[trigger] rest[j]).0@ == #[trigger] lr[i] && (rest[j].1@ == "lua"@
                        || rest[j].1@ == "Lua"@);
                assert(associations[j] == rest[j]);
                assert(lp[i] == lr[i]);
            } else {
                assert(associations[associations.len() - 1] == last);
            }
        }
        assert forall|j: int|
            0 <= j < associations.len() && ((#[trigger] associations[j]).1@ == "lua"@
                || associations[j].1@ == "Lua"@) implies lp.contains(associations[j].0@) by {
            if j < rest.len() {
                assert(associations[j] == rest[j]);
                let k = choose|k: int| 0 <= k < lr.len() && lr[k] == rest[j].0@;
                assert(lp[k] == lr[k]);
            } else {
                assert(lp[lp.len() - 1] == last.0@);
            }
        }
    }
}

/// Takes the `files` settings of Visual Studio Code into the configuration:
/// every excluded pattern, the patterns associated with Lua, and the
/// encoding of the last settings (UTF-8 where it gives none).
pub fn apply_vscode_files_configs(config: &mut ClientConfig, files_configs: &Vec<VscodeFilesConfig>)
    ensures
        final(config).client_id == old(config).client_id,
        string_views(final(config).exclude@) == string_views(old(config).exclude@)
            + all_exclude_patterns(files_configs@),
        string_views(final(config).extensions@) == string_views(old(config).extensions@)
            + all_lua_patterns(files_configs@),
        files_configs@.len() == 0 ==> final(config).encoding@ == old(config).encoding@,
        files_configs@.len() > 0 ==> final(config).encoding@ == match files_configs@.last().encoding {
            Some(e) => e@,
            None => "utf-8"@,
        },
{
    let ghost exclude0 = string_views(config.exclude@);
    let ghost extensions0 = string_views(config.extensions@);
    let mut i: usize = 0;
    while i < files_configs.len()
        invariant
            0 <= i <= files_configs@.len(),
            config.client_id == old(config).client_id,
            exclude0 == string_views(old(config).exclude@),
            extensions0 == string_views(old(config).extensions@),
            string_views(config.exclude@) == exclude0 + all_exclude_patterns(
                files_configs@.take(i as int),
            ),
            string_views(config.extensions@) == extensions0 + all_lua_patterns(
                files_configs@.take(i as int),
            ),
            i == 0 ==> config.encoding@ == old(config).encoding@,
            i > 0 ==> config.encoding@ == match files_configs@[i - 1].encoding {
                Some(e) => e@,
                None => "utf-8"@,
            },
        decreases files_configs@.len() - i,
    {
        let files_config = &files_configs[i];
        proof {
            assert(files_configs@.take(i + 1).drop_last() =~= files_configs@.take(i as int));
        }
        let ghost excl_before = string_views(config.exclude@);
        let ghost ext_snapshot = config.extensions@;
        let ghost enc_snapshot = config.encoding;
        if let Some(exclude) = &files_config.exclude {
            let mut j: usize = 0;
            while j < exclude.len()
                invariant
                    0 <= j <= exclude@.len(),
                    config.client_id == old(config).client_id,
                    config.extensions@ == ext_snapshot,
                    config.encoding == enc_snapshot,
                    string_views(config.exclude@) == excl_before + exclude_patterns(
                        exclude@.take(j as int),
                    ),
                decreases exclude@.len() - j,
            {
                let ghost prev = config.exclude@;
                config.exclude.push(exclude[j].0.clone());
                proof {
                    assert(string_views(config.exclude@) =~= string_views(prev).push(
                        exclude@[j as int].0@,
                    ));
                    assert(exclude@.take(j + 1) =~= exclude@.take(j as int).push(exclude@[j as int]));
                    assert(exclude_patterns(exclude@.take(j + 1)) =~= exclude_patterns(
                        exclude@.take(j as int),
                    ).push(exclude@[j as int].0@));
                    assert(string_views(config.exclude@) =~= excl_before + exclude_patterns(
                        exclude@.take(j + 1),
                    ));
                }
                j = j + 1;
            }
            proof {
                assert(exclude@.take(j as int) =~= exclude@);
            }
        }
        proof {
            assert(string_views(config.exclude@) =~= exclude0 + all_exclude_patterns(
                files_configs@.take(i + 1),
            ));
        }
        let ghost ext_before = string_views(config.extensions@);
        let ghost excl_snapshot = config.exclude@;
        if let Some(associations) = &files_config.associations {
            let mut j: usize = 0;
            while j < associations.len()
                invariant
                    0 <= j <= associations@.len(),
                    config.client_id == old(config).client_id,
                    config.exclude@ == excl_snapshot,
                    config.encoding == enc_snapshot,
                    string_views(config.extensions@) == ext_before + lua_patterns(
                        associations@.take(j as int),
                    ),
                decreases associations@.len() - j,
            {
                proof {
                    assert(associations@.take(j + 1).drop_last() =~= associations@.take(j as int));
                }
                let is_lua = str_eq(associations[j].1.as_str(), "lua") || str_eq(
                    associations[j].1.as_str(),
                    "Lua",
                );
                let ghost prev = config.extensions@;
                if is_lua {
                    config.extensions.push(associations[j].0.clone());
                    proof {
                        assert(string_views(config.extensions@) =~= string_views(prev).push(
                            associations@[j as int].0@,
                        ));
                    }
                }
                proof {
                    assert(string_views(config.extensions@) =~= ext_before + lua_patterns(
                        associations@.take(j + 1),
                    ));
                }
                j = j + 1;
            }
            proof {
                assert(associations@.take(j as int) =~= associations@);
            }
        }
        proof {
            assert(string_views(config.extensions@) =~= extensions0 + all_lua_patterns(
                files_configs@.take(i + 1),
            ));
        }
        config.encoding = match &files_config.encoding {
            Some(e) => e.clone(),
            None => String::from_str("utf-8"),
        };
        i = i + 1;
    }
    proof {
        assert(files_configs@.take(i as int) =~= files_configs@);
    }
}

/// The folders of the workspace: those the editor lists that map to paths,
/// or, when there are none, the root path it gives.
pub open spec fn spec_workspace_folders(
    folder_paths: Seq<Option<Seq<char>>>,
    root_path: Option<Seq<char>>,
) -> Seq<Seq<char>> {
    let listed = present_paths(folder_paths);
    if listed.len() == 0 {
        match root_path {
            Some(p) => seq![p],
            None => Seq::empty(),
        }
    } else {
        listed
    }
}

/// The paths that are present, in order.
pub open spec fn present_paths(paths: Seq<Option<Seq<char>>>) -> Seq<Seq<char>>
    decreases paths.len(),
{
    if paths.len() == 0 {
        Seq::empty()
    } else {
        match paths.last() {
            Some(p) => present_paths(paths.drop_last()).push(p),
            None => present_paths(paths.drop_last()),
        }
    }
}

/// The present paths are those of the entries that hold one.
proof fn lemma_present_paths_members(paths: Seq<Option<Seq<char>>>)
    ensures
        forall|i: int|
            0 <= i < present_paths(paths).len() ==> exists|j: int|
                0 <= j < paths.len() && #[trigger] paths[j] == Some(#[trigger] present_paths(paths)[i]),
        forall|j: int|
            0 <= j < paths.len() && (#[trigger] paths[j]) is Some ==> present_paths(paths).contains(
                paths[j]->0,
            ),
    decreases paths.len(),
{
    if paths.len() > 0 {
        let rest = paths.drop_last();
        lemma_present_paths_members(rest);
        let pp = present_paths(paths);
        let pr = present_paths(rest);
        assert forall|i: int| 0 <= i < pp.len() implies exists|j: int|
            0 <= j < paths.len() && #[trigger] paths[j] == Some(#[trigger] pp[i]) by {
            if i < pr.len() {
                let j = choose|j: int| 0 <= j < rest.len() && #[trigger] rest[j] == Some(pr[i]);
                assert(paths[j] == rest[j]);
                assert(pp[i] == pr[i]);
            } else {
                assert(paths[paths.len() - 1] == paths.last());
            }
        }
        assert forall|j: int| 0 <= j < paths.len() && (#[trigger] paths[j]) is Some implies pp.contains(
            paths[j]->0,
        ) by {
            if j < rest.len() {
                assert(paths[j] == rest[j]);
                let k = choose|k: int| 0 <= k < pr.len() && pr[k] == rest[j]->0;
                assert(pp[k] == pr[k]);
            } else {
                assert(pp[pp.len() - 1] == paths.last()->0);
            }
        }
    }
}

/// The workspace folders are the paths the editor lists, each of them and
/// only those, when it lists any; otherwise they are the root path, if it
/// gives one, and else there are none.
pub proof fn lemma_workspace_folders_listed_or_root(
    folder_paths: Seq<Option<Seq<char>>>,
    root_path: Option<Seq<char>>,
)
    ensures
        (exists|j: int| 0 <= j < folder_paths.len() && (#[trigger] folder_paths[j]) is Some) ==> {
            let r = spec_workspace_folders(folder_paths, root_path);
            &&& forall|i: int|
                0 <= i < r.len() ==> exists|j: int|
                    0 <= j < folder_paths.len() && #[trigger] folder_paths[j] == Some(#[trigger] r[i])
            &&& forall|j: int|
                0 <= j < folder_paths.len() && (#[trigger] folder_paths[j]) is Some ==> r.contains(
                    folder_paths[j]->0,
                )
        },
        !(exists|j: int| 0 <= j < folder_paths.len() && (#[trigger] folder_paths[j]) is Some)
            ==> spec_workspace_folders(folder_paths, root_path) == match root_path {
            Some(p) => seq![p],
            None => Seq::<Seq<char>>::empty(),
        },
{
    lemma_present_paths_members(folder_paths);
    let listed = present_paths(folder_paths);
    if exists|j: int| 0 <= j < folder_paths.len() && (#[trigger] folder_paths[j]) is Some {
        let j = choose|j: int| 0 <= j < folder_paths.len() && (#[trigger] folder_paths[j]) is Some;
        assert(listed.contains(folder_paths[j]->0));
        assert(listed.len() > 0);
    } else {
        if listed.len() > 0 {
            let j = choose|j: int| 0 <= j < folder_paths.len() && #[trigger] folder_paths[j] == Some(listed[0]);
            assert(folder_paths[j] is Some);
        }
    }
}

/// The views of optional strings.
pub open spec fn option_string_views(v: Seq<Option<String>>) -> Seq<Option<Seq<char>>> {
    v.map_values(
        |o: Option<String>|
            match o {
                Some(s) => Some(s@),
                None => None,
            },
    )
}

/// Chooses the workspace folders from the folders the editor lists (each
/// already turned into a path where it names one) and its root path.
pub fn get_workspace_folders(folder_paths: Option<Vec<Option<String>>>, root_path: Option<String>) -> (r:
    Vec<String>)
    ensures
        string_views(r@) == spec_workspace_folders(
            match folder_paths {
                Some(f) => option_string_views(f@),
                None => Seq::empty(),
            },
            match root_path {
                Some(p) => Some(p@),
                None => None,
            },
        ),
{
    let mut workspace_folders: Vec<String> = Vec::new();
    let ghost listed: Seq<Option<Seq<char>>> = match &folder_paths {
        Some(f) => option_string_views(f@),
        None => Seq::empty(),
    };
    if let Some(folders) = folder_paths {
        let mut i: usize = 0;
        while i < folders.len()
            invariant
                0 <= i <= folders@.len(),
                listed == option_string_views(folders@),
                string_views(workspace_folders@) == present_paths(listed.take(i as int)),
            decreases folders@.len() - i,
        {
            proof {
                assert(listed.take(i + 1).drop_last() =~= listed.take(i as int));
            }
            if let Some(path) = &folders[i] {
                workspace_folders.push(path.clone());
            }
            proof {
                assert(string_views(workspace_folders@) =~= present_paths(listed.take(i + 1)));
            }
            i = i + 1;
        }
        proof {
            assert(listed.take(i as int) =~= listed);
        }
    }
    if workspace_folders.len() == 0 {
        if let Some(path) = root_path {
            workspace_folders.push(path);
            proof {
                assert(string_views(workspace_folders@) =~= seq![path@]);
            }
        }
    }
    workspace_folders
}

} // verus!
