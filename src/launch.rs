//! The launch command of the language server and the configuration handed to
//! it, from settings the editor looked up.

use crate::config::{
    joined_path, owned, python_path_of, python_path_set, update_python_path, ConfigValue,
};
use crate::error::LaunchError;
use vstd::prelude::*;

verus! {

/// The settings identifier under which a user overrides the server binary.
pub const ALT_SETTINGS_ID: &'static str = "basedpyright-alt";

/// The executable searched for on the path when no override is set.
pub const SERVER_BINARY: &'static str = "basedpyright-langserver";

/// The binary part of a language server's settings.
#[derive(Debug)]
pub struct BinarySettings {
    pub path: Option<String>,
    pub arguments: Option<Vec<String>>,
}

/// The settings configured for one language server. Where the editor has no
/// settings under an identifier, callers hold `None` instead.
#[derive(Debug)]
pub struct ServerSettings {
    pub binary: Option<BinarySettings>,
    pub initialization_options: Option<ConfigValue>,
    pub settings: Option<ConfigValue>,
}

/// How to start the language server: the executable, its arguments and its
/// environment.
#[derive(Debug)]
pub struct LaunchCommand {
    pub command: String,
    pub args: Vec<String>,
    pub env: Vec<(String, String)>,
}

/// The binary path set under the override identifier, if any.
pub open spec fn override_path(alt: Option<ServerSettings>) -> Option<String> {
    match alt {
        Some(s) => match s.binary {
            Some(b) => b.path,
            None => None,
        },
        None => None,
    }
}

/// The arguments set under the override identifier, if any.
pub open spec fn override_arguments(alt: Option<ServerSettings>) -> Option<Vec<String>> {
    match alt {
        Some(s) => match s.binary {
            Some(b) => b.arguments,
            None => None,
        },
        None => None,
    }
}

/// What the strings of `v` read.
pub open spec fn texts(v: Vec<String>) -> Seq<Seq<char>> {
    v@.map_values(|s: String| s@)
}

pub open spec fn stdio_flag() -> Seq<char> {
    "--stdio"@
}

/// The initialization options set in `settings`, or `Null`.
pub open spec fn init_options_of(settings: Option<ServerSettings>) -> ConfigValue {
    match settings {
        Some(s) => match s.initialization_options {
            Some(v) => v,
            None => ConfigValue::Null,
        },
        None => ConfigValue::Null,
    }
}

/// The workspace settings set in `settings`, or `Null`.
pub open spec fn workspace_settings_of(settings: Option<ServerSettings>) -> ConfigValue {
    match settings {
        Some(s) => match s.settings {
            Some(v) => v,
            None => ConfigValue::Null,
        },
        None => ConfigValue::Null,
    }
}

/// Whether the settings under the override identifier give a binary path,
/// so that no search of the path is needed.
pub fn has_override(alt: &Option<ServerSettings>) -> (r: bool)
    ensures
        r == override_path(*alt) is Some,
{
    match alt {
        Some(s) => match &s.binary {
            Some(b) => b.path.is_some(),
            None => false,
        },
        None => false,
    }
}

/// The command that starts the server. `alt` holds the settings found under
/// the override identifier, `found` what a search of the path for the server
/// binary gave, and `env` the worktree's shell environment. An override path
/// wins, with its own arguments or else `--stdio`; then the binary found,
/// with `--stdio` and an empty argument; else the binary is missing.
pub fn resolve_command(
    alt: Option<ServerSettings>,
    found: Option<String>,
    env: Vec<(String, String)>,
) -> (r: Result<LaunchCommand, LaunchError>)
    ensures
        override_path(alt) matches Some(p) ==> r matches Ok(c) && c.command == p && c.env == env
            && match override_arguments(alt) {
            Some(a) => c.args == a,
            None => texts(c.args) == seq![stdio_flag()],
        },
        override_path(alt) is None ==> match found {
            Some(p) => r matches Ok(c) && c.command == p && c.env == env && texts(c.args) == seq![
                stdio_flag(),
                Seq::<char>::empty(),
            ],
            None => r matches Err(LaunchError::ExecutableNotFound),
        },
{
    proof {
        reveal_strlit("--stdio");
    }
    if let Some(settings) = alt {
        if let Some(binary) = settings.binary {
            if let Some(path) = binary.path {
                let args = match binary.arguments {
                    Some(a) => a,
                    None => {
                        let v = vec![owned("--stdio")];
                        assert(texts(v) =~= seq![stdio_flag()]);
                        v
                    },
                };
                return Ok(LaunchCommand { command: path, args, env });
            }
        }
    }
    match found {
        Some(path) => {
            let args = vec![owned("--stdio"), String::new()];
            assert(texts(args) =~= seq![stdio_flag(), Seq::<char>::empty()]);
            Ok(LaunchCommand { command: path, args, env })
        },
        None => Err(LaunchError::ExecutableNotFound),
    }
}

/// The initialization options for the server, from the settings found under
/// its own identifier: those set there, or `Null` where none are.
pub fn resolve_init_options(settings: Option<ServerSettings>) -> (r: Option<ConfigValue>)
    ensures
        r == Some(init_options_of(settings)),
{
    match settings {
        Some(s) => match s.initialization_options {
            Some(v) => Some(v),
            None => Some(ConfigValue::Null),
        },
        None => Some(ConfigValue::Null),
    }
}

/// The workspace configuration for the server: the settings found under its
/// own identifier (or `Null`), with `python.pythonPath` joined onto `root`.
pub fn resolve_workspace_config(settings: Option<ServerSettings>, root: String) -> (r: Result<
    Option<ConfigValue>,
    LaunchError,
>)
    ensures
        python_path_of(workspace_settings_of(settings)) is None ==> r == Ok::<
            Option<ConfigValue>,
            LaunchError,
        >(Some(workspace_settings_of(settings))),
        python_path_of(workspace_settings_of(settings)) matches Some(other) && !(other is String)
            ==> r matches Err(LaunchError::MalformedPythonPath),
        python_path_of(workspace_settings_of(settings)) matches Some(ConfigValue::String(p))
            ==> match r {
            Ok(Some(w)) => python_path_set(workspace_settings_of(settings), joined_path(root@, p@), w),
            _ => false,
        },
{
    let v = match settings {
        Some(s) => match s.settings {
            Some(v) => v,
            None => ConfigValue::Null,
        },
        None => ConfigValue::Null,
    };
    match update_python_path(v, root) {
        Ok(w) => Ok(Some(w)),
        Err(e) => Err(e),
    }
}

} // verus!
