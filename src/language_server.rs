//! The Swift language server: where its binary is found and how it is
//! started.
use vstd::prelude::*;

use crate::env::{keys_unique, EnvModel, EnvVars};

verus! {

/// The user's settings for a command: a path to the binary, the arguments
/// to pass it and the environment variables to set, each optional. The
/// variables are a map: each name at most once.
pub struct CommandSettings {
    pub path: Option<String>,
    pub arguments: Option<Vec<String>>,
    pub env: Option<EnvVars>,
}

/// What command settings stand for.
pub struct SettingsModel {
    pub path: Option<Seq<char>>,
    pub arguments: Option<Seq<Seq<char>>>,
    pub env: Option<EnvModel>,
}

impl CommandSettings {
    /// Each variable is named at most once.
    pub open spec fn wf(&self) -> bool {
        self.env matches Some(e) ==> keys_unique(e.deep_view())
    }
}

impl View for CommandSettings {
    type V = SettingsModel;

    open spec fn view(&self) -> SettingsModel {
        SettingsModel {
            path: self.path.deep_view(),
            arguments: self.arguments.deep_view(),
            env: self.env.deep_view(),
        }
    }
}

/// A binary that can be run as the language server: its path, the
/// arguments if any were chosen, and its environment.
pub struct LanguageServerBinary {
    pub path: String,
    pub args: Option<Vec<String>>,
    pub env: EnvVars,
}

/// What a language server binary stands for.
pub struct BinaryModel {
    pub path: Seq<char>,
    pub args: Option<Seq<Seq<char>>>,
    pub env: EnvModel,
}

impl View for LanguageServerBinary {
    type V = BinaryModel;

    open spec fn view(&self) -> BinaryModel {
        BinaryModel { path: self.path@, args: self.args.deep_view(), env: self.env.deep_view() }
    }
}

/// A command line: the program, its arguments and its environment.
pub struct Command {
    pub command: String,
    pub args: Vec<String>,
    pub env: EnvVars,
}

/// What a command line stands for.
pub struct CommandModel {
    pub command: Seq<char>,
    pub args: Seq<Seq<char>>,
    pub env: EnvModel,
}

impl View for Command {
    type V = CommandModel;

    open spec fn view(&self) -> CommandModel {
        CommandModel { command: self.command@, args: self.args.deep_view(), env: self.env.deep_view() }
    }
}

/// The Swift language server, `sourcekit-lsp`.
pub struct SourceKitLsp {}

/// Whether the settings name a path to the binary.
pub open spec fn has_configured_path(settings: Option<SettingsModel>) -> bool {
    settings matches Some(s) && s.path is Some
}

/// The binary that runs the language server. A path in the settings wins,
/// with the arguments and only the environment that the settings give.
/// Else a binary of the server's name found on the worktree's search path,
/// with no arguments and the worktree's whole shell environment. Else the
/// toolchain dispatcher, asked for the server by name, with an empty
/// environment.
pub open spec fn resolve_binary(
    settings: Option<SettingsModel>,
    found: Option<Seq<char>>,
    shell_env: EnvModel,
) -> BinaryModel {
    if has_configured_path(settings) {
        BinaryModel {
            path: settings->0.path->0,
            args: settings->0.arguments,
            env: match settings->0.env {
                Some(e) => e,
                None => Seq::empty(),
            },
        }
    } else {
        match found {
            Some(p) => BinaryModel { path: p, args: Some(Seq::empty()), env: shell_env },
            None => BinaryModel {
                path: SourceKitLsp::FALLBACK_PATH@,
                args: Some(seq![SourceKitLsp::SERVER_ID@]),
                env: Seq::empty(),
            },
        }
    }
}

/// The command line that starts a binary: its arguments default to none.
pub open spec fn command_for(b: BinaryModel) -> CommandModel {
    CommandModel {
        command: b.path,
        args: match b.args {
            Some(a) => a,
            None => Seq::empty(),
        },
        env: b.env,
    }
}

pub open spec fn opt_settings(s: Option<CommandSettings>) -> Option<SettingsModel> {
    match s {
        Some(x) => Some(x@),
        None => None,
    }
}

/// A path in the settings wins: the binary is the same whatever the lookup
/// on the search path found and whatever the shell environment holds, and
/// its path is the configured one.
pub proof fn lemma_configured_path_wins(
    settings: Option<SettingsModel>,
    found: Option<Seq<char>>,
    other_found: Option<Seq<char>>,
    shell_env: EnvModel,
    other_shell_env: EnvModel,
)
    requires
        has_configured_path(settings),
    ensures
        resolve_binary(settings, found, shell_env) == resolve_binary(
            settings,
            other_found,
            other_shell_env,
        ),
        resolve_binary(settings, found, shell_env).path == settings->0.path->0,
{
}

/// Without a configured path, a binary found on the search path is used,
/// with no arguments and the whole shell environment.
pub proof fn lemma_found_binary_used(
    settings: Option<SettingsModel>,
    found: Seq<char>,
    shell_env: EnvModel,
)
    requires
        !has_configured_path(settings),
    ensures
        resolve_binary(settings, Some(found), shell_env) == (BinaryModel {
            path: found,
            args: Some(Seq::empty()),
            env: shell_env,
        }),
{
}

/// Without a configured path or a binary on the search path, the toolchain
/// dispatcher runs the server, given its name as the sole argument.
pub proof fn lemma_fallback_binary(settings: Option<SettingsModel>, shell_env: EnvModel)
    requires
        !has_configured_path(settings),
    ensures
        resolve_binary(settings, None, shell_env) == (BinaryModel {
            path: SourceKitLsp::FALLBACK_PATH@,
            args: Some(seq![SourceKitLsp::SERVER_ID@]),
            env: Seq::empty(),
        }),
{
}

impl SourceKitLsp {
    pub const SERVER_ID: &'static str = "sourcekit-lsp";

    /// The toolchain dispatcher that runs the server when nothing else is
    /// found.
    pub const FALLBACK_PATH: &'static str = "/usr/bin/xcrun";

    pub fn new() -> (r: Self) {
        SourceKitLsp {}
    }

    /// The arguments that a binary found without settings is given: none.
    pub fn get_executable_args() -> (r: Vec<String>)
        ensures
            r@.len() == 0,
    {
        Vec::new()
    }

    /// The binary to run, from the settings for this server (if any), the
    /// result of looking its name up on the worktree's search path, and
    /// the worktree's shell environment.
    pub fn language_server_binary(
        &self,
        settings: Option<CommandSettings>,
        found: Option<String>,
        shell_env: EnvVars,
    ) -> (r: LanguageServerBinary)
        ensures
            r@ == resolve_binary(opt_settings(settings), found.deep_view(), shell_env.deep_view()),
            settings matches Some(s) && s.path is Some && s.wf() ==> keys_unique(r@.env),
    {
        if let Some(binary_settings) = settings {
            if let Some(path) = binary_settings.path {
                let env = match binary_settings.env {
                    Some(e) => e,
                    None => Vec::new(),
                };
                let r = LanguageServerBinary { path, args: binary_settings.arguments, env };
                assert(r.env.deep_view() =~= resolve_binary(
                    opt_settings(settings),
                    found.deep_view(),
                    shell_env.deep_view(),
                ).env);
                return r;
            }
        }
        match found {
            Some(path) => {
                let r = LanguageServerBinary {
                    path,
                    args: Some(Self::get_executable_args()),
                    env: shell_env,
                };
                assert(r.args->0.deep_view() =~= Seq::<Seq<char>>::empty());
                r
            },
            None => {
                let r = LanguageServerBinary {
                    path: String::from_str(Self::FALLBACK_PATH),
                    args: Some(vec![String::from_str(Self::SERVER_ID)]),
                    env: Vec::new(),
                };
                assert(r.args->0.deep_view() =~= seq![Self::SERVER_ID@]);
                assert(r.env.deep_view() =~= Seq::<(Seq<char>, Seq<char>)>::empty());
                r
            },
        }
    }

    /// The command line that starts the server, from the same inputs as
    /// `language_server_binary`.
    pub fn language_server_command(
        &mut self,
        settings: Option<CommandSettings>,
        found: Option<String>,
        shell_env: EnvVars,
    ) -> (r: Command)
        ensures
            r@ == command_for(
                resolve_binary(opt_settings(settings), found.deep_view(), shell_env.deep_view()),
            ),
    {
        let binary = self.language_server_binary(settings, found, shell_env);
        let args = match binary.args {
            Some(a) => a,
            None => Self::get_executable_args(),
        };
        let r = Command { command: binary.path, args, env: binary.env };
        assert(r.args.deep_view() =~= command_for(binary@).args);
        r
    }
}

} // verus!
