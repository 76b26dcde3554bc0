//! Debug configurations: the adapter-specific configuration built from the
//! host's launch or attach request, the kind of request a configuration
//! makes, and the binary of the debug adapter.
use vstd::prelude::*;

use crate::error::SwiftError;
use crate::env::{env_map, env_value, keys_unique, EnvVars};
use crate::text::same_text;

verus! {

/// Whether a debug session starts a program or attaches to a process.
#[derive(Clone, Copy, Debug, PartialEq, Eq, Structural)]
pub enum RequestKind {
    Launch,
    Attach,
}

/// The `request` field of a configuration as found: absent, a string, or
/// another JSON value. `shown` is how the value is written in a message.
pub enum RequestField {
    Missing,
    Text { word: String, shown: String },
    Other { shown: String },
}

/// The configuration that the debug adapter is given. `request` names the
/// kind of session; a launch names its `program`, an attach its `pid`.
/// `env` is a map: each name at most once.
pub struct SwiftDebugConfig {
    pub cwd: Option<String>,
    pub env: EnvVars,
    pub program: Option<String>,
    pub pid: Option<u32>,
    pub request: String,
    pub stop_on_entry: Option<bool>,
}

impl SwiftDebugConfig {
    /// Each environment variable is named at most once.
    pub open spec fn wf(&self) -> bool {
        keys_unique(self.env.deep_view())
    }
}

/// The host's request to start a program.
pub struct LaunchRequest {
    pub program: String,
    pub cwd: Option<String>,
    pub envs: EnvVars,
}

/// The host's request to attach to a process.
pub struct AttachRequest {
    pub process_id: Option<u32>,
}

/// The host's request for a debug session.
pub enum DebugRequest {
    Launch(LaunchRequest),
    Attach(AttachRequest),
}

/// A debug session as the host describes it, independent of the adapter.
pub struct DebugConfig {
    pub label: String,
    pub adapter: String,
    pub request: DebugRequest,
    pub stop_on_entry: Option<bool>,
}

/// A debug session for this adapter: the host's label and adapter name,
/// with the configuration that the adapter is given.
pub struct DebugScenario {
    pub label: String,
    pub adapter: String,
    pub config: SwiftDebugConfig,
}

/// What a lookup on the worktree's search path found for each of the
/// commands that can run the debug adapter.
pub struct AdapterLookup {
    pub swiftly: Option<String>,
    pub xcrun: Option<String>,
    pub lldb_dap: Option<String>,
}

/// How to start the debug adapter, and the session to ask it for.
pub struct DebugAdapterBinary {
    pub command: String,
    pub arguments: Vec<String>,
    pub envs: EnvVars,
    pub cwd: String,
    pub configuration: String,
    pub request: RequestKind,
}

/// The word for a launch request.
pub const LAUNCH: &'static str = "launch";

/// The word for an attach request.
pub const ATTACH: &'static str = "attach";

/// The swiftly toolchain manager, which runs lldb-dap from the selected
/// toolchain.
pub const SWIFTLY: &'static str = "swiftly";

/// The Xcode toolchain dispatcher.
pub const XCRUN: &'static str = "xcrun";

/// The debug adapter itself.
pub const LLDB_DAP: &'static str = "lldb-dap";

/// The word for a kind of request in a configuration.
pub open spec fn request_word(kind: RequestKind) -> Seq<char> {
    match kind {
        RequestKind::Launch => LAUNCH@,
        RequestKind::Attach => ATTACH@,
    }
}

/// The kind of request that a word names, if any.
pub open spec fn request_kind_of(word: Seq<char>) -> Option<RequestKind> {
    if word == LAUNCH@ {
        Some(RequestKind::Launch)
    } else if word == ATTACH@ {
        Some(RequestKind::Attach)
    } else {
        None
    }
}

/// The debug form of a string: quoted, with its special characters
/// escaped.
pub uninterp spec fn debug_of(s: Seq<char>) -> Seq<char>;

/// Relies on `<str as Debug>::fmt`, through `format!("{:?}")`: the quoted,
/// escaped form of the text, which depends on the text alone.
#[verifier::external_body]
fn debug_text(s: &str) -> (r: String)
    ensures
        r@ == debug_of(s@),
{
    format!("{:?}", s)
}

/// What classifying a request field gives: the kind it names; or, for a
/// value that names none, that value as written; or, for an absent field,
/// `MissingRequest`.
pub open spec fn classified(field: RequestField, r: Result<RequestKind, SwiftError>) -> bool {
    match field {
        RequestField::Text { word, shown } => match request_kind_of(word@) {
            Some(k) => r == Ok::<RequestKind, SwiftError>(k),
            None => r matches Err(SwiftError::UnexpectedRequest(v)) && v@ == shown@,
        },
        RequestField::Other { shown } => r matches Err(SwiftError::UnexpectedRequest(v)) && v@
            == shown@,
        RequestField::Missing => r matches Err(SwiftError::MissingRequest),
    }
}

/// The word for a kind of request.
pub fn request_name(kind: RequestKind) -> (r: &'static str)
    ensures
        r@ == request_word(kind),
{
    match kind {
        RequestKind::Launch => LAUNCH,
        RequestKind::Attach => ATTACH,
    }
}

/// The kind of request that a word names, if any.
pub fn request_kind(word: &str) -> (r: Option<RequestKind>)
    ensures
        r == request_kind_of(word@),
{
    if same_text(word, LAUNCH) {
        Some(RequestKind::Launch)
    } else if same_text(word, ATTACH) {
        Some(RequestKind::Attach)
    } else {
        None
    }
}

/// The kind of request that a configuration's `request` field makes.
pub fn classify_request(field: &RequestField) -> (r: Result<RequestKind, SwiftError>)
    ensures
        classified(*field, r),
{
    match field {
        RequestField::Text { word, shown } => match request_kind(word.as_str()) {
            Some(k) => Ok(k),
            None => Err(SwiftError::UnexpectedRequest(shown.clone())),
        },
        RequestField::Other { shown } => Err(SwiftError::UnexpectedRequest(shown.clone())),
        RequestField::Missing => Err(SwiftError::MissingRequest),
    }
}

/// The kind of request that the host asks for.
pub open spec fn debug_request_kind(request: DebugRequest) -> RequestKind {
    match request {
        DebugRequest::Launch(_) => RequestKind::Launch,
        DebugRequest::Attach(_) => RequestKind::Attach,
    }
}

/// `s` is the scenario for the host's debug configuration `c`: it keeps the
/// label, the adapter and the stop-on-entry flag; a launch gives the
/// program, its working directory and its environment as a map, where a
/// name given twice keeps its last value; an attach gives the process id
/// alone.
pub open spec fn is_scenario_for(c: DebugConfig, s: DebugScenario) -> bool {
    &&& s.label == c.label
    &&& s.adapter == c.adapter
    &&& s.config.stop_on_entry == c.stop_on_entry
    &&& s.config.wf()
    &&& s.config.request@ == request_word(debug_request_kind(c.request))
    &&& match c.request {
        DebugRequest::Launch(l) => {
            &&& s.config.program == Some(l.program)
            &&& s.config.cwd == l.cwd
            &&& forall|name: Seq<char>|
                env_value(s.config.env.deep_view(), name) == env_value(l.envs.deep_view(), name)
            &&& s.config.pid is None
        },
        DebugRequest::Attach(a) => {
            &&& s.config.program is None
            &&& s.config.cwd is None
            &&& s.config.env@.len() == 0
            &&& s.config.pid == a.process_id
        },
    }
}

/// The configuration for the adapter from the host's debug configuration.
pub fn config_to_scenario(c: DebugConfig) -> (r: DebugScenario)
    ensures
        is_scenario_for(c, r),
{
    let config = match c.request {
        DebugRequest::Launch(launch) => SwiftDebugConfig {
            cwd: launch.cwd,
            env: env_map(&launch.envs),
            program: Some(launch.program),
            pid: None,
            request: String::from_str(request_name(RequestKind::Launch)),
            stop_on_entry: c.stop_on_entry,
        },
        DebugRequest::Attach(attach) => {
            let env: EnvVars = Vec::new();
            assert(env.deep_view() =~= Seq::<(Seq<char>, Seq<char>)>::empty());
            SwiftDebugConfig {
                cwd: None,
                env,
                program: None,
                pid: attach.process_id,
                request: String::from_str(request_name(RequestKind::Attach)),
                stop_on_entry: c.stop_on_entry,
            }
        },
    };
    DebugScenario { label: c.label, adapter: c.adapter, config }
}

/// The kind of request written into a scenario's configuration is the one
/// read back from it: classifying its `request` field gives the kind of
/// the host's request.
pub proof fn lemma_scenario_request_round_trip(
    c: DebugConfig,
    s: DebugScenario,
    shown: String,
    r: Result<RequestKind, SwiftError>,
)
    requires
        is_scenario_for(c, s),
        classified(RequestField::Text { word: s.config.request, shown }, r),
    ensures
        r == Ok::<RequestKind, SwiftError>(debug_request_kind(c.request)),
{
    assert(LAUNCH@ != ATTACH@) by {
        reveal_strlit("launch");
        reveal_strlit("attach");
        assert(LAUNCH@[0] != ATTACH@[0]);
    }
}

/// The command and arguments that start the debug adapter: a path the user
/// gave, run bare; else swiftly, asked to run lldb-dap; else the Xcode
/// dispatcher, asked for lldb-dap; else lldb-dap found on the search path.
pub open spec fn adapter_command(
    user_path: Option<Seq<char>>,
    swiftly: Option<Seq<char>>,
    xcrun: Option<Seq<char>>,
    lldb_dap: Option<Seq<char>>,
) -> Option<(Seq<char>, Seq<Seq<char>>)> {
    match user_path {
        Some(p) => Some((p, Seq::empty())),
        None => match swiftly {
            Some(p) => Some((p, seq!["run"@, LLDB_DAP@])),
            None => match xcrun {
                Some(p) => Some((p, seq![LLDB_DAP@])),
                None => match lldb_dap {
                    Some(p) => Some((p, Seq::empty())),
                    None => None,
                },
            },
        },
    }
}

/// What resolving the adapter binary for `config` gives: an error for a
/// `request` that names no kind, for a launch without a program, or where
/// no command is found; else the command, the configuration's environment
/// and working directory (the worktree's root by default), the
/// configuration text unchanged and the kind of request.
pub open spec fn adapter_binary_result(
    config: SwiftDebugConfig,
    configuration: String,
    user_path: Option<String>,
    lookup: AdapterLookup,
    root_path: String,
    r: Result<DebugAdapterBinary, SwiftError>,
) -> bool {
    match request_kind_of(config.request@) {
        None => r matches Err(SwiftError::UnexpectedRequest(v)) && v@ == debug_of(
            config.request@,
        ),
        Some(k) => if k == RequestKind::Launch && config.program is None {
            r matches Err(SwiftError::MissingProgram)
        } else {
            match adapter_command(
                user_path.deep_view(),
                lookup.swiftly.deep_view(),
                lookup.xcrun.deep_view(),
                lookup.lldb_dap.deep_view(),
            ) {
                None => r matches Err(SwiftError::AdapterNotFound),
                Some((command, arguments)) => r matches Ok(b) && {
                    &&& b.command@ == command
                    &&& b.arguments.deep_view() == arguments
                    &&& b.envs == config.env
                    &&& b.cwd@ == match config.cwd {
                        Some(d) => d@,
                        None => root_path@,
                    }
                    &&& b.configuration == configuration
                    &&& b.request == k
                },
            }
        },
    }
}

/// The command and arguments that start the debug adapter, if one is found.
fn find_adapter_command(user_path: Option<String>, lookup: AdapterLookup) -> (r: Option<
    (String, Vec<String>),
>)
    ensures
        match adapter_command(
            user_path.deep_view(),
            lookup.swiftly.deep_view(),
            lookup.xcrun.deep_view(),
            lookup.lldb_dap.deep_view(),
        ) {
            Some((c, a)) => r matches Some(x) && x.0@ == c && x.1.deep_view() == a,
            None => r is None,
        },
{
    if let Some(path) = user_path {
        let args: Vec<String> = Vec::new();
        assert(args.deep_view() =~= Seq::<Seq<char>>::empty());
        return Some((path, args));
    }
    if let Some(swiftly) = lookup.swiftly {
        let args = vec![String::from_str("run"), String::from_str(LLDB_DAP)];
        assert(args.deep_view() =~= seq!["run"@, LLDB_DAP@]);
        return Some((swiftly, args));
    }
    if let Some(xcrun) = lookup.xcrun {
        let args = vec![String::from_str(LLDB_DAP)];
        assert(args.deep_view() =~= seq![LLDB_DAP@]);
        return Some((xcrun, args));
    }
    if let Some(lldb_dap) = lookup.lldb_dap {
        let args: Vec<String> = Vec::new();
        assert(args.deep_view() =~= Seq::<Seq<char>>::empty());
        return Some((lldb_dap, args));
    }
    None
}

/// How to start the debug adapter for a parsed configuration, from its
/// text, a path the user gave, the lookups on the search path and the
/// worktree's root.
pub fn resolve_adapter_binary(
    config: SwiftDebugConfig,
    configuration: String,
    user_path: Option<String>,
    lookup: AdapterLookup,
    root_path: String,
) -> (r: Result<DebugAdapterBinary, SwiftError>)
    ensures
        adapter_binary_result(config, configuration, user_path, lookup, root_path, r),
        config.wf() ==> (r matches Ok(b) ==> keys_unique(b.envs.deep_view())),
{
    let request = match request_kind(config.request.as_str()) {
        Some(k) => k,
        None => return Err(SwiftError::UnexpectedRequest(debug_text(config.request.as_str()))),
    };
    if request == RequestKind::Launch && config.program.is_none() {
        return Err(SwiftError::MissingProgram);
    }
    let (command, arguments) = match find_adapter_command(user_path, lookup) {
        Some(found) => found,
        None => return Err(SwiftError::AdapterNotFound),
    };
    let cwd = match config.cwd {
        Some(d) => d,
        None => root_path,
    };
    Ok(DebugAdapterBinary { command, arguments, envs: config.env, cwd, configuration, request })
}

} // verus!
