//! The extension as the host sees it: each callback dispatched by the name
//! of the language server or debug adapter it is for.
use vstd::prelude::*;

use crate::debug::{
    adapter_binary_result, classified, classify_request, config_to_scenario, is_scenario_for,
    resolve_adapter_binary, AdapterLookup, DebugAdapterBinary, DebugConfig, DebugScenario,
    RequestField, RequestKind, SwiftDebugConfig,
};
use crate::error::{is_unknown_adapter, SwiftError};
use crate::labels::{
    completion_label, opt_label, opt_text, symbol_label, CodeLabel, Completion, Symbol,
};
use crate::language_server::{
    command_for, opt_settings, resolve_binary, Command, CommandSettings, SourceKitLsp,
};
use crate::env::EnvVars;
use crate::text::same_text;

verus! {

/// The Swift extension. The language server is created when the host first
/// asks for its command, and kept from then on.
pub struct SwiftExtension {
    pub sourcekit_lsp: Option<SourceKitLsp>,
}

/// Whether a language server name is the one this extension provides.
pub open spec fn is_own_server(language_server_id: Seq<char>) -> bool {
    language_server_id == SourceKitLsp::SERVER_ID@
}

/// Whether the language server's labels are given for this server name.
pub open spec fn labels_offered(ext: SwiftExtension, language_server_id: Seq<char>) -> bool {
    is_own_server(language_server_id) && ext.sourcekit_lsp is Some
}

/// A server name that the command callback refuses as unknown gets no
/// label from the label callbacks, whatever state the extension is in:
/// label requests for other servers have no result rather than an error.
pub proof fn lemma_unknown_server_has_no_labels(ext: SwiftExtension, language_server_id: Seq<char>)
    requires
        !is_own_server(language_server_id),
    ensures
        !labels_offered(ext, language_server_id),
{
}

impl SwiftExtension {
    /// The name of the debug adapter that this extension provides.
    pub const ADAPTER_NAME: &'static str = "Swift";

    pub fn new() -> (r: Self)
        ensures
            r.sourcekit_lsp is None,
    {
        SwiftExtension { sourcekit_lsp: None }
    }

    /// The command line that starts a language server, from the result of
    /// reading its settings, the lookup of its binary on the worktree's
    /// search path, and the worktree's shell environment. A server other
    /// than `sourcekit-lsp` is an error.
    pub fn language_server_command(
        &mut self,
        language_server_id: &str,
        settings: Result<Option<CommandSettings>, String>,
        found: Option<String>,
        shell_env: EnvVars,
    ) -> (r: Result<Command, SwiftError>)
        ensures
            is_own_server(language_server_id@) ==> {
                &&& final(self).sourcekit_lsp is Some
                &&& match settings {
                    Ok(s) => r matches Ok(c) && c@ == command_for(
                        resolve_binary(opt_settings(s), found.deep_view(), shell_env.deep_view()),
                    ),
                    Err(e) => r matches Err(SwiftError::Settings(m)) && m == e,
                }
            },
            !is_own_server(language_server_id@) ==> {
                &&& final(self).sourcekit_lsp == old(self).sourcekit_lsp
                &&& r matches Err(SwiftError::UnknownLanguageServer(id)) && id@
                    == language_server_id@
            },
    {
        if !same_text(language_server_id, SourceKitLsp::SERVER_ID) {
            return Err(SwiftError::UnknownLanguageServer(String::from_str(language_server_id)));
        }
        let mut lsp = match self.sourcekit_lsp.take() {
            Some(lsp) => lsp,
            None => SourceKitLsp::new(),
        };
        let r = match settings {
            Ok(s) => Ok(lsp.language_server_command(s, found, shell_env)),
            Err(e) => Err(SwiftError::Settings(e)),
        };
        self.sourcekit_lsp = Some(lsp);
        r
    }

    /// The label of a completion from a language server: none for another
    /// server, or before the language server was started.
    pub fn label_for_completion(&self, language_server_id: &str, completion: Completion) -> (r:
        Option<CodeLabel>)
        ensures
            opt_label(r) == if labels_offered(*self, language_server_id@) {
                completion_label(completion.label@, opt_text(completion.detail), completion.kind)
            } else {
                None
            },
    {
        if !same_text(language_server_id, SourceKitLsp::SERVER_ID) {
            return None;
        }
        match &self.sourcekit_lsp {
            Some(lsp) => lsp.label_for_completion(completion),
            None => None,
        }
    }

    /// The label of a symbol from a language server: none for another
    /// server, or before the language server was started.
    pub fn label_for_symbol(&self, language_server_id: &str, symbol: Symbol) -> (r: Option<
        CodeLabel,
    >)
        ensures
            opt_label(r) == if labels_offered(*self, language_server_id@) {
                symbol_label(symbol.kind, symbol.name@)
            } else {
                None
            },
    {
        if !same_text(language_server_id, SourceKitLsp::SERVER_ID) {
            return None;
        }
        match &self.sourcekit_lsp {
            Some(lsp) => lsp.label_for_symbol(symbol),
            None => None,
        }
    }

    /// Whether this extension provides the named debug adapter; the error
    /// for one that it does not.
    pub fn check_adapter(adapter_name: &str) -> (r: Result<(), SwiftError>)
        ensures
            adapter_name@ == Self::ADAPTER_NAME@ ==> r is Ok,
            adapter_name@ != Self::ADAPTER_NAME@ ==> is_unknown_adapter(r, adapter_name@),
    {
        if same_text(adapter_name, Self::ADAPTER_NAME) {
            Ok(())
        } else {
            Err(SwiftError::UnknownAdapter(String::from_str(adapter_name)))
        }
    }

    /// How to start the debug adapter for a parsed configuration and its
    /// text, from a path the user gave, the lookups on the worktree's search
    /// path and the worktree's root.
    pub fn get_dap_binary(
        &mut self,
        adapter_name: &str,
        config: SwiftDebugConfig,
        configuration: String,
        user_provided_debug_adapter_path: Option<String>,
        lookup: AdapterLookup,
        root_path: String,
    ) -> (r: Result<DebugAdapterBinary, SwiftError>)
        ensures
            *final(self) == *old(self),
            adapter_name@ == Self::ADAPTER_NAME@ ==> adapter_binary_result(
                config,
                configuration,
                user_provided_debug_adapter_path,
                lookup,
                root_path,
                r,
            ),
            adapter_name@ != Self::ADAPTER_NAME@ ==> is_unknown_adapter(r, adapter_name@),
    {
        match Self::check_adapter(adapter_name) {
            Ok(()) => {},
            Err(e) => return Err(e),
        }
        resolve_adapter_binary(
            config,
            configuration,
            user_provided_debug_adapter_path,
            lookup,
            root_path,
        )
    }

    /// The kind of request that a debug configuration makes, from its
    /// `request` field.
    pub fn dap_request_kind(&mut self, adapter_name: &str, request: RequestField) -> (r: Result<
        RequestKind,
        SwiftError,
    >)
        ensures
            *final(self) == *old(self),
            adapter_name@ == Self::ADAPTER_NAME@ ==> classified(request, r),
            adapter_name@ != Self::ADAPTER_NAME@ ==> is_unknown_adapter(r, adapter_name@),
    {
        match Self::check_adapter(adapter_name) {
            Ok(()) => {},
            Err(e) => return Err(e),
        }
        classify_request(&request)
    }

    /// The scenario for the host's debug configuration.
    pub fn dap_config_to_scenario(&mut self, config: DebugConfig) -> (r: DebugScenario)
        ensures
            *final(self) == *old(self),
            is_scenario_for(config, r),
    {
        config_to_scenario(config)
    }
}

} // verus!
