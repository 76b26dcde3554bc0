use zed_swift::debug::{AdapterLookup, RequestField, RequestKind, SwiftDebugConfig};
use zed_swift::error::SwiftError;
use zed_swift::extension::SwiftExtension;
use zed_swift::labels::{Completion, CompletionKind, Symbol, SymbolKind};

fn completion() -> Completion {
    Completion {
        label: "print(_:)".to_string(),
        detail: None,
        kind: Some(CompletionKind::Function),
    }
}

fn symbol() -> Symbol {
    Symbol {
        kind: SymbolKind::Function,
        name: "main".to_string(),
    }
}

#[test]
fn unknown_server_is_an_error_for_commands_only() {
    let mut ext = SwiftExtension::new();
    let r = ext.language_server_command("rust-analyzer", Ok(None), None, Vec::new());
    match r {
        Err(SwiftError::UnknownLanguageServer(id)) => assert_eq!(id, "rust-analyzer"),
        _ => panic!("expected an unknown-server error"),
    }
    assert!(ext.sourcekit_lsp.is_none());
    ext.language_server_command("sourcekit-lsp", Ok(None), None, Vec::new())
        .ok()
        .unwrap();
    assert!(ext.label_for_completion("rust-analyzer", completion()).is_none());
    assert!(ext.label_for_symbol("rust-analyzer", symbol()).is_none());
}

#[test]
fn unknown_server_message() {
    let e = SwiftError::UnknownLanguageServer("clangd".to_string());
    assert_eq!(e.message(), "Unknown language server: clangd");
}

#[test]
fn server_is_created_on_first_command() {
    let mut ext = SwiftExtension::new();
    assert!(ext.label_for_completion("sourcekit-lsp", completion()).is_none());
    assert!(ext.label_for_symbol("sourcekit-lsp", symbol()).is_none());
    let command = ext
        .language_server_command(
            "sourcekit-lsp",
            Ok(None),
            Some("/usr/bin/sourcekit-lsp".to_string()),
            vec![("PATH".to_string(), "/usr/bin".to_string())],
        )
        .ok()
        .unwrap();
    assert_eq!(command.command, "/usr/bin/sourcekit-lsp");
    assert!(ext.sourcekit_lsp.is_some());
    let label = ext.label_for_completion("sourcekit-lsp", completion()).unwrap();
    assert_eq!(label.code, "func print(_:) {}");
    let label = ext.label_for_symbol("sourcekit-lsp", symbol()).unwrap();
    assert_eq!(label.code, "func main");
}

#[test]
fn settings_error_is_passed_on() {
    let mut ext = SwiftExtension::new();
    let r = ext.language_server_command(
        "sourcekit-lsp",
        Err("bad settings".to_string()),
        None,
        Vec::new(),
    );
    assert!(matches!(r, Err(SwiftError::Settings(m)) if m == "bad settings"));
    assert!(ext.sourcekit_lsp.is_some());
}

#[test]
fn unknown_adapter_is_refused() {
    let mut ext = SwiftExtension::new();
    let r = ext.dap_request_kind("CodeLLDB", RequestField::Text {
            word: "launch".to_string(),
            shown: "String(\"launch\")".to_string(),
        });
    match r {
        Err(e) => assert_eq!(e.message(), "Cannot create binary for adapter: CodeLLDB"),
        Ok(_) => panic!("expected an unknown-adapter error"),
    }
    let config = SwiftDebugConfig {
        cwd: None,
        env: Vec::new(),
        program: Some("/app".to_string()),
        pid: None,
        request: "launch".to_string(),
        stop_on_entry: None,
    };
    let lookup = AdapterLookup {
        swiftly: None,
        xcrun: None,
        lldb_dap: Some("/bin/lldb-dap".to_string()),
    };
    let r = ext.get_dap_binary("CodeLLDB", config, "{}".to_string(), None, lookup, "/".to_string());
    assert!(matches!(r, Err(SwiftError::UnknownAdapter(n)) if n == "CodeLLDB"));
    assert!(SwiftExtension::check_adapter("Swift").is_ok());
}

#[test]
fn swift_adapter_classifies_requests() {
    let mut ext = SwiftExtension::new();
    let r = ext.dap_request_kind("Swift", RequestField::Text {
            word: "attach".to_string(),
            shown: "String(\"attach\")".to_string(),
        });
    assert!(matches!(r, Ok(RequestKind::Attach)));
    let r = ext.dap_request_kind("Swift", RequestField::Missing);
    assert!(matches!(r, Err(SwiftError::MissingRequest)));
}

#[test]
fn swift_adapter_binary() {
    let mut ext = SwiftExtension::new();
    let config = SwiftDebugConfig {
        cwd: None,
        env: Vec::new(),
        program: Some("/app".to_string()),
        pid: None,
        request: "launch".to_string(),
        stop_on_entry: Some(false),
    };
    let lookup = AdapterLookup {
        swiftly: None,
        xcrun: Some("/usr/bin/xcrun".to_string()),
        lldb_dap: None,
    };
    let binary = ext
        .get_dap_binary("Swift", config, "{}".to_string(), None, lookup, "/proj".to_string())
        .ok()
        .unwrap();
    assert_eq!(binary.command, "/usr/bin/xcrun");
    assert_eq!(binary.arguments, vec!["lldb-dap".to_string()]);
    assert_eq!(binary.cwd, "/proj");
    assert_eq!(binary.request, RequestKind::Launch);
}
