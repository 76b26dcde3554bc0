use zed_swift::debug::{
    classify_request, config_to_scenario, resolve_adapter_binary, AdapterLookup, AttachRequest,
    DebugConfig, DebugRequest, LaunchRequest, RequestField, RequestKind, SwiftDebugConfig,
};
use zed_swift::error::SwiftError;

fn text(s: &str) -> RequestField {
    RequestField::Text {
        word: s.to_string(),
        shown: format!("String({s:?})"),
    }
}

fn launch_config(program: &str) -> DebugConfig {
    DebugConfig {
        label: "Run".to_string(),
        adapter: "Swift".to_string(),
        request: DebugRequest::Launch(LaunchRequest {
            program: program.to_string(),
            cwd: Some("/work".to_string()),
            envs: vec![("KEY".to_string(), "1".to_string())],
        }),
        stop_on_entry: Some(true),
    }
}

fn attach_config(pid: u32) -> DebugConfig {
    DebugConfig {
        label: "Attach".to_string(),
        adapter: "Swift".to_string(),
        request: DebugRequest::Attach(AttachRequest {
            process_id: Some(pid),
        }),
        stop_on_entry: None,
    }
}

fn parsed(request: &str, program: Option<&str>, cwd: Option<&str>) -> SwiftDebugConfig {
    SwiftDebugConfig {
        cwd: cwd.map(|c| c.to_string()),
        env: vec![("A".to_string(), "b".to_string())],
        program: program.map(|p| p.to_string()),
        pid: None,
        request: request.to_string(),
        stop_on_entry: None,
    }
}

fn no_lookup() -> AdapterLookup {
    AdapterLookup {
        swiftly: None,
        xcrun: None,
        lldb_dap: None,
    }
}

#[test]
fn classify_launch_and_attach() {
    assert!(matches!(classify_request(&text("launch")), Ok(RequestKind::Launch)));
    assert!(matches!(classify_request(&text("attach")), Ok(RequestKind::Attach)));
}

#[test]
fn classify_unexpected_value() {
    match classify_request(&text("debug")) {
        Err(SwiftError::UnexpectedRequest(v)) => assert_eq!(v, "String(\"debug\")"),
        _ => panic!("expected an unexpected-value error"),
    }
    match classify_request(&RequestField::Other {
        shown: "Number(42)".to_string(),
    }) {
        Err(SwiftError::UnexpectedRequest(v)) => assert_eq!(v, "Number(42)"),
        _ => panic!("expected an unexpected-value error"),
    }
    assert!(classify_request(&text("Launch")).is_err());
}

#[test]
fn classify_missing_field() {
    let missing = classify_request(&RequestField::Missing);
    assert!(matches!(missing, Err(SwiftError::MissingRequest)));
    let wrong = classify_request(&text("debug"));
    let missing_message = missing.err().unwrap().message();
    let wrong_message = wrong.err().unwrap().message();
    assert_ne!(missing_message, wrong_message);
    assert_eq!(
        missing_message,
        "Missing required `request` field in Swift debug adapter configuration"
    );
    assert_eq!(
        wrong_message,
        "Unexpected value for `request` key in Swift debug adapter configuration: String(\"debug\")"
    );
}

#[test]
fn launch_scenario_round_trip() {
    let scenario = config_to_scenario(launch_config("P"));
    assert_eq!(scenario.label, "Run");
    assert_eq!(scenario.adapter, "Swift");
    let config = &scenario.config;
    assert_eq!(config.request, "launch");
    assert_eq!(config.program.as_deref(), Some("P"));
    assert_eq!(config.cwd.as_deref(), Some("/work"));
    assert_eq!(config.env, vec![("KEY".to_string(), "1".to_string())]);
    assert_eq!(config.pid, None);
    assert_eq!(config.stop_on_entry, Some(true));
    let kind = classify_request(&text(&config.request));
    assert!(matches!(kind, Ok(RequestKind::Launch)));
}

#[test]
fn launch_scenario_env_is_a_map() {
    let mut config = launch_config("P");
    if let DebugRequest::Launch(launch) = &mut config.request {
        launch.envs = vec![
            ("A".to_string(), "1".to_string()),
            ("B".to_string(), "2".to_string()),
            ("A".to_string(), "3".to_string()),
        ];
    }
    let mut env = config_to_scenario(config).config.env;
    env.sort();
    assert_eq!(
        env,
        vec![
            ("A".to_string(), "3".to_string()),
            ("B".to_string(), "2".to_string()),
        ]
    );
}

#[test]
fn attach_scenario_round_trip() {
    let scenario = config_to_scenario(attach_config(42));
    let config = &scenario.config;
    assert_eq!(config.request, "attach");
    assert_eq!(config.pid, Some(42));
    assert!(config.program.is_none());
    assert!(config.cwd.is_none());
    assert!(config.env.is_empty());
    assert_eq!(config.stop_on_entry, None);
    let kind = classify_request(&text(&config.request));
    assert!(matches!(kind, Ok(RequestKind::Attach)));
}

#[test]
fn adapter_from_user_path() {
    let lookup = AdapterLookup {
        swiftly: Some("/bin/swiftly".to_string()),
        xcrun: Some("/usr/bin/xcrun".to_string()),
        lldb_dap: None,
    };
    let binary = resolve_adapter_binary(
        parsed("launch", Some("/work/app"), None),
        "{\"request\":\"launch\"}".to_string(),
        Some("/my/lldb-dap".to_string()),
        lookup,
        "/root".to_string(),
    )
    .ok()
    .unwrap();
    assert_eq!(binary.command, "/my/lldb-dap");
    assert!(binary.arguments.is_empty());
    assert_eq!(binary.cwd, "/root");
    assert_eq!(binary.envs, vec![("A".to_string(), "b".to_string())]);
    assert_eq!(binary.configuration, "{\"request\":\"launch\"}");
    assert_eq!(binary.request, RequestKind::Launch);
}

#[test]
fn adapter_through_swiftly_then_xcrun_then_bare() {
    let run = |lookup: AdapterLookup| {
        resolve_adapter_binary(
            parsed("attach", None, Some("/work")),
            "{}".to_string(),
            None,
            lookup,
            "/root".to_string(),
        )
        .ok()
        .unwrap()
    };
    let swiftly = run(AdapterLookup {
        swiftly: Some("/bin/swiftly".to_string()),
        xcrun: Some("/usr/bin/xcrun".to_string()),
        lldb_dap: Some("/bin/lldb-dap".to_string()),
    });
    assert_eq!(swiftly.command, "/bin/swiftly");
    assert_eq!(swiftly.arguments, vec!["run".to_string(), "lldb-dap".to_string()]);
    assert_eq!(swiftly.cwd, "/work");
    assert_eq!(swiftly.request, RequestKind::Attach);
    let xcrun = run(AdapterLookup {
        swiftly: None,
        xcrun: Some("/usr/bin/xcrun".to_string()),
        lldb_dap: Some("/bin/lldb-dap".to_string()),
    });
    assert_eq!(xcrun.command, "/usr/bin/xcrun");
    assert_eq!(xcrun.arguments, vec!["lldb-dap".to_string()]);
    let bare = run(AdapterLookup {
        swiftly: None,
        xcrun: None,
        lldb_dap: Some("/bin/lldb-dap".to_string()),
    });
    assert_eq!(bare.command, "/bin/lldb-dap");
    assert!(bare.arguments.is_empty());
}

#[test]
fn adapter_not_found() {
    let r = resolve_adapter_binary(
        parsed("launch", Some("/work/app"), None),
        "{}".to_string(),
        None,
        no_lookup(),
        "/root".to_string(),
    );
    match r {
        Err(e) => assert_eq!(e.message(), "Could not find lldb-dap"),
        Ok(_) => panic!("expected no adapter"),
    }
}

#[test]
fn adapter_rejects_bad_request() {
    let r = resolve_adapter_binary(
        parsed("debug", Some("/work/app"), None),
        "{}".to_string(),
        Some("/my/lldb-dap".to_string()),
        no_lookup(),
        "/root".to_string(),
    );
    assert!(matches!(r, Err(SwiftError::UnexpectedRequest(v)) if v == "\"debug\""));
}

#[test]
fn adapter_error_escapes_request_word() {
    let r = resolve_adapter_binary(
        parsed("a\"b", Some("/work/app"), None),
        "{}".to_string(),
        Some("/my/lldb-dap".to_string()),
        no_lookup(),
        "/root".to_string(),
    );
    match r {
        Err(e) => assert_eq!(
            e.message(),
            "Unexpected value for `request` key in Swift debug adapter configuration: \"a\\\"b\""
        ),
        Ok(_) => panic!("expected an unexpected-value error"),
    }
}

#[test]
fn launch_without_program_is_malformed() {
    let r = resolve_adapter_binary(
        parsed("launch", None, None),
        "{}".to_string(),
        Some("/my/lldb-dap".to_string()),
        no_lookup(),
        "/root".to_string(),
    );
    assert!(matches!(r, Err(SwiftError::MissingProgram)));
}
