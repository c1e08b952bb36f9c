use linear_core::auth::flow::{AuthFlow, FlowPreference, FlowSignals};

#[test]
fn parse_flow_variants() {
    assert_eq!("browser".parse::<AuthFlow>().unwrap(), AuthFlow::Browser);
    assert_eq!("manual".parse::<AuthFlow>().unwrap(), AuthFlow::Manual);
    assert_eq!("api-key".parse::<AuthFlow>().unwrap(), AuthFlow::ApiKey);
    assert_eq!(
        "client-credentials".parse::<AuthFlow>().unwrap(),
        AuthFlow::ClientCredentials
    );
}

#[test]
fn invalid_flow() {
    let err = "unknown".parse::<AuthFlow>().unwrap_err();
    assert_eq!(err.0, "unknown");
}

#[test]
fn parse_flow_is_case_insensitive() {
    assert_eq!("BROWSER".parse::<AuthFlow>().unwrap(), AuthFlow::Browser);
    assert_eq!("Code".parse::<AuthFlow>().unwrap(), AuthFlow::Manual);
    assert_eq!("ApiKey".parse::<AuthFlow>().unwrap(), AuthFlow::ApiKey);
    assert_eq!("CC".parse::<AuthFlow>().unwrap(), AuthFlow::ClientCredentials);
    assert_eq!("key".parse::<AuthFlow>().unwrap(), AuthFlow::ApiKey);
    assert_eq!("client".parse::<AuthFlow>().unwrap(), AuthFlow::ClientCredentials);
}

#[test]
fn invalid_flow_reports_folded_text() {
    let err = "UNKNOWN".parse::<AuthFlow>().unwrap_err();
    assert_eq!(err.0, "unknown");
}

#[test]
fn flow_names() {
    assert_eq!(AuthFlow::Browser.as_str(), "browser");
    assert_eq!(AuthFlow::Manual.as_str(), "manual");
    assert_eq!(AuthFlow::ApiKey.as_str(), "api-key");
    assert_eq!(AuthFlow::ClientCredentials.as_str(), "client-credentials");
}

fn signals() -> FlowSignals {
    FlowSignals {
        override_flow: None,
        no_browser: false,
        ssh_session: false,
        x11_display: false,
        wayland_display: false,
        os_graphical: false,
    }
}

#[test]
fn explicit_override_wins_outright() {
    let p = FlowPreference::detect_from(FlowSignals {
        override_flow: Some(AuthFlow::Manual),
        x11_display: true,
        ..signals()
    });
    assert_eq!(p.preferred(), AuthFlow::Manual);
    assert!(!p.browser_available());

    let p = FlowPreference::detect_from(FlowSignals {
        override_flow: Some(AuthFlow::Browser),
        no_browser: true,
        ..signals()
    });
    assert_eq!(p.preferred(), AuthFlow::Browser);
    assert!(p.browser_available());
}

#[test]
fn no_browser_override_forces_manual() {
    let p = FlowPreference::detect_from(FlowSignals {
        no_browser: true,
        x11_display: true,
        ..signals()
    });
    assert_eq!(p.preferred(), AuthFlow::Manual);
    assert!(!p.browser_available());
}

#[test]
fn ssh_without_display_forces_manual() {
    let p = FlowPreference::detect_from(FlowSignals {
        ssh_session: true,
        os_graphical: true,
        ..signals()
    });
    assert_eq!(p.preferred(), AuthFlow::Manual);

    let p = FlowPreference::detect_from(FlowSignals {
        ssh_session: true,
        x11_display: true,
        ..signals()
    });
    assert_eq!(p.preferred(), AuthFlow::Browser);
}

#[test]
fn display_forces_browser_and_os_heuristic_is_fallback() {
    let p = FlowPreference::detect_from(FlowSignals {
        wayland_display: true,
        ..signals()
    });
    assert_eq!(p.preferred(), AuthFlow::Browser);
    assert!(p.browser_available());

    let p = FlowPreference::detect_from(FlowSignals {
        os_graphical: true,
        ..signals()
    });
    assert_eq!(p.preferred(), AuthFlow::Browser);

    let p = FlowPreference::detect_from(signals());
    assert_eq!(p.preferred(), AuthFlow::Manual);
    assert!(!p.browser_available());
}
