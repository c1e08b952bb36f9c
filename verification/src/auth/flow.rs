//! Authentication flows and the preference detector that picks one from
//! environment signals.

use vstd::prelude::*;

use crate::strutil::{chars_eq_str, chars_to_string, lower_chars, str_chars, to_ascii_lower};

verus! {

/// Authentication flows supported by the core.
#[derive(Debug, Clone, Copy, PartialEq, Eq, Structural)]
pub enum AuthFlow {
    Browser,
    Manual,
    ApiKey,
    ClientCredentials,
}

/// Error reported when parsing an unsupported flow; the payload is the
/// case-folded text that failed to parse.
#[derive(Debug, Clone)]
pub struct InvalidFlow(pub String);

/// The flow named by `s` once case-folded: each flow has a set of accepted
/// spellings, and anything else is rejected.
pub open spec fn spec_parse_flow(s: Seq<char>) -> Option<AuthFlow> {
    let l = lower_chars(s);
    if l == "browser"@ {
        Some(AuthFlow::Browser)
    } else if l == "manual"@ || l == "code"@ {
        Some(AuthFlow::Manual)
    } else if l == "api-key"@ || l == "apikey"@ || l == "key"@ {
        Some(AuthFlow::ApiKey)
    } else if l == "client"@ || l == "client-credentials"@ || l == "cc"@ {
        Some(AuthFlow::ClientCredentials)
    } else {
        None
    }
}

impl AuthFlow {
    /// Parse a free-text flow override, case-insensitively.
    pub fn parse_flow(s: &str) -> (r: Result<AuthFlow, InvalidFlow>)
        ensures
            match spec_parse_flow(s@) {
                Some(f) => r matches Ok(g) && g == f,
                None => r matches Err(e) && e.0@ == lower_chars(s@),
            },
    {
        let chars = str_chars(s);
        let l = to_ascii_lower(&chars);
        if chars_eq_str(&l, "browser") {
            Ok(AuthFlow::Browser)
        } else if chars_eq_str(&l, "manual") || chars_eq_str(&l, "code") {
            Ok(AuthFlow::Manual)
        } else if chars_eq_str(&l, "api-key") || chars_eq_str(&l, "apikey") || chars_eq_str(
            &l,
            "key",
        ) {
            Ok(AuthFlow::ApiKey)
        } else if chars_eq_str(&l, "client") || chars_eq_str(&l, "client-credentials")
            || chars_eq_str(&l, "cc") {
            Ok(AuthFlow::ClientCredentials)
        } else {
            Err(InvalidFlow(chars_to_string(&l)))
        }
    }

    /// The flow's canonical spelling.
    pub fn as_str(&self) -> (r: &'static str)
        ensures
            r@ == spec_flow_name(*self),
    {
        match self {
            AuthFlow::Browser => "browser",
            AuthFlow::Manual => "manual",
            AuthFlow::ApiKey => "api-key",
            AuthFlow::ClientCredentials => "client-credentials",
        }
    }
}

/// The canonical spelling of each flow.
pub open spec fn spec_flow_name(f: AuthFlow) -> Seq<char> {
    match f {
        AuthFlow::Browser => "browser"@,
        AuthFlow::Manual => "manual"@,
        AuthFlow::ApiKey => "api-key"@,
        AuthFlow::ClientCredentials => "client-credentials"@,
    }
}

impl core::str::FromStr for AuthFlow {
    type Err = InvalidFlow;

    fn from_str(s: &str) -> Result<AuthFlow, InvalidFlow> {
        AuthFlow::parse_flow(s)
    }
}

/// Environment signals that decide which flow to start with. The surrounding
/// program reads them from the process environment and hands them over as
/// plain values.
#[derive(Debug, Clone, Copy)]
pub struct FlowSignals {
    /// An explicit flow override, already parsed, if one was given.
    pub override_flow: Option<AuthFlow>,
    /// A no-browser override is present.
    pub no_browser: bool,
    /// The process runs inside an SSH session.
    pub ssh_session: bool,
    /// An X11 display variable is present.
    pub x11_display: bool,
    /// A Wayland display variable is present.
    pub wayland_display: bool,
    /// The operating system is assumed browser-capable on its own.
    pub os_graphical: bool,
}

/// Whether signals short of an explicit override make a browser launch safe:
/// a no-browser override forces unavailable; SSH without a display forces
/// unavailable; a graphical display forces available; otherwise the per-OS
/// heuristic decides.
pub open spec fn spec_browser_available(s: FlowSignals) -> bool {
    if s.no_browser {
        false
    } else if s.ssh_session && !s.x11_display {
        false
    } else if s.x11_display || s.wayland_display {
        true
    } else {
        s.os_graphical
    }
}

/// The preferred flow for the given signals: an explicit override wins
/// outright; otherwise Browser exactly when a browser is available, else
/// Manual.
pub open spec fn spec_preferred_flow(s: FlowSignals) -> AuthFlow {
    match s.override_flow {
        Some(f) => f,
        None => if spec_browser_available(s) {
            AuthFlow::Browser
        } else {
            AuthFlow::Manual
        },
    }
}

/// Whether the detector recommends launching the browser automatically.
pub open spec fn spec_flow_browser_available(s: FlowSignals) -> bool {
    match s.override_flow {
        Some(f) => f == AuthFlow::Browser,
        None => spec_browser_available(s),
    }
}

/// The flow recommendation derived from environment signals. Never persisted.
#[derive(Debug, Clone, Copy)]
pub struct FlowPreference {
    preferred: AuthFlow,
    browser_available: bool,
}

impl FlowPreference {
    /// The recommended flow, for specifications.
    pub closed spec fn preferred_view(&self) -> AuthFlow {
        self.preferred
    }

    /// Whether a browser launch is recommended, for specifications.
    pub closed spec fn browser_available_view(&self) -> bool {
        self.browser_available
    }

    /// Derive the preference from environment signals: an explicit override
    /// wins outright (with the browser available only when it names the
    /// browser flow); otherwise the browser-availability signals decide.
    pub fn detect_from(signals: FlowSignals) -> (r: FlowPreference)
        ensures
            r.preferred_view() == spec_preferred_flow(signals),
            r.browser_available_view() == spec_flow_browser_available(signals),
    {
        match signals.override_flow {
            Some(flow) => FlowPreference {
                preferred: flow,
                browser_available: matches!(flow, AuthFlow::Browser),
            },
            None => {
                let available = if signals.no_browser {
                    false
                } else if signals.ssh_session && !signals.x11_display {
                    false
                } else if signals.x11_display || signals.wayland_display {
                    true
                } else {
                    signals.os_graphical
                };
                FlowPreference {
                    preferred: if available {
                        AuthFlow::Browser
                    } else {
                        AuthFlow::Manual
                    },
                    browser_available: available,
                }
            },
        }
    }

    /// Preferred flow to offer to the user.
    pub fn preferred(&self) -> (r: AuthFlow)
        ensures
            r == self.preferred_view(),
    {
        self.preferred
    }

    /// Whether we should attempt to spawn the system browser automatically.
    pub fn browser_available(&self) -> (r: bool)
        ensures
            r == self.browser_available_view(),
    {
        self.browser_available
    }
}

} // verus!
