use vstd::prelude::*;

verus! {

/// Parameters of one browsing call. Immutable once constructed: each call
/// gets a fresh configuration and a fresh, fully isolated browser session.
#[derive(Debug, Clone, PartialEq, Eq)]
pub struct SessionConfig {
    /// Target to navigate to; expected to be an absolute URI. A malformed or
    /// unroutable value is not rejected up front: navigation reports it.
    pub url: String,
    /// Apply anti-detection countermeasures before idle detection runs.
    pub stealth: bool,
    /// Launch the browser without a visible window.
    pub headless: bool,
}

impl SessionConfig {
    /// A configuration with the default behaviour: stealth on, headless on.
    pub fn new(url: String) -> (r: SessionConfig)
        ensures
            r.url == url,
            r.stealth,
            r.headless,
    {
        SessionConfig { url, stealth: true, headless: true }
    }

    /// Build a configuration from the caller-facing switches, each of which
    /// disables a default: `no_stealth` turns stealth off, `with_head` turns
    /// headless off.
    pub fn from_flags(url: String, no_stealth: bool, with_head: bool) -> (r: SessionConfig)
        ensures
            r.url == url,
            r.stealth == !no_stealth,
            r.headless == !with_head,
    {
        SessionConfig { url, stealth: !no_stealth, headless: !with_head }
    }
}

} // verus!
