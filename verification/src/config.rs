//! The settings of the gateway.
use vstd::prelude::*;

use crate::bridge::{Bridge, BridgeState, Phase, Subscription};
use crate::request::text_view;

verus! {

/// The logging verbosity when none is set.
pub const DEFAULT_LOG_LEVEL: &'static str = "debug";

/// Bridge for connecting to an MCP server and processing messages via stdio.
pub struct Config {
    /// MCP endpoint URL
    pub endpoint: String,
    /// Set logging verbosity
    pub log_level: String,
    /// Authentication token
    pub auth_token: Option<String>,
}

impl Config {
    /// The bridge that the settings ask for: it has no session and no subscription yet,
    /// and is to be started.
    pub fn into_bridge(self) -> (bridge: Bridge)
        ensures
            bridge@ == (BridgeState {
                endpoint: self.endpoint@,
                auth_token: text_view(self.auth_token),
                session_id: None,
                phase: Phase::Starting,
                subscription: Subscription::Idle,
            }),
            bridge@.well_formed(),
    {
        Bridge::new(self.endpoint, self.auth_token)
    }
}

} // verus!
