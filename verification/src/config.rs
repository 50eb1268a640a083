//! The agent's configuration and its defaults.

use vstd::prelude::*;

verus! {

/// What the configuration file may set; every key is optional.
#[derive(Debug, Clone)]
pub struct WsConfig {
    pub bind: Option<String>,
    pub ws_port: Option<u16>,
    pub inter_ws_port: Option<u16>,
}

/// The configuration the listeners run with, every field settled.
#[derive(Debug, Clone)]
pub struct ResolvedWsConfig {
    pub bind: String,
    pub ws_port: u16,
    pub inter_ws_port: u16,
}

/// Fills the defaults in: bind on all interfaces, workspace port 6123,
/// inter-workspace port 6122.
pub fn resolve_config(config: WsConfig) -> (r: ResolvedWsConfig)
    ensures
        r.bind@ == match config.bind.deep_view() {
            Some(b) => b,
            None => "0.0.0.0"@,
        },
        r.ws_port == match config.ws_port {
            Some(p) => p,
            None => 6123u16,
        },
        r.inter_ws_port == match config.inter_ws_port {
            Some(p) => p,
            None => 6122u16,
        },
{
    ResolvedWsConfig {
        bind: match config.bind {
            Some(b) => b,
            None => String::from_str("0.0.0.0"),
        },
        ws_port: match config.ws_port {
            Some(p) => p,
            None => 6123,
        },
        inter_ws_port: match config.inter_ws_port {
            Some(p) => p,
            None => 6122,
        },
    }
}

} // verus!
