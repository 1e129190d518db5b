use vstd::prelude::*;

verus! {

/// Connection settings for the channels to the nodes. Durations are in milliseconds.
#[derive(Clone, Copy, Debug, PartialEq, Eq, Structural)]
pub struct EndpointConfig {
    pub connect_timeout: Option<u64>,
    pub http2_keep_alive_interval: Option<u64>,
    pub http2_keep_alive_timeout: Option<u64>,
    pub http2_keep_alive_while_idle: Option<bool>,
    pub tcp_keepalive: Option<u64>,
}

/// The default settings: ten-second connect timeout, keep-alive timeout and TCP
/// keep-alive, keep-alive while idle, no keep-alive interval.
pub open spec fn default_endpoint_config() -> EndpointConfig {
    EndpointConfig {
        connect_timeout: Some(10_000),
        http2_keep_alive_interval: None,
        http2_keep_alive_timeout: Some(10_000),
        http2_keep_alive_while_idle: Some(true),
        tcp_keepalive: Some(10_000),
    }
}

impl EndpointConfig {
    /// The default settings.
    pub fn new() -> (r: EndpointConfig)
        ensures
            r == default_endpoint_config(),
    {
        EndpointConfig {
            connect_timeout: Some(10_000),
            http2_keep_alive_interval: None,
            http2_keep_alive_timeout: Some(10_000),
            http2_keep_alive_while_idle: Some(true),
            tcp_keepalive: Some(10_000),
        }
    }
}

} // verus!
