//! Starting and stopping the gateway: at most one runs at a time.

use crate::gateway::ProxyConfig;
use crate::text::{decimal, decimal_text};
use vstd::prelude::*;

verus! {

/// How long a forwarded request may take, in seconds.
pub const UPSTREAM_TIMEOUT_SECS: u64 = 300;

/// How many idle connections are kept for each session.
pub const POOL_MAX_IDLE_PER_HOST: usize = 10;

/// How long an idle connection is kept, in seconds.
pub const POOL_IDLE_TIMEOUT_SECS: u64 = 30;

/// Why the gateway does not start.
#[derive(Debug, Clone, Copy, PartialEq, Eq, Structural)]
pub enum StartError {
    /// A gateway runs already.
    AlreadyRunning,
}

/// What a gateway that may start is started with.
#[derive(Debug)]
pub struct ServerPlan {
    /// The address to listen on, as `host:port`.
    pub address: String,
    pub config: ProxyConfig,
}

/// Whether a gateway runs: whether its handle is kept.
pub fn is_server_running<H>(handle: &Option<H>) -> (running: bool)
    ensures
        running == (handle is Some),
{
    handle.is_some()
}

/// Prepares the start of the gateway. Where one runs already, the start
/// is refused; else the address to listen on and the configuration are
/// handed back.
pub fn start_server<H>(
    handle: &Option<H>,
    host: String,
    port: u16,
    prefix: String,
    proxy_api_key: String,
    trusted_hosts: Vec<Vec<String>>,
) -> (plan: Result<ServerPlan, StartError>)
    ensures
        match plan {
            Ok(plan) => {
                &&& handle is None
                &&& plan.address@ == host@ + ":"@ + decimal(port as int)
                &&& plan.config.prefix == prefix
                &&& plan.config.proxy_api_key == proxy_api_key
                &&& plan.config.trusted_hosts == trusted_hosts
            },
            Err(reason) => handle is Some && reason == StartError::AlreadyRunning,
        },
{
    if handle.is_some() {
        return Err(StartError::AlreadyRunning);
    }
    let mut address = host;
    address.append(":");
    let digits = decimal_text(port as i32);
    address.append(digits.as_str());
    Ok(ServerPlan { address, config: ProxyConfig { prefix, proxy_api_key, trusted_hosts } })
}

/// Stops the gateway: takes its handle, for the caller to abort. Where
/// none runs, nothing happens.
pub fn stop_server<H>(handle: &mut Option<H>) -> (taken: Option<H>)
    ensures
        *final(handle) is None,
        taken == *old(handle),
{
    handle.take()
}

/// What `StartError` says in words.
pub fn start_error_message(reason: StartError) -> (message: String)
    ensures
        message@ == "Server is already running"@,
{
    "Server is already running".to_string()
}

} // verus!
