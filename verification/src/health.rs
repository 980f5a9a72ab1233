//! Reachability of saved servers: the address a probe connects to and the
//! result shown for each saved connection.

use crate::db::ConnectionProfile;
use crate::text::{address, address_text};
use vstd::prelude::*;

verus! {

/// How long a probe waits for the TCP connection, in seconds.
pub const PROBE_TIMEOUT_SECS: u64 = 3;

/// Whether a server accepted a TCP connection.
#[derive(Clone, Copy, Debug, PartialEq, Eq, Structural)]
pub enum ServerStatus {
    Online,
    Offline,
}

/// The reachability of one saved connection.
#[derive(Debug)]
pub struct HealthResult {
    pub id: i64,
    pub hostname: String,
    pub port: i32,
    pub status: ServerStatus,
}

/// The address text `host:port` that a probe resolves and connects to.
pub fn probe_address(host: &str, port: u16) -> (s: String)
    ensures
        s@ == address_text(host@, port as int),
{
    address(host, port as i64)
}

/// The TCP port probed for a saved port: its low sixteen bits.
pub fn probe_port(port: i32) -> (r: u16)
    ensures
        r as int == port as int % 65536,
{
    let r: u16 = #[verifier::truncate] (port as u16);
    assert(r as int == port as int % 65536) by (bit_vector)
        requires
            r == #[verifier::truncate] (port as u16),
    ;
    r
}

/// The result shown for `profile` when its probe gave `status`.
pub fn health_result(profile: &ConnectionProfile, status: ServerStatus) -> (r: HealthResult)
    ensures
        r.id == profile.id,
        r.hostname == profile.hostname,
        r.port == profile.port,
        r.status == status,
{
    HealthResult { id: profile.id, hostname: profile.hostname.clone(), port: profile.port, status }
}

/// The status of a probe: online exactly when the address resolved to at
/// least one socket address and the TCP connection to the first succeeded.
pub fn probe_status(resolved: bool, connected: bool) -> (r: ServerStatus)
    ensures
        r == (if resolved && connected {
            ServerStatus::Online
        } else {
            ServerStatus::Offline
        }),
{
    if resolved && connected {
        ServerStatus::Online
    } else {
        ServerStatus::Offline
    }
}

/// `result` is what is shown for `profile` when its probe gave `status`.
pub open spec fn shows(result: HealthResult, profile: ConnectionProfile, status: ServerStatus) -> bool {
    &&& result.id == profile.id
    &&& result.hostname == profile.hostname
    &&& result.port == profile.port
    &&& result.status == status
}

/// The results shown for `profiles`, in their order, where the probe of the
/// `i`-th profile gave `statuses[i]`.
pub fn health_results(profiles: &Vec<ConnectionProfile>, statuses: &Vec<ServerStatus>) -> (r: Vec<
    HealthResult,
>)
    requires
        statuses@.len() == profiles@.len(),
    ensures
        r@.len() == profiles@.len(),
        forall|i: int|
            0 <= i < r@.len() ==> shows(#[trigger] r@[i], profiles@[i], statuses@[i]),
{
    let mut out: Vec<HealthResult> = Vec::new();
    let mut i: usize = 0;
    while i < profiles.len()
        invariant
            statuses@.len() == profiles@.len(),
            i <= profiles@.len(),
            out@.len() == i,
            forall|k: int|
                0 <= k < i ==> shows(#[trigger] out@[k], profiles@[k], statuses@[k]),
        decreases profiles@.len() - i,
    {
        out.push(health_result(&profiles[i], statuses[i]));
        i = i + 1;
    }
    out
}

} // verus!
