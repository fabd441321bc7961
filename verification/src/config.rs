//! The settings of a peer: where the group is, how long the windows are, and
//! how much a datagram may hold.

use vstd::prelude::*;

verus! {

/// The settings of a peer. All times are in milliseconds.
#[derive(Clone, Copy, Debug, PartialEq, Eq)]
pub struct Config {
    /// The IPv4 address of the group that all traffic goes to and comes from.
    pub broadcast_group_address: [u8; 4],
    /// The port that the peer binds and sends to.
    pub broadcast_port: u16,
    /// How long a discovering peer waits for the answer of a leader.
    pub discovery_window_ms: u64,
    /// How long a peer that announced a round lets contenders arrive.
    pub election_window_ms: u64,
    /// The size of the receive buffer: a longer datagram is a fault.
    pub receive_buffer_size: usize,
    /// Whether a peer may see the datagrams that it sent itself.
    pub loopback_enabled: bool,
    /// How long a follower waits for its leader to answer a probe.
    pub probe_window_ms: u64,
    /// After how many probe windows in a row without an answer a follower
    /// gives its leader up.
    pub probe_limit: u32,
}

impl Config {
    /// The settings a peer runs with unless told otherwise: group 239.0.0.1,
    /// port 6000, windows of ten seconds, datagrams of up to 512 bytes,
    /// loopback on, and a leader given up after three silent windows.
    pub open spec fn standard() -> Config {
        Config {
            broadcast_group_address: [239u8, 0u8, 0u8, 1u8],
            broadcast_port: 6000,
            discovery_window_ms: 10_000,
            election_window_ms: 10_000,
            receive_buffer_size: 512,
            loopback_enabled: true,
            probe_window_ms: 10_000,
            probe_limit: 3,
        }
    }
}

impl Default for Config {
    fn default() -> (c: Config)
        ensures
            c == Config::standard(),
    {
        Config {
            broadcast_group_address: [239u8, 0u8, 0u8, 1u8],
            broadcast_port: 6000,
            discovery_window_ms: 10_000,
            election_window_ms: 10_000,
            receive_buffer_size: 512,
            loopback_enabled: true,
            probe_window_ms: 10_000,
            probe_limit: 3,
        }
    }
}

} // verus!
