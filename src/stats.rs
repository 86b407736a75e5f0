use vstd::prelude::*;

verus! {

/// Timing milestones of one connection's setup, as monotonic clock readings.
///
/// The raw connector fills the first five fields; the TLS layer adds the
/// handshake's start and end.
#[derive(Clone, Copy, Debug, PartialEq, Eq, Structural)]
pub struct ConnectionStats {
    pub start_time: u64,
    pub dns_resolve_start: Option<u64>,
    pub dns_resolve_end: Option<u64>,
    pub connect_start: Option<u64>,
    pub connect_end: Option<u64>,
    pub tls_connect_start: Option<u64>,
    pub tls_connect_end: Option<u64>,
}

/// The stats of the raw connection with the handshake's two readings added.
pub open spec fn with_tls_spec(s: ConnectionStats, tls_start: u64, tls_end: u64) -> ConnectionStats {
    ConnectionStats {
        tls_connect_start: Some(tls_start),
        tls_connect_end: Some(tls_end),
        ..s
    }
}

/// What the stats of an encrypted stream are: absent when the raw connector
/// reported none, else the raw stats with the handshake's readings.
pub open spec fn merge_tls_spec(
    stats: Option<ConnectionStats>,
    tls_start: u64,
    tls_end: u64,
) -> Option<ConnectionStats> {
    match stats {
        Some(s) => Some(with_tls_spec(s, tls_start, tls_end)),
        None => None,
    }
}

/// Adds the handshake's start and end to the raw connector's stats.
pub fn merge_tls_stats(
    stats: Option<ConnectionStats>,
    tls_start: u64,
    tls_end: u64,
) -> (r: Option<ConnectionStats>)
    ensures
        r == merge_tls_spec(stats, tls_start, tls_end),
{
    match stats {
        Some(s) => Some(
            ConnectionStats {
                start_time: s.start_time,
                dns_resolve_start: s.dns_resolve_start,
                dns_resolve_end: s.dns_resolve_end,
                connect_start: s.connect_start,
                connect_end: s.connect_end,
                tls_connect_start: Some(tls_start),
                tls_connect_end: Some(tls_end),
            },
        ),
        None => None,
    }
}

} // verus!
