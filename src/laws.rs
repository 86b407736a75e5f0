use vstd::prelude::*;
use crate::connector::{
    Action, ConnectError, ConnectingState, Phase, call_spec, first_action_spec,
    handshake_done_spec, handshake_failed_spec, raw_connected_spec, raw_failed_spec,
};
use crate::stats::{ConnectionStats, merge_tls_spec};
use crate::target::{Target, is_https_spec};

verus! {

pub open spec fn is_http_spec(t: Target) -> bool {
    match t.scheme {
        Some(s) => s@ == "http"@,
        None => false,
    }
}

proof fn http_is_not_https(t: Target)
    requires
        is_http_spec(t),
    ensures
        !is_https_spec(t),
{
    reveal_strlit("http");
    reveal_strlit("https");
    assert("http"@.len() != "https"@.len());
}

/// With HTTPS not forced, an `http` target is first connected raw, and once
/// that succeeds the attempt resolves with the plain stream and never asks
/// for a handshake.
pub proof fn http_unforced_stays_plain(dst: Target, stats: Option<ConnectionStats>, now: u64)
    requires
        is_http_spec(dst),
    ensures
        first_action_spec(call_spec(false, dst)) == Action::ConnectRaw,
        raw_connected_spec(call_spec(false, dst), stats, now).1 == Action::Plain,
        raw_connected_spec(call_spec(false, dst), stats, now).0.phase == Phase::Finished,
{
    http_is_not_https(dst);
}

/// An `https` target, once the raw connect and the handshake succeed,
/// resolves with the encrypted stream. Where the raw connector reported
/// stats, they are kept and the handshake's start and end are added, the
/// start no later than the end; where it reported none there are none.
pub proof fn https_resolves_encrypted(
    force_https: bool,
    dst: Target,
    stats: Option<ConnectionStats>,
    tls_start: u64,
    tls_end: u64,
)
    requires
        is_https_spec(dst),
        tls_start <= tls_end,
    ensures
        ({
            let s0 = call_spec(force_https, dst);
            let (s1, a1) = raw_connected_spec(s0, stats, tls_start);
            let (s2, a2) = handshake_done_spec(s1, tls_end);
            &&& first_action_spec(s0) == Action::ConnectRaw
            &&& a1 == Action::Handshake
            &&& s1.server_name == s0.server_name
            &&& s2.phase == Phase::Finished
            &&& a2 matches Action::Encrypted { stats: out } && match stats {
                Some(raw) => out matches Some(m) && m.start_time == raw.start_time
                    && m.dns_resolve_start == raw.dns_resolve_start
                    && m.dns_resolve_end == raw.dns_resolve_end
                    && m.connect_start == raw.connect_start
                    && m.connect_end == raw.connect_end
                    && m.tls_connect_start == Some(tls_start)
                    && m.tls_connect_end == Some(tls_end)
                    && tls_start <= tls_end,
                None => out is None,
            }
        }),
{
}

/// With HTTPS forced, a target that is not `https` fails at once with the
/// policy error: the attempt never asks for the raw connector.
pub proof fn forced_https_refuses_http(dst: Target)
    requires
        !is_https_spec(dst),
    ensures
        call_spec(true, dst).phase == Phase::Rejected,
        first_action_spec(call_spec(true, dst)) == Action::Fail(
            ConnectError::ForceHttpsButUriNotHttps,
        ),
{
}

/// A failed raw connect resolves the attempt with the raw connector's error,
/// and no handshake is asked for after it.
pub proof fn raw_failure_propagates(s: ConnectingState)
    requires
        s.phase == Phase::AwaitingRaw,
    ensures
        raw_failed_spec(s).1 == Action::Fail(ConnectError::RawConnect),
        raw_failed_spec(s).0.phase == Phase::Finished,
{
}

/// A failed handshake resolves the attempt with the handshake's error, never
/// with a stream.
pub proof fn handshake_failure_propagates(s: ConnectingState)
    requires
        s.phase == Phase::AwaitingHandshake,
    ensures
        handshake_failed_spec(s).1 == Action::Fail(ConnectError::Handshake),
        !(handshake_failed_spec(s).1 is Encrypted),
        !(handshake_failed_spec(s).1 is Plain),
        handshake_failed_spec(s).0.phase == Phase::Finished,
{
}

/// Merging the handshake's readings into absent stats leaves them absent.
pub proof fn merge_keeps_absent_stats(tls_start: u64, tls_end: u64)
    ensures
        merge_tls_spec(None, tls_start, tls_end) == None::<ConnectionStats>,
{
}

} // verus!
