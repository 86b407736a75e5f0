use vstd::prelude::*;
use crate::stats::{ConnectionStats, merge_tls_spec, merge_tls_stats};
use crate::target::{Target, is_https, is_https_spec, server_name, server_name_spec};

verus! {

/// Why a connection attempt failed.
#[derive(Clone, Copy, Debug, PartialEq, Eq, Structural)]
pub enum ConnectError {
    /// HTTPS is forced but the target's scheme is not `https`.
    ForceHttpsButUriNotHttps,
    /// The raw connector failed.
    RawConnect,
    /// The TLS handshake failed.
    Handshake,
}

/// Where a connection attempt stands.
#[derive(Clone, Copy, Debug, PartialEq, Eq, Structural)]
pub enum Phase {
    /// Refused by policy before any I/O.
    Rejected,
    /// Waiting for the raw connector.
    AwaitingRaw,
    /// Waiting for the TLS handshake over the raw stream.
    AwaitingHandshake,
    /// Resolved, with a stream or an error.
    Finished,
}

/// What the driver of a connection attempt is to do next.
#[derive(Clone, Copy, Debug, PartialEq, Eq, Structural)]
pub enum Action {
    /// Call the raw connector with the full target.
    ConnectRaw,
    /// Run the TLS handshake over the raw stream, presenting the attempt's
    /// server name.
    Handshake,
    /// Resolve with the raw stream, unencrypted.
    Plain,
    /// Resolve with the encrypted stream, carrying these stats.
    Encrypted { stats: Option<ConnectionStats> },
    /// Resolve with this error.
    Fail(ConnectError),
}

/// A connector that speaks TLS to `https` targets and plain text to the
/// others, unless HTTPS is forced.
#[derive(Clone, Debug)]
pub struct HttpsConnector<T, H> {
    /// Whether targets that are not `https` are refused.
    pub force_https: bool,
    /// The raw connector.
    pub http: T,
    /// The TLS handshake provider.
    pub tls: H,
}

/// What a connection attempt knows.
pub struct ConnectingState {
    pub is_https: bool,
    pub server_name: Seq<char>,
    pub phase: Phase,
    pub raw_stats: Option<ConnectionStats>,
    pub tls_start: u64,
}

/// One attempt to connect to a target: the decisions between the raw
/// connect and the handshake, driven by their outcomes.
#[derive(Debug)]
pub struct HttpsConnecting {
    is_https: bool,
    server_name: String,
    phase: Phase,
    raw_stats: Option<ConnectionStats>,
    tls_start: u64,
}

impl View for HttpsConnecting {
    type V = ConnectingState;

    closed spec fn view(&self) -> ConnectingState {
        ConnectingState {
            is_https: self.is_https,
            server_name: self.server_name@,
            phase: self.phase,
            raw_stats: self.raw_stats,
            tls_start: self.tls_start,
        }
    }
}

/// The attempt that a call with `dst` starts.
pub open spec fn call_spec(force_https: bool, dst: Target) -> ConnectingState {
    ConnectingState {
        is_https: is_https_spec(dst),
        server_name: server_name_spec(dst),
        phase: if !is_https_spec(dst) && force_https {
            Phase::Rejected
        } else {
            Phase::AwaitingRaw
        },
        raw_stats: None,
        tls_start: 0,
    }
}

/// The first thing an attempt asks for.
pub open spec fn first_action_spec(s: ConnectingState) -> Action {
    if s.phase == Phase::Rejected {
        Action::Fail(ConnectError::ForceHttpsButUriNotHttps)
    } else {
        Action::ConnectRaw
    }
}

/// The raw connector delivered a stream with `stats`, at clock reading `now`.
pub open spec fn raw_connected_spec(
    s: ConnectingState,
    stats: Option<ConnectionStats>,
    now: u64,
) -> (ConnectingState, Action) {
    if s.is_https {
        (
            ConnectingState { phase: Phase::AwaitingHandshake, raw_stats: stats, tls_start: now, ..s },
            Action::Handshake,
        )
    } else {
        (ConnectingState { phase: Phase::Finished, ..s }, Action::Plain)
    }
}

/// The raw connector failed.
pub open spec fn raw_failed_spec(s: ConnectingState) -> (ConnectingState, Action) {
    (ConnectingState { phase: Phase::Finished, ..s }, Action::Fail(ConnectError::RawConnect))
}

/// The handshake succeeded at clock reading `now`.
pub open spec fn handshake_done_spec(s: ConnectingState, now: u64) -> (ConnectingState, Action) {
    (
        ConnectingState { phase: Phase::Finished, ..s },
        Action::Encrypted { stats: merge_tls_spec(s.raw_stats, s.tls_start, now) },
    )
}

/// The handshake failed.
pub open spec fn handshake_failed_spec(s: ConnectingState) -> (ConnectingState, Action) {
    (ConnectingState { phase: Phase::Finished, ..s }, Action::Fail(ConnectError::Handshake))
}

impl<T, H> HttpsConnector<T, H> {
    /// A connector over `http` and `tls` that allows plain HTTP.
    pub fn new_with_connector(http: T, tls: H) -> (r: Self)
        ensures
            !r.force_https,
            r.http == http,
            r.tls == tls,
    {
        HttpsConnector { force_https: false, http, tls }
    }

    /// Forces the use of HTTPS, or stops forcing it.
    pub fn https_only(&mut self, enable: bool)
        ensures
            final(self).force_https == enable,
            final(self).http == old(self).http,
            final(self).tls == old(self).tls,
    {
        self.force_https = enable;
    }

    /// Starts an attempt to connect to `dst`. It is refused at once, before
    /// any I/O, where HTTPS is forced and `dst` is not `https`.
    pub fn call(&self, dst: &Target) -> (r: HttpsConnecting)
        ensures
            r@ == call_spec(self.force_https, *dst),
    {
        let https = is_https(dst);
        let name = server_name(dst);
        let phase = if !https && self.force_https {
            Phase::Rejected
        } else {
            Phase::AwaitingRaw
        };
        HttpsConnecting { is_https: https, server_name: name, phase, raw_stats: None, tls_start: 0 }
    }
}

impl HttpsConnecting {
    /// Where the attempt stands.
    pub fn phase(&self) -> (r: Phase)
        ensures
            r == self@.phase,
    {
        self.phase
    }

    /// Whether the target asked for `https`.
    pub fn is_https(&self) -> (r: bool)
        ensures
            r == self@.is_https,
    {
        self.is_https
    }

    /// The name to present in the handshake.
    pub fn server_name(&self) -> (r: &str)
        ensures
            r@ == self@.server_name,
    {
        self.server_name.as_str()
    }

    /// What to do first: call the raw connector, or fail by policy.
    pub fn first_action(&self) -> (r: Action)
        requires
            self@.phase == Phase::Rejected || self@.phase == Phase::AwaitingRaw,
        ensures
            r == first_action_spec(self@),
    {
        if self.phase == Phase::Rejected {
            Action::Fail(ConnectError::ForceHttpsButUriNotHttps)
        } else {
            Action::ConnectRaw
        }
    }

    /// The raw connector delivered a stream with `stats`; `now` is the clock
    /// reading at which the handshake would start.
    pub fn on_raw_connected(&mut self, stats: Option<ConnectionStats>, now: u64) -> (r: Action)
        requires
            old(self)@.phase == Phase::AwaitingRaw,
        ensures
            (final(self)@, r) == raw_connected_spec(old(self)@, stats, now),
    {
        if self.is_https {
            self.phase = Phase::AwaitingHandshake;
            self.raw_stats = stats;
            self.tls_start = now;
            Action::Handshake
        } else {
            self.phase = Phase::Finished;
            Action::Plain
        }
    }

    /// The raw connector failed.
    pub fn on_raw_failed(&mut self) -> (r: Action)
        requires
            old(self)@.phase == Phase::AwaitingRaw,
        ensures
            (final(self)@, r) == raw_failed_spec(old(self)@),
    {
        self.phase = Phase::Finished;
        Action::Fail(ConnectError::RawConnect)
    }

    /// The handshake succeeded; `now` is the clock reading at its end.
    pub fn on_handshake_done(&mut self, now: u64) -> (r: Action)
        requires
            old(self)@.phase == Phase::AwaitingHandshake,
        ensures
            (final(self)@, r) == handshake_done_spec(old(self)@, now),
    {
        self.phase = Phase::Finished;
        let stats = merge_tls_stats(self.raw_stats, self.tls_start, now);
        Action::Encrypted { stats }
    }

    /// The handshake failed.
    pub fn on_handshake_failed(&mut self) -> (r: Action)
        requires
            old(self)@.phase == Phase::AwaitingHandshake,
        ensures
            (final(self)@, r) == handshake_failed_spec(old(self)@),
    {
        self.phase = Phase::Finished;
        Action::Fail(ConnectError::Handshake)
    }
}

} // verus!
