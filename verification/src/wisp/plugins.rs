use vstd::prelude::*;

use crate::support::time::{duration_between, duration_nanos, instant_duration_since, nanos_of};
use crate::support::text::{decimal, push_decimal, string_push_str};
use crate::wisp::plugin::HookResult;

verus! {

/// The server's counters at one moment.
#[derive(Debug, Clone, Copy, PartialEq, Eq, Structural)]
pub struct MetricsSnapshot {
    pub connections_total: u64,
    pub connections_active: u64,
    pub streams_total: u64,
    pub streams_active: u64,
    pub bytes_in: u64,
    pub bytes_out: u64,
}

impl MetricsSnapshot {
    /// A snapshot with every counter at zero.
    pub fn zero() -> (r: Self)
        ensures
            r == (MetricsSnapshot {
                connections_total: 0,
                connections_active: 0,
                streams_total: 0,
                streams_active: 0,
                bytes_in: 0,
                bytes_out: 0,
            }),
    {
        MetricsSnapshot {
            connections_total: 0,
            connections_active: 0,
            streams_total: 0,
            streams_active: 0,
            bytes_in: 0,
            bytes_out: 0,
        }
    }
}

/// The plugin that logs every event it is told of.
pub struct Logger;

/// The name under which a stream type is logged: TCP for type 1, UDP for
/// any other.
pub fn protocol_name(stream_type: u8) -> (r: &'static str)
    ensures
        r@ == (if stream_type == 1 { "TCP"@ } else { "UDP"@ }),
{
    if stream_type == 1 {
        "TCP"
    } else {
        "UDP"
    }
}

/// Whether `nanos` nanoseconds exceed a window of `window_secs` seconds, as
/// comparing the two `Duration`s does.
pub fn window_exceeded(nanos: u128, window_secs: u64) -> (r: bool)
    ensures
        r == (nanos > window_secs * 1_000_000_000),
{
    nanos > (window_secs as u128) * 1_000_000_000
}

/// Whether a window that started at `start` has passed by `now`: more than
/// `window_secs` seconds lie between them.
pub open spec fn window_passed(start: std::time::Instant, now: std::time::Instant, window_secs: u64) -> bool {
    nanos_of(duration_between(now, start)) > window_secs * 1_000_000_000
}

/// The reason a rate limiter gives for refusing a connection.
pub open spec fn rate_limit_reason(max_per_ip: u32, window_secs: u64) -> Seq<char> {
    "Rate limit: "@ + decimal(max_per_ip as nat) + " connections per "@ + decimal(window_secs as nat) + "s"@
}

/// The connections one address opened in its current window.
#[derive(Debug, Clone, Copy)]
pub struct RateEntry {
    count: u32,
    window_start: std::time::Instant,
}

impl RateEntry {
    /// The connections counted in the current window.
    pub closed spec fn spec_count(&self) -> u32 {
        self.count
    }

    /// The entry of an address not seen before: no connections, a window
    /// that starts now.
    /// The moment the current window started.
    pub closed spec fn spec_window_start(&self) -> std::time::Instant {
        self.window_start
    }

    pub fn new(now: std::time::Instant) -> (r: Self)
        ensures
            r.spec_count() == 0,
            r.spec_window_start() == now,
    {
        RateEntry { count: 0, window_start: now }
    }

    pub fn count(&self) -> (r: u32)
        ensures
            r == self.spec_count(),
    {
        self.count
    }

    /// Counts a new connection, given whether the current window has passed
    /// (which restarts the count in a window starting `now`). Past the limit
    /// the connection is refused; the refused one stays counted.
    pub fn count_open(&mut self, window_expired: bool, now: std::time::Instant, max_per_ip: u32, window_secs: u64) -> (r: HookResult)
        requires
            window_expired || old(self).spec_count() < u32::MAX,
        ensures
            final(self).spec_count() == (if window_expired { 1 } else { old(self).spec_count() + 1 }),
            final(self).spec_window_start() == (if window_expired { now } else { old(self).spec_window_start() }),
            final(self).spec_count() > max_per_ip ==> (r matches HookResult::Reject(m) && m@ == rate_limit_reason(max_per_ip, window_secs)),
            final(self).spec_count() <= max_per_ip ==> r is Continue,
    {
        if window_expired {
            self.count = 0;
            self.window_start = now;
        }
        self.count = self.count + 1;
        if self.count > max_per_ip {
            let mut m = "Rate limit: ".to_owned();
            push_decimal(&mut m, max_per_ip as u64);
            string_push_str(&mut m, " connections per ");
            push_decimal(&mut m, window_secs);
            string_push_str(&mut m, "s");
            assert(m@ =~= rate_limit_reason(max_per_ip, window_secs));
            return HookResult::Reject(m);
        }
        HookResult::Continue
    }

    /// Counts a new connection at `now`: when more than `window_secs` have
    /// passed since the window started, the window starts over from this
    /// connection. Within the window, an address whose count is already
    /// `u32::MAX` cannot be counted once more: then nothing changes and no
    /// answer is given (`None`).
    pub fn register_open(&mut self, now: std::time::Instant, max_per_ip: u32, window_secs: u64) -> (r: Option<HookResult>)
        ensures
            ({
                let expired = window_passed(old(self).spec_window_start(), now, window_secs);
                &&& (!expired && old(self).spec_count() == u32::MAX) ==> (r is None
                    && final(self).spec_count() == old(self).spec_count()
                    && final(self).spec_window_start() == old(self).spec_window_start())
                &&& (expired || old(self).spec_count() < u32::MAX) ==> (r matches Some(h) && {
                    &&& final(self).spec_count() == (if expired { 1 } else { old(self).spec_count() + 1 })
                    &&& final(self).spec_window_start() == (if expired { now } else { old(self).spec_window_start() })
                    &&& final(self).spec_count() > max_per_ip ==> (h matches HookResult::Reject(m) && m@ == rate_limit_reason(max_per_ip, window_secs))
                    &&& final(self).spec_count() <= max_per_ip ==> h is Continue
                })
            }),
    {
        let since = duration_nanos(&instant_duration_since(&now, &self.window_start));
        let expired = window_exceeded(since, window_secs);
        if !expired && self.count == u32::MAX {
            return None;
        }
        Some(self.count_open(expired, now, max_per_ip, window_secs))
    }

    /// Forgets one connection of the address, stopping at zero.
    pub fn register_close(&mut self)
        ensures
            final(self).spec_count() == (if old(self).spec_count() > 0 { old(self).spec_count() - 1 } else { 0 }),
            final(self).spec_window_start() == old(self).spec_window_start(),
    {
        self.count = self.count.saturating_sub(1);
    }
}

} // verus!
