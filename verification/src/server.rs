use vstd::prelude::*;
use vstd::utf8::encode_utf8;

use crate::config::ExtensionsConfig;
use crate::support::text::{decimal, push_decimal, string_push_str};
use crate::wisp::extensions::Extension;
use crate::wisp::plugins::MetricsSnapshot;

verus! {

/// The extensions the server offers: UDP when enabled, the MOTD when there is
/// a message, and stream-open confirmation when enabled, in that order.
pub open spec fn offered_extensions(cfg: ExtensionsConfig) -> Seq<Extension> {
    let with_udp: Seq<Extension> = if cfg.udp { seq![Extension::Udp] } else { Seq::empty() };
    let with_motd = if cfg.motd@.len() > 0 { with_udp.push(Extension::Motd) } else { with_udp };
    if cfg.stream_open_confirmation {
        with_motd.push(Extension::StreamOpenConfirmation)
    } else {
        with_motd
    }
}

/// Each extension is offered exactly when the configuration enables it,
/// whatever the other settings: UDP by its flag, the MOTD by a message that is
/// not empty, stream-open confirmation by its flag; the authentication
/// extensions are never offered, none is offered twice, and the offer keeps
/// the order UDP, MOTD, stream-open confirmation.
pub proof fn lemma_offer_follows_each_setting(cfg: ExtensionsConfig)
    ensures
        offered_extensions(cfg).contains(Extension::Udp) <==> cfg.udp,
        offered_extensions(cfg).contains(Extension::Motd) <==> cfg.motd@.len() > 0,
        offered_extensions(cfg).contains(Extension::StreamOpenConfirmation) <==> cfg.stream_open_confirmation,
        !offered_extensions(cfg).contains(Extension::PasswordAuth),
        !offered_extensions(cfg).contains(Extension::KeyAuth),
        offered_extensions(cfg).no_duplicates(),
        forall|i: int, j: int| 0 <= i < j < offered_extensions(cfg).len() ==>
            ext_rank(#[trigger] offered_extensions(cfg)[i]) < ext_rank(#[trigger] offered_extensions(cfg)[j]),
{
    let s = offered_extensions(cfg);
    let u: Seq<Extension> = if cfg.udp { seq![Extension::Udp] } else { Seq::empty() };
    let m = if cfg.motd@.len() > 0 { u.push(Extension::Motd) } else { u };
    assert forall|e: Extension| s.contains(e) <==> (
        (e == Extension::Udp && cfg.udp)
        || (e == Extension::Motd && cfg.motd@.len() > 0)
        || (e == Extension::StreamOpenConfirmation && cfg.stream_open_confirmation)) by {
        if s.contains(e) {
            let k = choose|k: int| 0 <= k < s.len() && s[k] == e;
            assert(s[k] == e);
        }
        if e == Extension::Udp && cfg.udp {
            assert(s[0] == e);
        }
        if e == Extension::Motd && cfg.motd@.len() > 0 {
            assert(m[m.len() - 1] == e);
            assert(s[m.len() - 1] == e);
        }
        if e == Extension::StreamOpenConfirmation && cfg.stream_open_confirmation {
            assert(s[s.len() - 1] == e);
        }
    }
}

/// The place of an extension in the order in which the server offers them.
pub open spec fn ext_rank(e: Extension) -> int {
    match e {
        Extension::Udp => 0,
        Extension::Motd => 1,
        Extension::StreamOpenConfirmation => 2,
        Extension::PasswordAuth => 3,
        Extension::KeyAuth => 4,
    }
}

pub fn server_extensions(cfg: &ExtensionsConfig) -> (r: Vec<Extension>)
    ensures
        r@ == offered_extensions(*cfg),
        r@.contains(Extension::Udp) <==> cfg.udp,
        r@.contains(Extension::Motd) <==> cfg.motd@.len() > 0,
        r@.contains(Extension::StreamOpenConfirmation) <==> cfg.stream_open_confirmation,
        !r@.contains(Extension::PasswordAuth) && !r@.contains(Extension::KeyAuth),
{
    let mut exts: Vec<Extension> = Vec::new();
    if cfg.udp {
        exts.push(Extension::Udp);
    }
    if !cfg.motd.as_str().is_empty() {
        exts.push(Extension::Motd);
    }
    if cfg.stream_open_confirmation {
        exts.push(Extension::StreamOpenConfirmation);
    }
    proof {
        lemma_offer_follows_each_setting(*cfg);
    }
    exts
}

/// The message of the day, unless it is empty.
pub fn motd_of(cfg: &ExtensionsConfig) -> (r: Option<String>)
    ensures
        cfg.motd@.len() == 0 ==> r is None,
        cfg.motd@.len() > 0 ==> (r matches Some(m) && m@ == cfg.motd@),
{
    if cfg.motd.as_str().is_empty() {
        None
    } else {
        Some(cfg.motd.clone())
    }
}

/// Whether a connection that brings the number of live connections to
/// `count_with_new` stays within the limit.
pub open spec fn admits(count_with_new: int, max_connections: u32) -> bool {
    count_with_new <= max_connections
}

/// Whether the connection that brings the count of open connections to
/// `count_with_new` stays within the limit.
pub fn connection_admitted(count_with_new: u32, max_connections: u32) -> (r: bool)
    ensures
        r == admits(count_with_new as int, max_connections),
{
    count_with_new <= max_connections
}

/// What happens to the set of live connections: one arrives, or one that was
/// admitted ends.
pub enum GateEvent {
    Arrival,
    Departure,
}

/// The number of live connections after one event: an arrival is counted when
/// the limit admits it and closed at once otherwise; a departure frees a slot.
pub open spec fn gate_step(live: nat, max_connections: u32, e: GateEvent) -> nat {
    match e {
        GateEvent::Arrival => if admits(live + 1 as int, max_connections) { live + 1 } else { live },
        GateEvent::Departure => if live > 0 { (live - 1) as nat } else { 0 },
    }
}

/// The number of live connections after a run of events, from none.
pub open spec fn live_after(events: Seq<GateEvent>, max_connections: u32) -> nat
    decreases events.len(),
{
    if events.len() == 0 {
        0
    } else {
        gate_step(live_after(events.drop_last(), max_connections), max_connections, events.last())
    }
}

/// Whatever connections arrive and end, the number being handled never
/// exceeds the limit.
pub proof fn lemma_live_connections_within_limit(events: Seq<GateEvent>, max_connections: u32)
    ensures
        live_after(events, max_connections) <= max_connections,
    decreases events.len(),
{
    if events.len() > 0 {
        lemma_live_connections_within_limit(events.drop_last(), max_connections);
    }
}

/// The count of connections being handled, kept within the limit.
pub struct ConnectionGate {
    live: u32,
    max_connections: u32,
}

impl ConnectionGate {
    #[verifier::type_invariant]
    spec fn within_limit(&self) -> bool {
        self.live <= self.max_connections
    }

    /// The connections being handled.
    pub closed spec fn spec_live(&self) -> u32 {
        self.live
    }

    /// The limit on connections being handled.
    pub closed spec fn spec_max(&self) -> u32 {
        self.max_connections
    }

    pub fn new(max_connections: u32) -> (r: Self)
        ensures
            r.spec_live() == 0,
            r.spec_max() == max_connections,
    {
        ConnectionGate { live: 0, max_connections }
    }

    /// The connections being handled.
    pub fn live(&self) -> (r: u32)
        ensures
            r == self.spec_live(),
            r <= self.spec_max(),
    {
        proof {
            use_type_invariant(self);
        }
        self.live
    }

    /// A connection arrives: it is let in and counted when the limit admits
    /// one more, and refused otherwise.
    pub fn try_admit(&mut self) -> (r: bool)
        ensures
            r == admits(old(self).spec_live() + 1 as int, old(self).spec_max()),
            final(self).spec_live() as nat == gate_step(old(self).spec_live() as nat, old(self).spec_max(), GateEvent::Arrival),
            final(self).spec_max() == old(self).spec_max(),
            final(self).spec_live() <= final(self).spec_max(),
    {
        proof {
            use_type_invariant(&*self);
        }
        if self.live < self.max_connections {
            self.live = self.live + 1;
            true
        } else {
            false
        }
    }

    /// An admitted connection ends and frees its slot.
    pub fn release(&mut self)
        ensures
            final(self).spec_live() as nat == gate_step(old(self).spec_live() as nat, old(self).spec_max(), GateEvent::Departure),
            final(self).spec_max() == old(self).spec_max(),
            final(self).spec_live() <= final(self).spec_max(),
    {
        proof {
            use_type_invariant(&*self);
        }
        if self.live > 0 {
            self.live = self.live - 1;
        }
    }
}

/// The pages of the metrics endpoint.
#[derive(Debug, Clone, Copy, PartialEq, Eq, Structural)]
pub enum MetricsRoute {
    Health,
    Ready,
    Metrics,
    NotFound,
}

/// Whether `p` is a prefix of `s`.
pub open spec fn has_prefix(s: Seq<u8>, p: Seq<u8>) -> bool {
    p.len() <= s.len() && s.subrange(0, p.len() as int) == p
}

fn starts_with(s: &[u8], p: &[u8]) -> (r: bool)
    ensures
        r == has_prefix(s@, p@),
{
    if p.len() > s.len() {
        return false;
    }
    let mut i: usize = 0;
    while i < p.len()
        invariant
            p@.len() <= s@.len(),
            i <= p@.len(),
            forall|j: int| 0 <= j < i ==> s@[j] == p@[j],
        decreases p@.len() - i,
    {
        if s[i] != p[i] {
            assert(s@.subrange(0, p@.len() as int)[i as int] != p@[i as int]);
            return false;
        }
        i = i + 1;
    }
    assert(s@.subrange(0, p@.len() as int) =~= p@);
    true
}

/// The page a request asks for, by the start of its first line. The
/// prefixes are ASCII, so reading the request as lossy UTF-8 first would
/// decide the same.
pub open spec fn route_of(request: Seq<u8>) -> MetricsRoute {
    if has_prefix(request, encode_utf8("GET /health"@)) {
        MetricsRoute::Health
    } else if has_prefix(request, encode_utf8("GET /ready"@)) {
        MetricsRoute::Ready
    } else if has_prefix(request, encode_utf8("GET /metrics"@)) {
        MetricsRoute::Metrics
    } else {
        MetricsRoute::NotFound
    }
}

pub fn route_request(request: &[u8]) -> (r: MetricsRoute)
    ensures
        r == route_of(request@),
{
    if starts_with(request, "GET /health".as_bytes()) {
        MetricsRoute::Health
    } else if starts_with(request, "GET /ready".as_bytes()) {
        MetricsRoute::Ready
    } else if starts_with(request, "GET /metrics".as_bytes()) {
        MetricsRoute::Metrics
    } else {
        MetricsRoute::NotFound
    }
}

/// An HTTP/1.1 response that closes the connection: the status line, the
/// content type when there is one, the body's length in bytes, then the body.
pub open spec fn http_response(status: Seq<char>, content_type: Option<Seq<char>>, body: Seq<char>) -> Seq<char> {
    let type_line = match content_type {
        Some(t) => "Content-Type: "@ + t + "\r\n"@,
        None => Seq::empty(),
    };
    status + "\r\n"@ + type_line + "Content-Length: "@ + decimal((encode_utf8(body).len() as usize) as nat) + "\r\nConnection: close\r\n\r\n"@ + body
}

fn build_response(status: &str, content_type: Option<&str>, body: &str) -> (r: String)
    ensures
        r@ == http_response(status@, match content_type { Some(t) => Some(t@), None => None }, body@),
{
    let mut s = status.to_owned();
    string_push_str(&mut s, "\r\n");
    match content_type {
        Some(t) => {
            string_push_str(&mut s, "Content-Type: ");
            string_push_str(&mut s, t);
            string_push_str(&mut s, "\r\n");
        },
        None => {},
    }
    string_push_str(&mut s, "Content-Length: ");
    push_decimal(&mut s, body.len() as u64);
    string_push_str(&mut s, "\r\nConnection: close\r\n\r\n");
    string_push_str(&mut s, body);
    proof {
        let type_line = match content_type {
            Some(t) => "Content-Type: "@ + t@ + "\r\n"@,
            None => Seq::<char>::empty(),
        };
        assert(s@ =~= status@ + "\r\n"@ + type_line + "Content-Length: "@ + decimal((encode_utf8(body@).len() as usize) as nat) + "\r\nConnection: close\r\n\r\n"@ + body@);
    }
    s
}

/// The Prometheus text of a metrics snapshot.
pub open spec fn metrics_text(m: MetricsSnapshot) -> Seq<char> {
    "# HELP ember_connections_active Active connections\n# TYPE ember_connections_active gauge\nember_connections_active "@
        + decimal(m.connections_active as nat)
        + "\n# HELP ember_connections_total Total connections accepted\n# TYPE ember_connections_total counter\nember_connections_total "@
        + decimal(m.connections_total as nat)
        + "\n# HELP ember_streams_active Active streams\n# TYPE ember_streams_active gauge\nember_streams_active "@
        + decimal(m.streams_active as nat)
        + "\n# HELP ember_streams_total Total streams opened\n# TYPE ember_streams_total counter\nember_streams_total "@
        + decimal(m.streams_total as nat)
        + "\n# HELP ember_bytes_received_total Total bytes received from clients\n# TYPE ember_bytes_received_total counter\nember_bytes_received_total "@
        + decimal(m.bytes_in as nat)
        + "\n# HELP ember_bytes_sent_total Total bytes sent to clients\n# TYPE ember_bytes_sent_total counter\nember_bytes_sent_total "@
        + decimal(m.bytes_out as nat)
        + "\n"@
}

pub fn metrics_body(m: &MetricsSnapshot) -> (r: String)
    ensures
        r@ == metrics_text(*m),
{
    let mut s = "# HELP ember_connections_active Active connections\n# TYPE ember_connections_active gauge\nember_connections_active ".to_owned();
    push_decimal(&mut s, m.connections_active);
    string_push_str(&mut s, "\n# HELP ember_connections_total Total connections accepted\n# TYPE ember_connections_total counter\nember_connections_total ");
    push_decimal(&mut s, m.connections_total);
    string_push_str(&mut s, "\n# HELP ember_streams_active Active streams\n# TYPE ember_streams_active gauge\nember_streams_active ");
    push_decimal(&mut s, m.streams_active);
    string_push_str(&mut s, "\n# HELP ember_streams_total Total streams opened\n# TYPE ember_streams_total counter\nember_streams_total ");
    push_decimal(&mut s, m.streams_total);
    string_push_str(&mut s, "\n# HELP ember_bytes_received_total Total bytes received from clients\n# TYPE ember_bytes_received_total counter\nember_bytes_received_total ");
    push_decimal(&mut s, m.bytes_in);
    string_push_str(&mut s, "\n# HELP ember_bytes_sent_total Total bytes sent to clients\n# TYPE ember_bytes_sent_total counter\nember_bytes_sent_total ");
    push_decimal(&mut s, m.bytes_out);
    string_push_str(&mut s, "\n");
    assert(s@ =~= metrics_text(*m));
    s
}

/// The response of the metrics endpoint to a page: health is always ok,
/// readiness fails with 503 while the server shuts down, metrics are served
/// as Prometheus text, and anything else is not found.
pub open spec fn endpoint_response(route: MetricsRoute, m: MetricsSnapshot, shutting_down: bool) -> Seq<char> {
    match route {
        MetricsRoute::Health => http_response("HTTP/1.1 200 OK"@, Some("application/json"@), "{\"status\":\"ok\"}"@),
        MetricsRoute::Ready => if shutting_down {
            http_response("HTTP/1.1 503 Service Unavailable"@, Some("application/json"@), "{\"status\":\"shutting_down\"}"@)
        } else {
            http_response("HTTP/1.1 200 OK"@, Some("application/json"@), "{\"status\":\"ready\"}"@)
        },
        MetricsRoute::Metrics => http_response(
            "HTTP/1.1 200 OK"@,
            Some("text/plain; version=0.0.4; charset=utf-8"@),
            metrics_text(m),
        ),
        MetricsRoute::NotFound => http_response("HTTP/1.1 404 Not Found"@, None, Seq::empty()),
    }
}

pub fn metrics_response(route: MetricsRoute, m: &MetricsSnapshot, shutting_down: bool) -> (r: String)
    ensures
        r@ == endpoint_response(route, *m, shutting_down),
{
    match route {
        MetricsRoute::Health => build_response("HTTP/1.1 200 OK", Some("application/json"), "{\"status\":\"ok\"}"),
        MetricsRoute::Ready => {
            if shutting_down {
                build_response("HTTP/1.1 503 Service Unavailable", Some("application/json"), "{\"status\":\"shutting_down\"}")
            } else {
                build_response("HTTP/1.1 200 OK", Some("application/json"), "{\"status\":\"ready\"}")
            }
        },
        MetricsRoute::Metrics => {
            let body = metrics_body(m);
            build_response("HTTP/1.1 200 OK", Some("text/plain; version=0.0.4; charset=utf-8"), body.as_str())
        },
        MetricsRoute::NotFound => {
            let empty = String::new();
            build_response("HTTP/1.1 404 Not Found", None, empty.as_str())
        },
    }
}

} // verus!
