use vstd::prelude::*;

use crate::circuit_breaker::CircuitBreakerError;
use crate::error::WispError;
use crate::support::payload::{bytes_as_slice, bytes_seq, bytes_slice_from};
use crate::support::text::{decimal, push_decimal, string_push, utf8_lossy, utf8_lossy_text};
use crate::wisp::buffer::{AdaptiveBuffer, BufferConfig};
use crate::wisp::packet::{le_u16_at, le_u32_at, Packet, StreamId};

verus! {

/// Close reason: the stream's creation failed for invalid information.
pub const CLOSE_INVALID_INFO: u8 = 0x41;

/// Close reason: the destination could not be reached.
pub const CLOSE_UNREACHABLE: u8 = 0x42;

/// Close reason: the destination refused the connection.
pub const CLOSE_REFUSED: u8 = 0x44;

/// Close reason: the connection already has as many streams as it may.
pub const CLOSE_STREAM_LIMIT: u8 = 0x45;

/// Close reason: the destination is blocked by the server.
pub const CLOSE_BLOCKED: u8 = 0x48;

/// The buffer credit the server grants a stream when its upstream is ready.
pub const STREAM_CREDIT: u32 = 128;

/// Connection attempts made to an upstream before giving up.
pub const MAX_CONNECT_ATTEMPTS: u32 = 3;

/// Declares `rustc_hash::FxBuildHasher`, the hasher of the stream table.
#[verifier::external_type_specification]
#[verifier::external_body]
pub struct ExFxBuildHasher(rustc_hash::FxBuildHasher);

/// Declares `flume::Sender`, the channel end that feeds a stream's proxy task.
#[verifier::external_type_specification]
#[verifier::external_body]
#[verifier::reject_recursive_types(T)]
pub struct ExSender<T>(flume::Sender<T>);

/// Per-stream flow control: the buffer size granted to the client and the
/// DATA packets taken since the last grant. UDP streams have none.
#[derive(Debug, Clone, Copy, PartialEq, Eq, Structural)]
pub enum FlowControl {
    Disabled,
    Enabled { buffer_size: u32, queued: u32 },
}

/// Flow control after one more DATA packet was taken, and the buffer size to
/// grant again with a CONTINUE, if any: once the packets taken reach the
/// buffer size the count starts over and the full buffer is granted again.
pub open spec fn flow_after_delivery(f: FlowControl) -> (FlowControl, Option<u32>) {
    match f {
        FlowControl::Disabled => (FlowControl::Disabled, None),
        FlowControl::Enabled { buffer_size, queued } => {
            if queued + 1 >= buffer_size {
                (FlowControl::Enabled { buffer_size, queued: 0 }, Some(buffer_size))
            } else {
                (FlowControl::Enabled { buffer_size, queued: (queued + 1) as u32 }, None)
            }
        },
    }
}

/// Counts one more DATA packet taken by a stream.
fn count_delivery(f: FlowControl) -> (r: (FlowControl, Option<u32>))
    ensures
        r == flow_after_delivery(f),
{
    match f {
        FlowControl::Disabled => (FlowControl::Disabled, None),
        FlowControl::Enabled { buffer_size, queued } => {
            let taken: u64 = queued as u64 + 1;
            if taken >= buffer_size as u64 {
                (FlowControl::Enabled { buffer_size, queued: 0 }, Some(buffer_size))
            } else {
                (FlowControl::Enabled { buffer_size, queued: taken as u32 }, None)
            }
        },
    }
}

/// A stream's channel to its proxy task, its flow-control buffer and its
/// flow-control count.
pub struct StreamEntry {
    pub sender: flume::Sender<bytes::Bytes>,
    pub buffer: AdaptiveBuffer,
    pub flow_control: FlowControl,
    /// The payloads offered to the stream's channel, in order, whether it
    /// took them or not.
    pub offered: Ghost<Seq<Seq<u8>>>,
    /// The payloads handed to the stream's channel, in order.
    pub handed: Ghost<Seq<Seq<u8>>>,
}

/// `Sender::try_send` on the stream's channel: hands `payload` over without
/// waiting and says whether the channel took it, which depends on how full
/// the channel is and whether its receiver is alive. The records of offered
/// and handed payloads are ghost state that only this call extends: every
/// call offers this payload, and it is handed over when the channel took it.
/// Nothing else of the entry changes.
#[verifier::external_body]
fn try_send_payload(entry: &mut StreamEntry, payload: bytes::Bytes) -> (r: bool)
    ensures
        final(entry).sender == old(entry).sender,
        final(entry).buffer == old(entry).buffer,
        final(entry).flow_control == old(entry).flow_control,
        final(entry).offered@ == old(entry).offered@.push(bytes_seq(payload)),
        r ==> final(entry).handed@ == old(entry).handed@.push(bytes_seq(payload)),
        !r ==> final(entry).handed@ == old(entry).handed@,
{
    entry.sender.try_send(payload).is_ok()
}

/// The table of a connection without streams.
pub open spec fn no_streams() -> Map<StreamId, StreamEntry> {
    Map::empty()
}

/// `FxHashMap::default()`: an empty table.
#[verifier::external_body]
fn table_new() -> (m: rustc_hash::FxHashMap<StreamId, StreamEntry>)
    ensures
        m@ == no_streams(),
{
    rustc_hash::FxHashMap::default()
}

/// `HashMap::get`: the entry stored under the key, if any.
#[verifier::external_body]
fn table_get(m: &rustc_hash::FxHashMap<StreamId, StreamEntry>, k: StreamId) -> (r: Option<&StreamEntry>)
    ensures
        match r {
            Some(e) => m@.contains_key(k) && *e == m@[k],
            None => !m@.contains_key(k),
        },
{
    m.get(&k)
}

/// `HashMap::insert`: stores the entry under the key, replacing any other.
#[verifier::external_body]
fn table_insert(m: &mut rustc_hash::FxHashMap<StreamId, StreamEntry>, k: StreamId, v: StreamEntry)
    ensures
        final(m)@ == old(m)@.insert(k, v),
{
    m.insert(k, v);
}

/// `HashMap::remove`: takes out the entry stored under the key, if any.
#[verifier::external_body]
fn table_remove(m: &mut rustc_hash::FxHashMap<StreamId, StreamEntry>, k: StreamId) -> (r: Option<StreamEntry>)
    ensures
        final(m)@ == old(m)@.remove(k),
        match r {
            Some(e) => old(m)@.contains_key(k) && e == old(m)@[k],
            None => !old(m)@.contains_key(k),
        },
{
    m.remove(&k)
}

/// `HashMap::len`: the number of entries; a table is always finite.
#[verifier::external_body]
fn table_len(m: &rustc_hash::FxHashMap<StreamId, StreamEntry>) -> (r: usize)
    ensures
        r == m@.dom().len(),
{
    m.len()
}

/// `HashMap::clear`: drops every entry.
#[verifier::external_body]
fn table_clear(m: &mut rustc_hash::FxHashMap<StreamId, StreamEntry>)
    ensures
        final(m)@ == no_streams(),
{
    m.clear();
}

/// What became of a DATA packet.
#[derive(Debug, Clone, Copy, PartialEq, Eq, Structural)]
pub enum DataOutcome {
    /// No open stream has this id; the payload was dropped.
    UnknownStream,
    /// The payload was queued for the stream's proxy task; when the stream's
    /// flow control calls for it, a CONTINUE grants this buffer size again.
    Delivered { grant: Option<u32> },
    /// The stream's channel did not take the payload; it was dropped.
    Dropped,
}

/// What the multiplexer made of one binary WebSocket frame.
#[derive(Debug)]
pub enum FrameAction {
    /// Shorter than a packet header: skipped.
    TooShort,
    /// A CONNECT: the caller goes on with `check_connect`.
    Connect { stream_id: StreamId, payload: bytes::Bytes },
    /// A DATA packet, already dispatched.
    Data { stream_id: StreamId, outcome: DataOutcome },
    /// A CONTINUE: nothing to do.
    Continue { stream_id: StreamId },
    /// A CLOSE: the stream was dropped from the table.
    Close { stream_id: StreamId },
    /// A packet of another type: skipped.
    Unknown { packet_type: u8 },
}

/// What a DATA payload for stream `id` did to the stream table: with no such
/// stream nothing changes; otherwise only that stream's entry changes, and
/// only in its records of offered and handed payloads and its flow-control
/// count. The payload is offered to that stream's own channel either way. A
/// delivered payload is recorded as handed over and counted, with the grant
/// the count calls for; a dropped one is neither handed over nor counted.
pub open spec fn data_dispatched(
    before: Map<StreamId, StreamEntry>,
    after: Map<StreamId, StreamEntry>,
    id: StreamId,
    payload: Seq<u8>,
    outcome: DataOutcome,
) -> bool {
    if !before.contains_key(id) {
        outcome == DataOutcome::UnknownStream && after == before
    } else {
        let e = before[id];
        let e2 = after[id];
        &&& after == before.insert(id, e2)
        &&& e2.sender == e.sender
        &&& e2.buffer == e.buffer
        &&& e2.offered@ == e.offered@.push(payload)
        &&& match outcome {
            DataOutcome::Delivered { grant } => e2.handed@ == e.handed@.push(payload)
                && (e2.flow_control, grant) == flow_after_delivery(e.flow_control),
            DataOutcome::Dropped => e2.handed@ == e.handed@ && e2.flow_control == e.flow_control,
            DataOutcome::UnknownStream => false,
        }
    }
}

/// The flow control of a new stream: a TCP stream counts against the buffer
/// size, a UDP one (type 2) is not flow-controlled.
pub open spec fn initial_flow(stream_type: u8, buffer_size: u32) -> FlowControl {
    if stream_type == 2 {
        FlowControl::Disabled
    } else {
        FlowControl::Enabled { buffer_size, queued: 0 }
    }
}

/// A validated CONNECT request.
#[derive(Debug, Clone)]
pub struct ConnectRequest {
    pub stream_id: StreamId,
    /// 1 for TCP, 2 for UDP.
    pub stream_type: u8,
    pub port: u16,
    pub hostname: String,
}

/// A CONNECT that was refused: the stream is closed with `reason` and the
/// connection reports `error`.
#[derive(Debug)]
pub struct ConnectRejection {
    pub stream_id: StreamId,
    pub reason: u8,
    pub error: WispError,
}

/// The upstream address `host:port` of a request.
pub open spec fn target_text(hostname: Seq<char>, port: u16) -> Seq<char> {
    hostname + seq![':'] + decimal(port as nat)
}

impl ConnectRequest {
    /// Whether the request is for a UDP stream.
    pub fn is_udp(&self) -> (r: bool)
        ensures
            r == (self.stream_type == 2),
    {
        self.stream_type == 2
    }

    /// The upstream address in the form `host:port`.
    pub fn target(&self) -> (r: String)
        ensures
            r@ == target_text(self.hostname@, self.port),
    {
        let mut s = self.hostname.clone();
        string_push(&mut s, ':');
        push_decimal(&mut s, self.port as u64);
        assert(s@ =~= target_text(self.hostname@, self.port));
        s
    }
}

/// The verdict on a CONNECT payload, given the number of open streams:
/// at the stream limit it is refused first; a payload shorter than the
/// stream type and port is invalid; a stream type other than TCP (1) or UDP
/// (2) is invalid; otherwise it asks for the port in bytes 1 and 2 and the
/// host named by the rest, read as lossy UTF-8.
pub open spec fn connect_verdict(open_streams: nat, max_streams: u32, stream_id: StreamId, payload: Seq<u8>)
    -> Result<(u8, u16, Seq<char>), (u8, WispError)>
{
    if (open_streams as u32) >= max_streams {
        Err((CLOSE_STREAM_LIMIT, WispError::ConnectionLimitReached))
    } else if payload.len() < 3 {
        Err((CLOSE_INVALID_INFO, WispError::PacketTooShort(payload.len() as usize)))
    } else if payload[0] != 1 && payload[0] != 2 {
        Err((CLOSE_INVALID_INFO, WispError::InvalidStreamType(payload[0])))
    } else {
        Ok((payload[0], le_u16_at(payload, 1), utf8_lossy_text(payload.subrange(3, payload.len() as int))))
    }
}

/// The stream table of one WebSocket connection and the rules that decide
/// what each incoming frame does to it.
pub struct MuxState {
    streams: rustc_hash::FxHashMap<StreamId, StreamEntry>,
    buffer_config: BufferConfig,
    max_streams: u32,
}

impl MuxState {
    /// The table of a connection holds finitely many streams.
    #[verifier::type_invariant]
    spec fn table_finite(&self) -> bool {
        self.streams@.dom().finite()
    }

    /// The open streams, by id.
    pub closed spec fn streams(&self) -> Map<StreamId, StreamEntry> {
        self.streams@
    }

    pub closed spec fn spec_buffer_config(&self) -> BufferConfig {
        self.buffer_config
    }

    pub closed spec fn spec_max_streams(&self) -> u32 {
        self.max_streams
    }

    pub fn new(buffer_config: BufferConfig, max_streams: u32) -> (r: Self)
        ensures
            r.streams() == Map::<StreamId, StreamEntry>::empty(),
            r.spec_buffer_config() == buffer_config,
            r.spec_max_streams() == max_streams,
    {
        MuxState { streams: table_new(), buffer_config, max_streams }
    }

    /// The number of open streams.
    pub fn stream_count(&self) -> (r: usize)
        ensures
            self.streams().dom().finite(),
            r == self.streams().dom().len(),
    {
        proof {
            use_type_invariant(self);
        }
        table_len(&self.streams)
    }

    /// Whether a stream of this id is open.
    pub fn has_stream(&self, stream_id: StreamId) -> (r: bool)
        ensures
            r == self.streams().contains_key(stream_id),
    {
        table_get(&self.streams, stream_id).is_some()
    }

    /// The capacity of the channel that feeds a new stream's proxy task.
    pub fn channel_capacity(&self) -> (r: usize)
        ensures
            r == self.spec_buffer_config().initial_size as usize,
    {
        self.buffer_config.initial_size as usize
    }

    /// Reads the header of a binary frame and acts on it: a DATA payload is
    /// handed to its stream's channel, a CLOSE drops the stream, and a
    /// CONNECT is handed back for validation. Frames shorter than a header
    /// and packets of unknown type are skipped.
    pub fn handle_frame(&mut self, frame: bytes::Bytes) -> (r: FrameAction)
        ensures
            ({
                let s = bytes_seq(frame);
                let id = le_u32_at(s, 1);
                if s.len() < 5 {
                    r is TooShort && final(self).streams() == old(self).streams()
                } else if s[0] == 1 {
                    (r matches FrameAction::Connect { stream_id, payload } && stream_id == id
                        && bytes_seq(payload) == s.subrange(5, s.len() as int))
                        && final(self).streams() == old(self).streams()
                } else if s[0] == 2 {
                    r matches FrameAction::Data { stream_id, outcome } && stream_id == id
                        && data_dispatched(old(self).streams(), final(self).streams(), id, s.subrange(5, s.len() as int), outcome)
                } else if s[0] == 3 {
                    (r matches FrameAction::Continue { stream_id } && stream_id == id)
                        && final(self).streams() == old(self).streams()
                } else if s[0] == 4 {
                    (r matches FrameAction::Close { stream_id } && stream_id == id)
                        && final(self).streams() == old(self).streams().remove(id)
                } else {
                    (r matches FrameAction::Unknown { packet_type } && packet_type == s[0])
                        && final(self).streams() == old(self).streams()
                }
            }),
            final(self).spec_buffer_config() == old(self).spec_buffer_config(),
            final(self).spec_max_streams() == old(self).spec_max_streams(),
    {
        let s = bytes_as_slice(&frame);
        if s.len() < 5 {
            return FrameAction::TooShort;
        }
        let packet_type = s[0];
        let stream_id = (s[1] as u32) + (s[2] as u32) * 256 + (s[3] as u32) * 65536 + (s[4] as u32) * 16777216;
        assert(stream_id == le_u32_at(s@, 1));
        if packet_type == 1 {
            let payload = bytes_slice_from(&frame, 5);
            FrameAction::Connect { stream_id, payload }
        } else if packet_type == 2 {
            let data = bytes_slice_from(&frame, 5);
            let outcome = self.dispatch_data(stream_id, data);
            FrameAction::Data { stream_id, outcome }
        } else if packet_type == 3 {
            FrameAction::Continue { stream_id }
        } else if packet_type == 4 {
            self.close_stream(stream_id);
            FrameAction::Close { stream_id }
        } else {
            FrameAction::Unknown { packet_type }
        }
    }

    /// Hands a DATA payload to its stream's channel, without waiting, and
    /// counts it against the stream's flow control.
    pub fn dispatch_data(&mut self, stream_id: StreamId, payload: bytes::Bytes) -> (r: DataOutcome)
        ensures
            data_dispatched(old(self).streams(), final(self).streams(), stream_id, bytes_seq(payload), r),
            final(self).spec_buffer_config() == old(self).spec_buffer_config(),
            final(self).spec_max_streams() == old(self).spec_max_streams(),
    {
        proof {
            use_type_invariant(&*self);
        }
        let mut table = table_new();
        std::mem::swap(&mut table, &mut self.streams);
        let ghost before = table@;
        let outcome = match table_remove(&mut table, stream_id) {
            None => {
                assert(table@ =~= before);
                DataOutcome::UnknownStream
            },
            Some(mut entry) => {
                let outcome = if try_send_payload(&mut entry, payload) {
                    let (flow, grant) = count_delivery(entry.flow_control);
                    entry.flow_control = flow;
                    DataOutcome::Delivered { grant }
                } else {
                    DataOutcome::Dropped
                };
                table_insert(&mut table, stream_id, entry);
                assert(table@ =~= before.insert(stream_id, entry));
                outcome
            },
        };
        self.streams = table;
        outcome
    }

    /// Hands a DATA packet to its stream, failing when the stream is unknown
    /// or its channel does not take the payload; on success it gives the
    /// buffer size to grant with a CONTINUE, when flow control calls for one.
    pub fn handle_data(&mut self, packet: Packet) -> (r: Result<Option<u32>, WispError>)
        ensures
            exists|outcome: DataOutcome| {
                &&& data_dispatched(old(self).streams(), final(self).streams(), packet.stream_id, bytes_seq(packet.payload), outcome)
                &&& match outcome {
                    DataOutcome::UnknownStream => r matches Err(WispError::UnknownStream(id)) && id == packet.stream_id,
                    DataOutcome::Delivered { grant } => r == Ok::<Option<u32>, WispError>(grant),
                    DataOutcome::Dropped => r matches Err(WispError::BufferFull(id)) && id == packet.stream_id,
                }
            },
            final(self).spec_buffer_config() == old(self).spec_buffer_config(),
            final(self).spec_max_streams() == old(self).spec_max_streams(),
    {
        let id = packet.stream_id;
        match self.dispatch_data(id, packet.payload) {
            DataOutcome::UnknownStream => Err(WispError::UnknownStream(id)),
            DataOutcome::Delivered { grant } => Ok(grant),
            DataOutcome::Dropped => Err(WispError::BufferFull(id)),
        }
    }

    /// A CONTINUE from the client needs no action.
    pub fn handle_continue(&self, _stream_id: StreamId) -> (r: Result<(), WispError>)
        ensures
            r is Ok,
    {
        Ok(())
    }

    /// Validates a CONNECT payload against the stream limit and the format.
    pub fn check_connect(&self, stream_id: StreamId, payload: &bytes::Bytes) -> (r: Result<ConnectRequest, ConnectRejection>)
        ensures
            ({
                let verdict = connect_verdict(self.streams().dom().len(), self.spec_max_streams(), stream_id, bytes_seq(*payload));
                match verdict {
                    Ok((stream_type, port, hostname)) => r matches Ok(req) && req.stream_id == stream_id
                        && req.stream_type == stream_type && req.port == port && req.hostname@ == hostname,
                    Err((reason, error)) => r matches Err(rej) && rej.stream_id == stream_id
                        && rej.reason == reason && rej.error == error,
                }
            }),
    {
        proof {
            use_type_invariant(self);
        }
        let open = table_len(&self.streams);
        if (open as u32) >= self.max_streams {
            return Err(ConnectRejection { stream_id, reason: CLOSE_STREAM_LIMIT, error: WispError::ConnectionLimitReached });
        }
        let p = bytes_as_slice(payload);
        if p.len() < 3 {
            return Err(ConnectRejection { stream_id, reason: CLOSE_INVALID_INFO, error: WispError::PacketTooShort(p.len()) });
        }
        let stream_type = p[0];
        let port: u16 = (p[1] as u16) + (p[2] as u16) * 256;
        let hostname = utf8_lossy(&p[3..p.len()]);
        if stream_type != 1 && stream_type != 2 {
            return Err(ConnectRejection { stream_id, reason: CLOSE_INVALID_INFO, error: WispError::InvalidStreamType(stream_type) });
        }
        Ok(ConnectRequest { stream_id, stream_type, port, hostname })
    }

    /// Opens a stream of type `stream_type`: its channel, a fresh
    /// flow-control buffer and a fresh flow-control count are stored under
    /// its id, replacing any stream of the same id; nothing is handed to the
    /// new channel yet.
    pub fn register_stream(&mut self, stream_id: StreamId, stream_type: u8, sender: flume::Sender<bytes::Bytes>)
        ensures
            final(self).streams().dom() == old(self).streams().dom().insert(stream_id),
            forall|k: StreamId| k != stream_id && #[trigger] old(self).streams().contains_key(k) ==> final(self).streams()[k] == old(self).streams()[k],
            final(self).streams()[stream_id].sender == sender,
            final(self).streams()[stream_id].buffer@ == (old(self).spec_buffer_config().initial_size, 0u32),
            final(self).streams()[stream_id].buffer.spec_config() == old(self).spec_buffer_config(),
            final(self).streams()[stream_id].flow_control == initial_flow(stream_type, old(self).spec_buffer_config().initial_size),
            final(self).streams()[stream_id].offered@ == Seq::<Seq<u8>>::empty(),
            final(self).streams()[stream_id].handed@ == Seq::<Seq<u8>>::empty(),
            final(self).spec_buffer_config() == old(self).spec_buffer_config(),
            final(self).spec_max_streams() == old(self).spec_max_streams(),
    {
        let buffer = AdaptiveBuffer::new(self.buffer_config);
        proof {
            use_type_invariant(&*self);
        }
        let mut table = table_new();
        std::mem::swap(&mut table, &mut self.streams);
        let flow_control = if stream_type == 2 {
            FlowControl::Disabled
        } else {
            FlowControl::Enabled { buffer_size: self.buffer_config.initial_size, queued: 0 }
        };
        let entry = StreamEntry { sender, buffer, flow_control, offered: Ghost(Seq::empty()), handed: Ghost(Seq::empty()) };
        table_insert(&mut table, stream_id, entry);
        self.streams = table;
    }

    /// Closes a stream: it is dropped from the table.
    pub fn close_stream(&mut self, stream_id: StreamId)
        ensures
            final(self).streams() == old(self).streams().remove(stream_id),
            final(self).spec_buffer_config() == old(self).spec_buffer_config(),
            final(self).spec_max_streams() == old(self).spec_max_streams(),
    {
        proof {
            use_type_invariant(&*self);
        }
        let mut table = table_new();
        std::mem::swap(&mut table, &mut self.streams);
        table_remove(&mut table, stream_id);
        self.streams = table;
    }

    /// Drops every stream.
    pub fn clear(&mut self)
        ensures
            final(self).streams() == Map::<StreamId, StreamEntry>::empty(),
            final(self).spec_buffer_config() == old(self).spec_buffer_config(),
            final(self).spec_max_streams() == old(self).spec_max_streams(),
    {
        let mut table = table_new();
        std::mem::swap(&mut table, &mut self.streams);
        table_clear(&mut table);
        self.streams = table;
    }
}

/// The close reason for a connect refused by the circuit breaker: refused
/// when the breaker is open, unreachable when the upstream failed.
pub fn breaker_close_reason(e: &CircuitBreakerError) -> (r: u8)
    ensures
        r == (if e is CircuitOpen { CLOSE_REFUSED } else { CLOSE_UNREACHABLE }),
{
    match e {
        CircuitBreakerError::CircuitOpen => CLOSE_REFUSED,
        CircuitBreakerError::UpstreamError(_) => CLOSE_UNREACHABLE,
    }
}

/// Whether an I/O error is of kind `ErrorKind::ConnectionRefused`. The kind
/// is read from the error value alone: the kind it was made with, or for an
/// error from the operating system, its code decoded by the standard
/// library's table for the target.
pub uninterp spec fn io_refused(e: std::io::Error) -> bool;

/// `io::Error::kind() == ErrorKind::ConnectionRefused`.
#[verifier::external_body]
fn io_error_refused(e: &std::io::Error) -> (r: bool)
    ensures
        r == io_refused(*e),
{
    e.kind() == std::io::ErrorKind::ConnectionRefused
}

/// The close reason for a connect that failed with `e`, given whether an I/O
/// error was a refusal: a refused connection, an otherwise unreachable
/// destination, or invalid information for errors that are not I/O.
pub fn failure_reason_for(e: &WispError, refused: bool) -> (r: u8)
    ensures
        r == (if e is Io { if refused { CLOSE_REFUSED } else { CLOSE_UNREACHABLE } } else { CLOSE_INVALID_INFO }),
{
    match e {
        WispError::Io(_) => if refused { CLOSE_REFUSED } else { CLOSE_UNREACHABLE },
        _ => CLOSE_INVALID_INFO,
    }
}

/// The close reason for a connect that failed with `e`.
pub fn connect_failure_reason(e: &WispError) -> (r: u8)
    ensures
        *e matches WispError::Io(io) ==> r == (if io_refused(io) { CLOSE_REFUSED } else { CLOSE_UNREACHABLE }),
        !(e is Io) ==> r == CLOSE_INVALID_INFO,
{
    let refused = match e {
        WispError::Io(io) => io_error_refused(io),
        _ => false,
    };
    failure_reason_for(e, refused)
}

/// What to do after a failed connection attempt.
#[derive(Debug, Clone, Copy, PartialEq, Eq, Structural)]
pub enum RetryDecision {
    /// Wait this many milliseconds, then try again.
    Retry { delay_ms: u64 },
    /// Stop trying.
    GiveUp,
}

/// After the `attempts`-th failed attempt (counting from one): give up once
/// the attempts reach `max_attempts`, otherwise wait 100 ms per attempt made.
pub fn retry_after_failure(attempts: u32, max_attempts: u32) -> (r: RetryDecision)
    ensures
        attempts >= max_attempts ==> r == RetryDecision::GiveUp,
        attempts < max_attempts ==> r == (RetryDecision::Retry { delay_ms: (100 * attempts) as u64 }),
{
    if attempts >= max_attempts {
        RetryDecision::GiveUp
    } else {
        RetryDecision::Retry { delay_ms: 100 * (attempts as u64) }
    }
}

/// Once a stream is open, a CLOSE for it removes it and it is no longer
/// open; closing it again changes nothing.
pub proof fn lemma_close_removes(streams: Map<StreamId, StreamEntry>, id: StreamId)
    ensures
        !streams.remove(id).contains_key(id),
        streams.remove(id).remove(id) == streams.remove(id),
{
    assert(streams.remove(id).remove(id) =~= streams.remove(id));
}

/// A flow-controlled stream's count stays below its buffer size, and a
/// CONTINUE granting the full buffer is due exactly when a packet brings the
/// count up to the buffer size.
pub proof fn lemma_flow_count_stays_below_buffer(buffer_size: u32, queued: u32)
    requires
        queued < buffer_size,
    ensures
        ({
            let (f, grant) = flow_after_delivery(FlowControl::Enabled { buffer_size, queued });
            &&& f matches FlowControl::Enabled { buffer_size: b, queued: q } && b == buffer_size && q < buffer_size
            &&& (grant is Some <==> queued + 1 == buffer_size)
            &&& grant is Some ==> grant == Some(buffer_size)
        }),
{
}

} // verus!
