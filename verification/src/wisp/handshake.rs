use vstd::prelude::*;
use vstd::utf8::encode_utf8;

use crate::error::WispError;
use crate::support::payload::{bytes_as_slice, bytes_from_vec, bytes_seq};
use crate::support::text::{hex_byte, push_hex_byte, string_push_str};
use crate::wisp::extensions::{
    common_extensions, entry_views, extension_entries, extension_of, parse_extension_data,
    Extension, ExtensionData, ExtensionNegotiation,
};
use crate::wisp::packet::{decode_packet, le_u32_at, le_u32_bytes, lemma_le_u32_roundtrip, Packet, PacketType};

verus! {

/// The major version of the Wisp protocol that this server speaks.
pub const WISP_VERSION_MAJOR: u8 = 2;

/// The minor version of the Wisp protocol that this server speaks.
pub const WISP_VERSION_MINOR: u8 = 0;

#[derive(Debug, Clone, Copy, PartialEq, Eq, Structural)]
pub enum WispVersion {
    V1,
    V2,
}

/// Declares `http::HeaderMap`, the headers of the WebSocket upgrade request.
#[verifier::external_type_specification]
#[verifier::external_body]
#[verifier::reject_recursive_types(T)]
pub struct ExHeaderMap<T>(http::HeaderMap<T>);

/// Declares `http::HeaderValue`, the value type of a header map.
#[verifier::external_type_specification]
#[verifier::external_body]
pub struct ExHeaderValue(http::HeaderValue);

/// The names of the headers that a header map holds, in the lower case in
/// which `http` stores them.
pub uninterp spec fn header_names(headers: http::HeaderMap) -> Set<Seq<char>>;

/// `HeaderMap::contains_key("sec-websocket-protocol")`: whether a header of
/// that name is present.
#[verifier::external_body]
fn has_websocket_protocol(headers: &http::HeaderMap) -> (r: bool)
    ensures
        r == header_names(*headers).contains("sec-websocket-protocol"@),
{
    headers.contains_key("sec-websocket-protocol")
}

/// The protocol version a client asks for: v2 when it sent a
/// `Sec-WebSocket-Protocol` header, v1 otherwise.
pub open spec fn version_for(has_protocol_header: bool) -> WispVersion {
    if has_protocol_header {
        WispVersion::V2
    } else {
        WispVersion::V1
    }
}

pub fn detect_version(headers: &http::HeaderMap) -> (r: WispVersion)
    ensures
        r == version_for(header_names(*headers).contains("sec-websocket-protocol"@)),
{
    if has_websocket_protocol(headers) {
        WispVersion::V2
    } else {
        WispVersion::V1
    }
}

/// Each extension announced with an empty metadata field.
pub open spec fn bare_extension_entries(exts: Seq<Extension>) -> Seq<u8>
    decreases exts.len(),
{
    if exts.len() == 0 {
        Seq::empty()
    } else {
        bare_extension_entries(exts.drop_last()) + seq![exts.last().id(), 0u8, 0u8, 0u8, 0u8]
    }
}

/// The entry that announces one extension: the MOTD extension carries the
/// UTF-8 bytes of the message when there is one; every other extension, and
/// the MOTD without a message, carries an empty metadata field.
pub open spec fn announced_entry(e: Extension, motd: Option<Seq<char>>) -> Seq<u8> {
    if e == Extension::Motd && motd is Some {
        let text = encode_utf8(motd->Some_0);
        seq![e.id()] + le_u32_bytes(text.len() as u32) + text
    } else {
        seq![e.id(), 0u8, 0u8, 0u8, 0u8]
    }
}

/// The extension list that the server announces in its INFO packet.
pub open spec fn announced_extensions(exts: Seq<Extension>, motd: Option<Seq<char>>) -> Seq<u8>
    decreases exts.len(),
{
    if exts.len() == 0 {
        Seq::empty()
    } else {
        announced_extensions(exts.drop_last(), motd) + announced_entry(exts.last(), motd)
    }
}

/// The MOTD as plain text, when there is one.
pub open spec fn motd_view(motd: Option<String>) -> Option<Seq<char>> {
    match motd {
        Some(m) => Some(m@),
        None => None,
    }
}

/// The metadata the server announces for an extension.
pub open spec fn announced_metadata(e: Extension, motd: Option<Seq<char>>) -> Seq<u8> {
    if e == Extension::Motd && motd is Some {
        encode_utf8(motd->Some_0)
    } else {
        Seq::empty()
    }
}

/// What a client reading an announcement should find: each extension's id
/// with its metadata, in order.
pub open spec fn announced_views(exts: Seq<Extension>, motd: Option<Seq<char>>) -> Seq<(u8, Seq<u8>)> {
    exts.map_values(|e: Extension| (e.id(), announced_metadata(e, motd)))
}

/// An entry whose length field gives its metadata's length is read back as
/// its id and metadata, and reading goes on right after it.
proof fn lemma_entry_reads_back(id: u8, meta: Seq<u8>, rest: Seq<u8>)
    requires
        meta.len() <= u32::MAX,
    ensures
        extension_entries(seq![id] + le_u32_bytes(meta.len() as u32) + meta + rest)
            == seq![(id, meta)] + extension_entries(rest),
{
    let n = meta.len() as u32;
    let d = seq![id] + le_u32_bytes(n) + meta + rest;
    lemma_le_u32_roundtrip(n, 0, 0, 0, 0);
    let b = le_u32_bytes(n);
    assert(d[1] == b[0] && d[2] == b[1] && d[3] == b[2] && d[4] == b[3]);
    assert(le_u32_at(d, 1) == le_u32_at(b, 0));
    assert(d.subrange(5, 5 + meta.len() as int) =~= meta);
    assert(d.subrange(5 + meta.len() as int, d.len() as int) =~= rest);
    assert(d[0] == id);
}

/// Reading an announcement followed by more bytes gives the announced
/// entries, then whatever the rest reads as.
proof fn lemma_announcement_prefix(exts: Seq<Extension>, motd: Option<Seq<char>>, rest: Seq<u8>)
    requires
        motd is Some ==> encode_utf8(motd->Some_0).len() <= u32::MAX,
    ensures
        extension_entries(announced_extensions(exts, motd) + rest) == announced_views(exts, motd) + extension_entries(rest),
    decreases exts.len(),
{
    if exts.len() == 0 {
        assert(announced_extensions(exts, motd) + rest =~= rest);
        assert(announced_views(exts, motd) =~= Seq::<(u8, Seq<u8>)>::empty());
        assert(announced_views(exts, motd) + extension_entries(rest) =~= extension_entries(rest));
    } else {
        let init = exts.drop_last();
        let e = exts.last();
        let meta = announced_metadata(e, motd);
        let entry = announced_entry(e, motd);
        assert(entry =~= seq![e.id()] + le_u32_bytes(meta.len() as u32) + meta) by {
            if !(e == Extension::Motd && motd is Some) {
                assert(le_u32_bytes(0) =~= seq![0u8, 0u8, 0u8, 0u8]);
            }
        }
        lemma_entry_reads_back(e.id(), meta, rest);
        lemma_announcement_prefix(init, motd, entry + rest);
        assert(announced_extensions(exts, motd) + rest =~= announced_extensions(init, motd) + (entry + rest));
        assert(entry + rest =~= seq![e.id()] + le_u32_bytes(meta.len() as u32) + meta + rest);
        assert(announced_views(exts, motd) =~= announced_views(init, motd) + seq![(e.id(), meta)]);
        assert(announced_views(init, motd) + (seq![(e.id(), meta)] + extension_entries(rest))
            =~= announced_views(exts, motd) + extension_entries(rest));
    }
}

/// A client that reads the server's extension announcement gets back every
/// announced extension, in order, with the MOTD's text as the MOTD's
/// metadata and no metadata for the others.
pub proof fn lemma_announcement_reads_back(exts: Seq<Extension>, motd: Option<Seq<char>>)
    requires
        motd is Some ==> encode_utf8(motd->Some_0).len() <= u32::MAX,
    ensures
        extension_entries(announced_extensions(exts, motd)) == announced_views(exts, motd),
        known_extensions(extension_entries(announced_extensions(exts, motd))) == exts,
{
    lemma_announcement_prefix(exts, motd, Seq::empty());
    assert(announced_extensions(exts, motd) + Seq::<u8>::empty() =~= announced_extensions(exts, motd));
    assert(extension_entries(Seq::<u8>::empty()) == Seq::<(u8, Seq<u8>)>::empty());
    assert(announced_views(exts, motd) + Seq::<(u8, Seq<u8>)>::empty() =~= announced_views(exts, motd));
    lemma_known_extensions_of_views(exts, motd);
}

/// Keeping the known ids of announced views gives the extensions back.
proof fn lemma_known_extensions_of_views(exts: Seq<Extension>, motd: Option<Seq<char>>)
    ensures
        known_extensions(announced_views(exts, motd)) == exts,
    decreases exts.len(),
{
    if exts.len() > 0 {
        let init = exts.drop_last();
        lemma_known_extensions_of_views(init, motd);
        assert(announced_views(exts, motd).drop_last() =~= announced_views(init, motd));
        let e = exts.last();
        assert(extension_of(e.id()) == Some(e));
        assert(init.push(e) =~= exts);
    } else {
        assert(exts =~= Seq::<Extension>::empty());
    }
}

/// The bare announcement of `ServerInfo` is the announcement without a MOTD.
pub proof fn lemma_bare_is_announcement_without_motd(exts: Seq<Extension>)
    ensures
        bare_extension_entries(exts) == announced_extensions(exts, None),
    decreases exts.len(),
{
    if exts.len() > 0 {
        lemma_bare_is_announcement_without_motd(exts.drop_last());
    }
}

/// The version and extensions that the server announces.
#[derive(Debug, Clone)]
pub struct ServerInfo {
    pub version_major: u8,
    pub version_minor: u8,
    pub extensions: Vec<Extension>,
}

impl ServerInfo {
    pub fn new(major: u8, minor: u8, extensions: Vec<Extension>) -> (r: Self)
        ensures
            r.version_major == major,
            r.version_minor == minor,
            r.extensions@ == extensions@,
    {
        ServerInfo { version_major: major, version_minor: minor, extensions }
    }

    pub fn to_payload(&self) -> (r: bytes::Bytes)
        ensures
            bytes_seq(r) == seq![self.version_major, self.version_minor] + bare_extension_entries(self.extensions@),
    {
        let mut buf: Vec<u8> = Vec::new();
        buf.push(self.version_major);
        buf.push(self.version_minor);
        let mut i: usize = 0;
        while i < self.extensions.len()
            invariant
                i <= self.extensions@.len(),
                buf@ == seq![self.version_major, self.version_minor] + bare_extension_entries(self.extensions@.subrange(0, i as int)),
            decreases self.extensions@.len() - i,
        {
            let ghost before = buf@;
            buf.push(self.extensions[i].to_u8());
            buf.push(0);
            buf.push(0);
            buf.push(0);
            buf.push(0);
            assert(self.extensions@.subrange(0, i + 1).drop_last() == self.extensions@.subrange(0, i as int));
            i = i + 1;
            assert(buf@ =~= seq![self.version_major, self.version_minor] + bare_extension_entries(self.extensions@.subrange(0, i as int)));
        }
        assert(self.extensions@.subrange(0, self.extensions@.len() as int) == self.extensions@);
        bytes_from_vec(buf)
    }
}

/// The version and extension entries that a client sends in its INFO packet.
#[derive(Debug, Clone)]
pub struct ClientInfo {
    pub version_major: u8,
    pub version_minor: u8,
    pub extensions: Vec<ExtensionData>,
}

impl ClientInfo {
    pub fn parse(payload: bytes::Bytes) -> (r: Result<Self, WispError>)
        ensures
            ({
                let s = bytes_seq(payload);
                if s.len() < 2 {
                    r matches Err(e) && e == WispError::PacketTooShort(s.len() as usize)
                } else {
                    r matches Ok(info) && info.version_major == s[0] && info.version_minor == s[1]
                        && entry_views(info.extensions@) == extension_entries(s.subrange(2, s.len() as int))
                }
            }),
    {
        let s = bytes_as_slice(&payload);
        if s.len() < 2 {
            return Err(WispError::PacketTooShort(s.len()));
        }
        let version_major = s[0];
        let version_minor = s[1];
        let extensions = parse_extension_data(&s[2..s.len()]);
        Ok(ClientInfo { version_major, version_minor, extensions })
    }
}

/// Appends the announcement of each extension.
fn push_announced_extensions(out: &mut Vec<u8>, exts: &[Extension], motd: &Option<String>)
    ensures
        final(out)@ == old(out)@ + announced_extensions(exts@, motd_view(*motd)),
{
    let ghost start = out@;
    let mut i: usize = 0;
    while i < exts.len()
        invariant
            i <= exts@.len(),
            out@ == start + announced_extensions(exts@.subrange(0, i as int), motd_view(*motd)),
        decreases exts@.len() - i,
    {
        let ext = exts[i];
        let ghost before = out@;
        out.push(ext.to_u8());
        let mut wrote_text = false;
        if ext == Extension::Motd {
            match motd {
                Some(text) => {
                    let bytes = text.as_str().as_bytes();
                    let len = bytes.len() as u32;
                    out.push((len % 256) as u8);
                    out.push(((len / 256) % 256) as u8);
                    out.push(((len / 65536) % 256) as u8);
                    out.push((len / 16777216) as u8);
                    let mut j: usize = 0;
                    let ghost mid = out@;
                    while j < bytes.len()
                        invariant
                            j <= bytes@.len(),
                            out@ == mid + bytes@.subrange(0, j as int),
                        decreases bytes@.len() - j,
                    {
                        out.push(bytes[j]);
                        j = j + 1;
                        assert(out@ == mid + bytes@.subrange(0, j as int));
                    }
                    assert(bytes@.subrange(0, bytes@.len() as int) == bytes@);
                    wrote_text = true;
                    assert(out@ =~= before + announced_entry(ext, motd_view(*motd)));
                },
                None => {},
            }
        }
        if !wrote_text {
            out.push(0);
            out.push(0);
            out.push(0);
            out.push(0);
            assert(out@ =~= before + announced_entry(ext, motd_view(*motd)));
        }
        assert(exts@.subrange(0, i + 1).drop_last() == exts@.subrange(0, i as int));
        i = i + 1;
        assert(out@ =~= start + announced_extensions(exts@.subrange(0, i as int), motd_view(*motd)));
    }
    assert(exts@.subrange(0, exts@.len() as int) == exts@);
}

/// The INFO packet that opens a v2 handshake: stream 0, this server's
/// version, and the announcement of each of its extensions.
pub fn server_info_packet(server_extensions: &[Extension], motd: &Option<String>) -> (r: Packet)
    ensures
        r@ == (PacketType::Info, 0u32, seq![WISP_VERSION_MAJOR, WISP_VERSION_MINOR] + announced_extensions(server_extensions@, motd_view(*motd))),
{
    let mut ext_bytes: Vec<u8> = Vec::new();
    push_announced_extensions(&mut ext_bytes, server_extensions, motd);
    assert(ext_bytes@ =~= announced_extensions(server_extensions@, motd_view(*motd)));
    Packet::info(0, WISP_VERSION_MAJOR, WISP_VERSION_MINOR, ext_bytes.as_slice())
}

/// The extensions that a list of entries names, skipping unknown ids, in order.
pub open spec fn known_extensions(entries: Seq<(u8, Seq<u8>)>) -> Seq<Extension>
    decreases entries.len(),
{
    if entries.len() == 0 {
        Seq::empty()
    } else {
        let rest = known_extensions(entries.drop_last());
        match extension_of(entries.last().0) {
            Some(e) => rest.push(e),
            None => rest,
        }
    }
}

/// What the server does after the client's first message in a v2 handshake.
#[derive(Debug, Clone)]
pub struct HandshakeOutcome {
    /// The extensions both sides agreed on.
    pub negotiation: ExtensionNegotiation,
    /// The protocol version the connection goes on with.
    pub version: WispVersion,
    /// The packet the server sends back, if any.
    pub reply: Option<Packet>,
}

/// The message of the error for a packet type that has no place in a handshake.
pub open spec fn unexpected_packet_message(code: u8) -> Seq<char> {
    "unexpected packet type "@ + hex_byte(code) + " during handshake"@
}

/// How the server answers a client's first binary message in a v2 handshake.
pub enum HelloAnswer {
    /// Go on as v1, with nothing agreed and nothing sent.
    FallBack,
    /// Go on as v2 with the extensions that the client listed and this
    /// server knows, in the client's order, sending a CONTINUE.
    Accept(Seq<Extension>),
    /// Fail with this error.
    Fail(WispError),
    /// Fail because a packet of this type has no place in a handshake.
    Unexpected(u8),
}

/// The server's answer to a client's first binary message in a v2 handshake.
pub open spec fn handshake_answer(frame: Seq<u8>, server_extensions: Seq<Extension>) -> HelloAnswer {
    match decode_packet(frame) {
        Err(e) => HelloAnswer::Fail(e),
        Ok((t, _id, payload)) => {
            if t == PacketType::Continue {
                HelloAnswer::FallBack
            } else if t == PacketType::Info {
                if payload.len() < 2 {
                    HelloAnswer::Fail(WispError::PacketTooShort(payload.len() as usize))
                } else if payload[0] > WISP_VERSION_MAJOR {
                    HelloAnswer::Fail(WispError::IncompatibleVersion)
                } else {
                    HelloAnswer::Accept(known_extensions(extension_entries(payload.subrange(2, payload.len() as int))))
                }
            } else {
                HelloAnswer::Unexpected(t.code())
            }
        },
    }
}

/// The client's first message in a v2 handshake decides the rest: a CONTINUE
/// falls back to v1 with nothing agreed and nothing sent; an INFO is parsed,
/// and a client whose major version is above this server's is refused as
/// incompatible, otherwise its known extensions are matched against the
/// server's and a CONTINUE on stream 0 with the initial buffer size is sent
/// back; any other packet, or a frame that does not parse, fails the
/// handshake.
pub fn answer_client_hello(
    frame: bytes::Bytes,
    server_extensions: &[Extension],
    buffer_size: u32,
) -> (r: Result<HandshakeOutcome, WispError>)
    ensures
        match handshake_answer(bytes_seq(frame), server_extensions@) {
            HelloAnswer::FallBack => r matches Ok(out) && out.version == WispVersion::V1
                && out.negotiation.server_supported@ == Seq::<Extension>::empty()
                && out.negotiation.client_supported@ == Seq::<Extension>::empty()
                && out.negotiation.agreed@ == Seq::<Extension>::empty() && out.reply is None,
            HelloAnswer::Accept(client) => r matches Ok(out) && out.version == WispVersion::V2
                && out.negotiation.server_supported@ == server_extensions@
                && out.negotiation.client_supported@ == client
                && out.negotiation.agreed@ == common_extensions(server_extensions@, client)
                && (out.reply matches Some(p) && p@ == (PacketType::Continue, 0u32, le_u32_bytes(buffer_size))),
            HelloAnswer::Fail(e) => r matches Err(e2) && e2 == e,
            HelloAnswer::Unexpected(code) => r matches Err(e) && (e matches WispError::WebSocket(m) && m@ == unexpected_packet_message(code)),
        },
{
    let packet = match Packet::parse(frame) {
        Ok(p) => p,
        Err(e) => return Err(e),
    };
    match packet.packet_type {
        PacketType::Continue => {
            let negotiation = ExtensionNegotiation::negotiate(&[], &[]);
            assert(negotiation.agreed@ == Seq::<Extension>::empty());
            Ok(HandshakeOutcome { negotiation, version: WispVersion::V1, reply: None })
        },
        PacketType::Info => {
            let client_info = match ClientInfo::parse(packet.payload) {
                Ok(c) => c,
                Err(e) => return Err(e),
            };
            if client_info.version_major > WISP_VERSION_MAJOR {
                return Err(WispError::IncompatibleVersion);
            }
            let mut client_extensions: Vec<Extension> = Vec::new();
            let mut i: usize = 0;
            while i < client_info.extensions.len()
                invariant
                    i <= client_info.extensions@.len(),
                    client_extensions@ == known_extensions(entry_views(client_info.extensions@.subrange(0, i as int))),
                decreases client_info.extensions@.len() - i,
            {
                assert(entry_views(client_info.extensions@.subrange(0, i + 1)).drop_last()
                    =~= entry_views(client_info.extensions@.subrange(0, i as int)));
                assert(entry_views(client_info.extensions@.subrange(0, i + 1)).last() == client_info.extensions@[i as int]@);
                match Extension::from_u8(client_info.extensions[i].id) {
                    Some(e) => client_extensions.push(e),
                    None => {},
                }
                i = i + 1;
            }
            assert(client_info.extensions@.subrange(0, client_info.extensions@.len() as int) == client_info.extensions@);
            let negotiation = ExtensionNegotiation::negotiate(server_extensions, client_extensions.as_slice());
            let reply = Packet::continue_packet(0, buffer_size);
            Ok(HandshakeOutcome { negotiation, version: WispVersion::V2, reply: Some(reply) })
        },
        other => {
            let mut msg = String::new();
            string_push_str(&mut msg, "unexpected packet type ");
            push_hex_byte(&mut msg, other.to_u8());
            string_push_str(&mut msg, " during handshake");
            assert(msg@ =~= unexpected_packet_message(other.code()));
            Err(WispError::WebSocket(msg))
        },
    }
}

/// Close reason: the client's version or extensions are incompatible.
pub const CLOSE_INCOMPATIBLE: u8 = 0x04;

/// The packet the server sends when a handshake fails with `e`: a refused
/// incompatible client is told so with a CLOSE on stream 0; other failures
/// send nothing.
pub fn handshake_failure_reply(e: &WispError) -> (r: Option<Packet>)
    ensures
        e is IncompatibleVersion ==> (r matches Some(p) && p@ == (PacketType::Close, 0u32, seq![CLOSE_INCOMPATIBLE])),
        !(e is IncompatibleVersion) ==> r is None,
{
    match e {
        WispError::IncompatibleVersion => Some(Packet::close(0, CLOSE_INCOMPATIBLE)),
        _ => None,
    }
}

} // verus!
