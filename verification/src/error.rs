use vstd::prelude::*;

verus! {

/// Declares the standard I/O error so that it can travel inside [`WispError`].
#[verifier::external_type_specification]
#[verifier::external_body]
pub struct ExIoError(std::io::Error);

/// Errors of the Wisp server.
#[derive(Debug)]
pub enum WispError {
    Io(std::io::Error),
    WebSocket(String),
    InvalidPacketType(u8),
    PacketTooShort(usize),
    InvalidStreamType(u8),
    ConnectionClosed,
    UnknownStream(u32),
    BufferFull(u32),
    IncompatibleVersion,
    HandshakeTimeout,
    InvalidCloseReason(u8),
    ConnectionLimitReached,
    Config(String),
}

} // verus!
