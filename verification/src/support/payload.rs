//! The byte buffers of the `bytes` crate, seen as sequences of bytes.
use vstd::prelude::*;

verus! {

/// Declares `bytes::Bytes`, the shared immutable buffer that carries payloads.
#[verifier::external_type_specification]
#[verifier::external_body]
pub struct ExBytes(bytes::Bytes);

/// The bytes that a `bytes::Bytes` buffer holds, in order.
pub uninterp spec fn bytes_seq(b: bytes::Bytes) -> Seq<u8>;

/// `<Bytes as Clone>::clone`: the clone shares the same bytes.
pub assume_specification[ <bytes::Bytes as Clone>::clone ](b: &bytes::Bytes) -> (r: bytes::Bytes)
    ensures
        bytes_seq(r) == bytes_seq(*b),
;

/// `Bytes::from(Vec<u8>)`: the buffer holds exactly the vector's bytes.
#[verifier::external_body]
pub(crate) fn bytes_from_vec(v: Vec<u8>) -> (b: bytes::Bytes)
    ensures
        bytes_seq(b) == v@,
{
    bytes::Bytes::from(v)
}

/// `Bytes::copy_from_slice`: the buffer holds a copy of the slice's bytes.
#[verifier::external_body]
pub(crate) fn bytes_copy_from_slice(s: &[u8]) -> (b: bytes::Bytes)
    ensures
        bytes_seq(b) == s@,
{
    bytes::Bytes::copy_from_slice(s)
}

/// `<Bytes as AsRef<[u8]>>::as_ref`: a slice over the buffer's bytes.
#[verifier::external_body]
pub(crate) fn bytes_as_slice(b: &bytes::Bytes) -> (s: &[u8])
    ensures
        s@ == bytes_seq(*b),
{
    b.as_ref()
}

/// `Bytes::slice(start..)`: a buffer sharing the bytes from `start` to the end.
/// The crate panics when `start` exceeds the length, which `requires` leaves out.
#[verifier::external_body]
pub(crate) fn bytes_slice_from(b: &bytes::Bytes, start: usize) -> (r: bytes::Bytes)
    requires
        start <= bytes_seq(*b).len(),
    ensures
        bytes_seq(r) == bytes_seq(*b).subrange(start as int, bytes_seq(*b).len() as int),
{
    b.slice(start..)
}

} // verus!
