//! Raw packets: an opaque byte buffer and the address it travels with.

use vstd::prelude::*;
use crate::addr::SocketAddress;

verus! {

/// `bytes::Bytes`: an immutable byte buffer. Opaque but for
/// [`bytes_contents`].
#[verifier::external_type_specification]
#[verifier::external_body]
pub struct ExBytes(bytes::Bytes);

/// The bytes that a `bytes::Bytes` buffer holds, first to last.
pub uninterp spec fn bytes_contents(buffer: bytes::Bytes) -> Seq<u8>;

/// `bytes::Bytes::copy_from_slice`: the new buffer holds a copy of the
/// slice, byte for byte.
#[verifier::external_body]
fn bytes_copy_from_slice(data: &[u8]) -> (buffer: bytes::Bytes)
    ensures
        bytes_contents(buffer) == data@,
{
    bytes::Bytes::copy_from_slice(data)
}

/// `bytes::Bytes::len`: the number of bytes that the buffer holds.
#[verifier::external_body]
fn bytes_len(buffer: &bytes::Bytes) -> (len: usize)
    ensures
        len == bytes_contents(*buffer).len(),
{
    buffer.len()
}

/// `AsRef<[u8]>` of `bytes::Bytes`: the buffer's bytes as a slice.
#[verifier::external_body]
fn bytes_as_slice(buffer: &bytes::Bytes) -> (data: &[u8])
    ensures
        data@ == bytes_contents(*buffer),
{
    buffer.as_ref()
}

/// `Clone` of `bytes::Bytes`: a second handle on the same bytes.
pub assume_specification[ <bytes::Bytes as Clone>::clone ](buffer: &bytes::Bytes) -> (copy:
    bytes::Bytes)
    ensures
        bytes_contents(copy) == bytes_contents(*buffer),
;

/// A byte buffer with the address it is sent to, or was received from.
#[derive(Debug, Clone, PartialEq, Eq)]
pub struct NetworkRawPacket {
    /// The destination of an outbound packet, the source of an inbound one.
    pub socket: Option<SocketAddress>,
    /// The payload. The transport adds no framing to it.
    pub bytes: bytes::Bytes,
}

impl View for NetworkRawPacket {
    type V = (Option<SocketAddress>, Seq<u8>);

    open spec fn view(&self) -> (Option<SocketAddress>, Seq<u8>) {
        (self.socket, bytes_contents(self.bytes))
    }
}

impl NetworkRawPacket {
    /// A packet that holds a copy of `data` and travels with `socket`.
    pub fn new(socket: Option<SocketAddress>, data: &[u8]) -> (packet: NetworkRawPacket)
        ensures
            packet@ == (socket, data@),
    {
        NetworkRawPacket { socket, bytes: bytes_copy_from_slice(data) }
    }

    /// The number of payload bytes.
    pub fn len(&self) -> (len: usize)
        ensures
            len == self@.1.len(),
    {
        bytes_len(&self.bytes)
    }

    /// The payload.
    pub fn payload(&self) -> (data: &[u8])
        ensures
            data@ == self@.1,
    {
        bytes_as_slice(&self.bytes)
    }

    /// A second packet with the same address and payload.
    pub fn duplicate(&self) -> (copy: NetworkRawPacket)
        ensures
            copy@ == self@,
    {
        NetworkRawPacket { socket: self.socket, bytes: self.bytes.clone() }
    }
}

} // verus!
