//! The node: an addressable endpoint that the host polls.

use std::sync::atomic::AtomicBool;
use std::sync::Arc;
use vstd::prelude::*;
use crate::addr::SocketAddress;
use crate::channel::AsyncChannel;
use crate::error::{ErrorKind, NetworkError};
use crate::packet::NetworkRawPacket;
use crate::protocol::NetworkProtocol;
use crate::text::{decimal, push_decimal};

verus! {

/// The packet size of a node that was given no other.
pub const DEFAULT_MAX_PACKET_SIZE: usize = 65535;

/// An endpoint with a receive, a send and an error channel, and the flag by
/// which its background tasks are asked to stop.
///
/// The flag and the channels are shared with those tasks. The contracts
/// below speak of the node's own fields only: what a task stored in the
/// flag or put into a channel in the meantime is not theirs to state.
pub struct NetworkNode {
    /// Packets that the receive loop read, waiting for the host.
    pub recv_message_channel: AsyncChannel<NetworkRawPacket>,
    /// Packets that the host queued, waiting for the send loop.
    pub send_message_channel: AsyncChannel<NetworkRawPacket>,
    /// Errors that the tasks met, waiting for the host.
    pub error_channel: AsyncChannel<NetworkError>,
    /// Set to ask the node's tasks to stop at their next check.
    pub cancel_flag: Arc<AtomicBool>,
    /// Whether the node was started and not stopped since.
    pub running: bool,
    pub local_addr: SocketAddress,
    pub peer_addr: Option<SocketAddress>,
    pub max_packet_size: usize,
    pub auto_start: bool,
    pub protocol: NetworkProtocol,
}

impl NetworkNode {
    /// Whether `self` differs from `before` at most in `running`: the
    /// addresses, the limits, the protocol, the channels and the flag's
    /// handle are those of `before`.
    pub open spec fn same_endpoint(&self, before: &NetworkNode) -> bool {
        *self == (NetworkNode { running: self.running, ..*before })
    }

    /// A fresh node: not running, not cancelled, with empty channels.
    pub fn new(
        protocol: NetworkProtocol,
        local_addr: SocketAddress,
        peer_addr: Option<SocketAddress>,
    ) -> (node: NetworkNode)
        ensures
            !node.running,
            node.local_addr == local_addr,
            node.peer_addr == peer_addr,
            node.max_packet_size == DEFAULT_MAX_PACKET_SIZE,
            node.auto_start,
            node.protocol == protocol,
    {
        NetworkNode {
            recv_message_channel: AsyncChannel::new(),
            send_message_channel: AsyncChannel::new(),
            error_channel: AsyncChannel::new(),
            cancel_flag: Arc::new(AtomicBool::new(false)),
            running: false,
            local_addr,
            peer_addr,
            max_packet_size: DEFAULT_MAX_PACKET_SIZE,
            auto_start: true,
            protocol,
        }
    }

    /// Clears the cancellation flag and marks the node as running. I/O in
    /// flight is not touched.
    pub fn start(&mut self)
        ensures
            final(self).running,
            final(self).same_endpoint(old(self)),
    {
        self.cancel_flag.store(false, std::sync::atomic::Ordering::Relaxed);
        self.running = true;
    }

    /// Sets the cancellation flag and marks the node as stopped. The tasks
    /// see the flag at their next check; I/O in flight is not aborted.
    pub fn stop(&mut self)
        ensures
            !final(self).running,
            final(self).same_endpoint(old(self)),
    {
        self.cancel_flag.store(true, std::sync::atomic::Ordering::Relaxed);
        self.running = false;
    }

    /// Whether the cancellation flag is set at this moment.
    pub fn is_cancelled(&self) -> bool {
        self.cancel_flag.load(std::sync::atomic::Ordering::Relaxed)
    }

    /// Whether the node was started and not stopped since.
    pub fn is_running(&self) -> (running: bool)
        ensures
            running == self.running,
    {
        self.running
    }

    /// The protocol tag.
    pub fn protocol(&self) -> (protocol: NetworkProtocol)
        ensures
            protocol == self.protocol,
    {
        self.protocol
    }

    /// The packet that [`NetworkNode::send`] queues for `bytes`: a copy of
    /// them, addressed to the node's peer.
    pub fn outbound(&self, bytes: &[u8]) -> (packet: NetworkRawPacket)
        ensures
            packet@ == (self.peer_addr, bytes@),
    {
        NetworkRawPacket::new(self.peer_addr, bytes)
    }

    /// The packet that [`NetworkNode::send_to`] queues for `bytes`: a copy
    /// of them, addressed to the first of the resolved addresses.
    /// `ResolveFailed` exactly when there is none.
    pub fn outbound_to(bytes: &[u8], resolved: &[SocketAddress]) -> (res: Result<
        NetworkRawPacket,
        NetworkError,
    >)
        ensures
            resolved@.len() > 0 <==> res is Ok,
            res matches Ok(packet) ==> packet@ == (Some(resolved@[0]), bytes@),
            res matches Err(e) ==> e@ == (ErrorKind::ResolveFailed, Seq::<char>::empty()),
    {
        if resolved.len() == 0 {
            Err(NetworkError::new(ErrorKind::ResolveFailed, String::new()))
        } else {
            Ok(NetworkRawPacket::new(Some(resolved[0]), bytes))
        }
    }

    /// Queues a copy of `bytes` for the node's peer, without waiting. Fails
    /// with `ChannelClosed`, and in no other way, when the send channel has
    /// lost its other side.
    pub fn send(&self, bytes: &[u8]) -> (res: Result<(), NetworkError>)
        ensures
            res matches Err(e) ==> e@ == (ErrorKind::ChannelClosed, Seq::<char>::empty()),
    {
        self.send_message_channel.try_send(self.outbound(bytes))
    }

    /// Queues a copy of `bytes` for the first of the resolved addresses,
    /// whatever the node's peer is. `ResolveFailed` exactly when `resolved`
    /// is empty; otherwise as [`NetworkNode::send`].
    pub fn send_to(&self, bytes: &[u8], resolved: &[SocketAddress]) -> (res: Result<
        (),
        NetworkError,
    >)
        ensures
            resolved@.len() == 0 ==> (res matches Err(e) && e@ == (
                ErrorKind::ResolveFailed,
                Seq::<char>::empty(),
            )),
            resolved@.len() > 0 ==> (res matches Err(e) ==> e@ == (
                ErrorKind::ChannelClosed,
                Seq::<char>::empty(),
            )),
    {
        match NetworkNode::outbound_to(bytes, resolved) {
            Ok(packet) => self.send_message_channel.try_send(packet),
            Err(e) => Err(e),
        }
    }

    /// Takes the next received packet, if one is queued, without waiting.
    pub fn try_recv(&self) -> (res: Result<Option<NetworkRawPacket>, NetworkError>)
        ensures
            res matches Err(e) ==> e@ == (ErrorKind::ChannelClosed, Seq::<char>::empty()),
    {
        self.recv_message_channel.try_recv()
    }

    /// Takes the next reported error, if one is queued, without waiting.
    pub fn try_recv_error(&self) -> (res: Result<Option<NetworkError>, NetworkError>)
        ensures
            res matches Err(e) ==> e@ == (ErrorKind::ChannelClosed, Seq::<char>::empty()),
    {
        self.error_channel.try_recv()
    }

    /// Puts `error` on the node's error channel, without waiting.
    pub fn report(&self, error: NetworkError) -> (res: Result<(), NetworkError>)
        ensures
            res matches Err(e) ==> e@ == (ErrorKind::ChannelClosed, Seq::<char>::empty()),
    {
        self.error_channel.try_send(error)
    }

    /// The node's schema: the protocol's scheme, `://`, the local IP
    /// address, `:` and the local port in decimal.
    pub open spec fn schema_text(&self) -> Seq<char> {
        self.protocol.scheme() + seq![':', '/', '/'] + self.local_addr.ip.text() + seq![':']
            + decimal(self.local_addr.port as nat)
    }

    /// The node's schema string, `protocol://ip:port`, for diagnostics.
    pub fn schema(&self) -> (schema: String)
        ensures
            schema@ == self.schema_text(),
    {
        let mut schema = String::new();
        schema.append(self.protocol.as_str());
        schema.push(':');
        schema.push('/');
        schema.push('/');
        self.local_addr.ip.push_text(&mut schema);
        schema.push(':');
        push_decimal(&mut schema, self.local_addr.port);
        assert(schema@ =~= self.schema_text());
        schema
    }

    /// The channel on which received packets arrive.
    pub fn recv_channel(&self) -> (channel: &AsyncChannel<NetworkRawPacket>)
        ensures
            channel == &self.recv_message_channel,
    {
        &self.recv_message_channel
    }

    /// The channel on which packets wait to be sent.
    pub fn send_channel(&self) -> (channel: &AsyncChannel<NetworkRawPacket>)
        ensures
            channel == &self.send_message_channel,
    {
        &self.send_message_channel
    }

    /// The channel on which errors are reported.
    pub fn error_channel(&self) -> (channel: &AsyncChannel<NetworkError>)
        ensures
            channel == &self.error_channel,
    {
        &self.error_channel
    }
}

} // verus!
