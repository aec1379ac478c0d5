//! The TCP transport: the server endpoint, the client endpoint and what
//! their tasks decide.

use vstd::prelude::*;
use crate::addr::SocketAddress;
use crate::error::{ErrorKind, NetworkError};
use crate::node::NetworkNode;
use crate::packet::NetworkRawPacket;
use crate::protocol::NetworkProtocol;
use crate::registry::{NetworkEvent, NodeEntry, NodeId, NodeRegistry};
use crate::recv::{RecvAction, RecvEvent, RecvLoop, RecvPhase, RecvReport, recv_ends_at};
use crate::send::{
    SendAction, SendEvent, SendLoop, SendPhase, SendReport, batch_failures, batch_payloads,
    event_batch, send_attempted, send_ends_at, send_failures,
};
use vstd::slice::slice_to_vec;

verus! {

/// The read buffer of the receive loop of an adopted connection.
pub const ADOPTED_MAX_PACKET_SIZE: usize = 65507;

/// How far a server endpoint has come.
#[derive(Debug, Clone, Copy, PartialEq, Eq, Structural)]
pub enum ListenerState {
    /// No listener was acquired.
    Unbound,
    /// The listener is bound; nothing accepts yet.
    Bound,
    /// The accept loop runs.
    Accepting,
}

/// What the caller of [`TcpServerNode::start`] does next.
#[derive(Debug, Clone, Copy, PartialEq, Eq, Structural)]
pub enum ServerStart {
    /// Spawn one accept loop on the listener.
    Accept,
    /// Nothing: there is no listener, and the node's error channel says so.
    NotBound,
}

/// What the accept loop does with the outcome of one accept.
#[derive(Debug, Clone, Copy, PartialEq, Eq, Structural)]
pub enum AcceptAction {
    /// Queue the connection for adoption, then accept again.
    Forward,
    /// Accept again.
    Retry,
}

/// A listening endpoint.
#[derive(Debug, Clone, Copy, PartialEq, Eq)]
pub struct TcpServerNode {
    pub state: ListenerState,
    /// The address that the listener is bound to.
    pub local_addr: Option<SocketAddress>,
}

impl TcpServerNode {
    /// The endpoint of a bind that was just tried. A failed bind is fatal
    /// and surfaces here, as `BindFailed` with the message of the failure.
    pub fn new(bound: Result<SocketAddress, String>) -> (res: Result<TcpServerNode, NetworkError>)
        ensures
            match bound {
                Ok(addr) => res matches Ok(server) && server.state == ListenerState::Bound
                    && server.local_addr == Some(addr),
                Err(message) => res matches Err(e) && e@ == (ErrorKind::BindFailed, message@),
            },
    {
        match bound {
            Ok(addr) => Ok(TcpServerNode { state: ListenerState::Bound, local_addr: Some(addr) }),
            Err(message) => Err(NetworkError::new(ErrorKind::BindFailed, message)),
        }
    }

    /// An endpoint without a listener.
    pub fn unbound() -> (server: TcpServerNode)
        ensures
            server.state == ListenerState::Unbound,
            server.local_addr.is_none(),
    {
        TcpServerNode { state: ListenerState::Unbound, local_addr: None }
    }

    /// The error that a server without a listener reports when started.
    pub fn not_bound_error() -> (error: NetworkError)
        ensures
            error@ == (ErrorKind::BindFailed, "server not exist"@),
    {
        NetworkError::new(ErrorKind::BindFailed, "server not exist".to_owned())
    }

    /// Starts the endpoint. With a listener, the caller is told to spawn
    /// the accept loop and the endpoint is `Accepting`. Without one, the
    /// endpoint stays as it is and the failure goes to the error channel of
    /// `node`; if that channel is closed, the call fails with
    /// `ChannelClosed`.
    pub fn start(&mut self, node: &NetworkNode) -> (res: Result<ServerStart, NetworkError>)
        ensures
            final(self).local_addr == old(self).local_addr,
            old(self).state != ListenerState::Unbound ==> {
                &&& res == Ok::<ServerStart, NetworkError>(ServerStart::Accept)
                &&& final(self).state == ListenerState::Accepting
            },
            old(self).state == ListenerState::Unbound ==> {
                &&& final(self).state == ListenerState::Unbound
                &&& res matches Ok(next) ==> next == ServerStart::NotBound
                &&& res matches Err(e) ==> e@ == (ErrorKind::ChannelClosed, Seq::<char>::empty())
            },
    {
        if self.state == ListenerState::Unbound {
            match node.report(TcpServerNode::not_bound_error()) {
                Ok(()) => Ok(ServerStart::NotBound),
                Err(e) => Err(e),
            }
        } else {
            self.state = ListenerState::Accepting;
            Ok(ServerStart::Accept)
        }
    }

    /// One turn of the accept loop. An accepted connection is queued; a
    /// failed accept is passed over. The loop never ends by itself and does
    /// not look at the cancellation flag.
    pub fn accept_step(accepted: bool) -> (action: AcceptAction)
        ensures
            action == if accepted {
                AcceptAction::Forward
            } else {
                AcceptAction::Retry
            },
    {
        if accepted {
            AcceptAction::Forward
        } else {
            AcceptAction::Retry
        }
    }

    /// Runs the receive loop of one connection over what its iterations
    /// meet, in order, and says what it forwarded.
    ///
    /// Each event stands for one iteration: the flag was set, or the read
    /// returned bytes, or the read failed. The loop is the one that
    /// [`RecvLoop`] steps through.
    pub fn recv_loop(
        source: Option<SocketAddress>,
        max_packet_size: usize,
        events: &Vec<RecvEvent>,
    ) -> (report: RecvReport)
        ensures
            report.describes(source, events@),
    {
        let mut state = RecvLoop::new(source, max_packet_size);
        let mut packets: Vec<NetworkRawPacket> = Vec::new();
        let mut errors: Vec<NetworkError> = Vec::new();
        let mut finished = false;
        let mut i: usize = 0;
        while i < events.len() && !finished
            invariant
                i <= events@.len(),
                state.source == source,
                state.max_packet_size == max_packet_size,
                !finished ==> state.phase == RecvPhase::Idle && packets@.len() == i
                    && errors@.len() == 0,
                finished ==> i >= 1 && packets@.len() == i - 1 && !events@[i - 1].continues(),
                finished && events@[i - 1] is Failed ==> errors@.len() == 1 && errors@[0]@ == (
                    ErrorKind::ReadFailed,
                    events@[i - 1]->Failed_0@,
                ),
                finished && !(events@[i - 1] is Failed) ==> errors@.len() == 0,
                forall|j: int| 0 <= j < packets@.len() ==> (#[trigger] events@[j]).continues(),
                forall|j: int|
                    0 <= j < packets@.len() ==> (#[trigger] packets@[j])@ == (
                        source,
                        events@[j].payload(),
                    ),
            decreases events@.len() - i,
        {
            let event = &events[i];
            let cancelled = match event {
                RecvEvent::Cancelled => true,
                _ => false,
            };
            let asked = state.poll(cancelled);
            let action = match event {
                RecvEvent::Read(data) => state.on_read(Ok(data.len()), data.as_slice()),
                RecvEvent::Failed(message) => {
                    let nothing: Vec<u8> = Vec::new();
                    state.on_read(Err(message.clone()), nothing.as_slice())
                },
                RecvEvent::Cancelled => asked,
            };
            match action {
                RecvAction::Deliver(packet) => {
                    assert(event.continues());
                    assert(packet@.1 =~= event.payload());
                    packets.push(packet);
                },
                RecvAction::Report(error) => {
                    errors.push(error);
                    finished = true;
                },
                _ => {
                    finished = true;
                },
            }
            i = i + 1;
        }
        proof {
            let k = packets@.len() as int;
            assert(recv_ends_at(events@, k));
        }
        RecvReport { packets, errors, consumed: i, finished }
    }
}

/// What the task of a client does next.
#[derive(Debug)]
pub enum ClientAction {
    /// Connect to the address, once, then call
    /// [`TcpClientNode::on_connect`].
    Connect(SocketAddress),
    /// Run the send loop on the connection.
    Send(SendLoop),
    /// Forward the error to the node's error channel, then end. Nothing is
    /// tried again.
    Report(NetworkError),
}

/// A connecting endpoint: the one address that it will connect to.
#[derive(Debug, Clone, Copy, PartialEq, Eq)]
pub struct TcpClientNode {
    pub socket: SocketAddress,
}

impl TcpClientNode {
    /// The endpoint for the first of the addresses that the target
    /// resolved to. A target that resolved to nothing is fatal and surfaces
    /// here, as `ResolveFailed`.
    pub fn new(resolved: &[SocketAddress]) -> (res: Result<TcpClientNode, NetworkError>)
        ensures
            resolved@.len() > 0 <==> res is Ok,
            res matches Ok(client) ==> client.socket == resolved@[0],
            res matches Err(e) ==> e@ == (ErrorKind::ResolveFailed, Seq::<char>::empty()),
    {
        if resolved.len() == 0 {
            Err(NetworkError::new(ErrorKind::ResolveFailed, String::new()))
        } else {
            Ok(TcpClientNode { socket: resolved[0] })
        }
    }

    /// Starts the endpoint: its task is to connect to the target.
    pub fn start(&self) -> (action: ClientAction)
        ensures
            action matches ClientAction::Connect(target) && target == self.socket,
    {
        ClientAction::Connect(self.socket)
    }

    /// The end of the connection attempt; `outcome` holds the message of
    /// its failure. On success the send loop starts; a failure is reported
    /// as `ConnectFailed`, once, and nothing is retried.
    pub fn on_connect(&self, outcome: Result<(), String>) -> (action: ClientAction)
        ensures
            match outcome {
                Ok(_) => action matches ClientAction::Send(state) && state.phase
                    == SendPhase::Idle,
                Err(message) => action matches ClientAction::Report(e) && e@ == (
                    ErrorKind::ConnectFailed,
                    message@,
                ),
            },
    {
        match outcome {
            Ok(_) => ClientAction::Send(SendLoop::new()),
            Err(message) => ClientAction::Report(
                NetworkError::new(ErrorKind::ConnectFailed, message),
            ),
        }
    }

    /// Runs the send loop of one connection over what its turns meet, in
    /// order, and says what it handed to the socket and what it reported.
    ///
    /// Each event stands for one turn: the flag was set, or these packets
    /// were queued, or the channel was closed. The loop is the one that
    /// [`SendLoop`] steps through.
    pub fn send_loop(events: &Vec<SendEvent>) -> (report: SendReport)
        ensures
            report.describes(events@),
    {
        let mut state = SendLoop::new();
        let mut writes: Vec<Vec<u8>> = Vec::new();
        let mut errors: Vec<NetworkError> = Vec::new();
        let mut finished = false;
        let mut i: usize = 0;
        let ghost mut written: Seq<Seq<u8>> = Seq::empty();
        let ghost mut reported: Seq<Seq<char>> = Seq::empty();
        while i < events.len() && !finished
            invariant
                i <= events@.len(),
                !finished ==> state.phase == SendPhase::Idle && send_ends_at(
                    events@.take(i as int),
                    i as int,
                ),
                finished ==> i >= 1 && send_ends_at(events@, i - 1) && i - 1 < events@.len(),
                written == send_attempted(events@, if finished { i - 1 } else { i as int }),
                reported == send_failures(events@, if finished { i - 1 } else { i as int }),
                written == Seq::new(writes@.len(), |n: int| writes@[n]@),
                reported == Seq::new(errors@.len(), |n: int| errors@[n]@.1),
                forall|n: int|
                    0 <= n < errors@.len() ==> (#[trigger] errors@[n])@.0
                        == ErrorKind::WriteFailed,
            decreases events@.len() - i,
        {
            let event = &events[i];
            let cancelled = match event {
                SendEvent::Cancelled => true,
                _ => false,
            };
            assert(forall|n: int| 0 <= n < i ==> events@.take(i as int)[n] == events@[n]);
            match state.poll(cancelled) {
                SendAction::Exit => {
                    finished = true;
                },
                SendAction::Drain => {
                    match event {
                        SendEvent::Batch(batch) => {
                            let ghost before_writes = written;
                            let ghost before_errors = reported;
                            let mut j: usize = 0;
                            while j < batch.len()
                                invariant
                                    j <= batch@.len(),
                                    state.phase == SendPhase::Draining,
                                    written == before_writes + batch_payloads(
                                        batch@.take(j as int),
                                    ),
                                    reported == before_errors + batch_failures(
                                        batch@.take(j as int),
                                    ),
                                    written == Seq::new(writes@.len(), |n: int| writes@[n]@),
                                    reported == Seq::new(errors@.len(), |n: int| errors@[n]@.1),
                                    forall|n: int|
                                        0 <= n < errors@.len() ==> (#[trigger] errors@[n])@.0
                                            == ErrorKind::WriteFailed,
                                decreases batch@.len() - j,
                            {
                                let out = &batch[j];
                                let payload = slice_to_vec(out.packet.payload());
                                proof {
                                    let next = batch@.take(j + 1);
                                    assert(next.drop_last() =~= batch@.take(j as int));
                                    assert(next.last() == batch@[j as int]);
                                    assert(batch_payloads(next) =~= batch_payloads(
                                        batch@.take(j as int),
                                    ).push(payload@));
                                    written = written.push(payload@);
                                }
                                writes.push(payload);
                                let outcome = match &out.failure {
                                    None => Ok(()),
                                    Some(message) => Err(message.clone()),
                                };
                                match state.on_written(outcome) {
                                    None => {},
                                    Some(error) => {
                                        proof {
                                            reported = reported.push(error@.1);
                                        }
                                        errors.push(error);
                                    },
                                }
                                assert(written =~= Seq::new(writes@.len(), |n: int| writes@[n]@));
                                assert(reported =~= Seq::new(
                                    errors@.len(),
                                    |n: int| errors@[n]@.1,
                                ));
                                assert(written =~= before_writes + batch_payloads(
                                    batch@.take(j + 1),
                                ));
                                assert(reported =~= before_errors + batch_failures(
                                    batch@.take(j + 1),
                                ));
                                j = j + 1;
                            }
                            assert(batch@.take(j as int) =~= batch@);
                            assert(event_batch(events@[i as int]) == batch@);
                            state.on_drained(true);
                            assert(send_ends_at(events@.take(i + 1), i + 1)) by {
                                assert forall|n: int| 0 <= n < i + 1 implies (
                                #[trigger] events@.take(i + 1)[n]) is Batch by {
                                    if n < i {
                                        assert(events@.take(i as int)[n] is Batch);
                                    }
                                }
                            }
                        },
                        _ => {
                            state.on_drained(false);
                            finished = true;
                        },
                    }
                },
            }
            i = i + 1;
        }
        proof {
            if !finished {
                assert(events@.take(i as int) =~= events@);
            }
        }
        SendReport { writes, errors, consumed: i, finished }
    }
}

/// One adopted connection: its node, the event that announces it, and the
/// receive loop to spawn for it.
#[derive(Debug)]
pub struct Adoption {
    pub node: NodeId,
    pub event: NetworkEvent,
    pub receive: RecvLoop,
}

/// Whether `node` is a fresh TCP node with the given peer.
pub open spec fn fresh_tcp_node(node: NetworkNode, peer_addr: Option<SocketAddress>) -> bool {
    &&& node.protocol == NetworkProtocol::TCP
    &&& node.peer_addr == peer_addr
    &&& !node.running
    &&& node.auto_start
    &&& node.max_packet_size == crate::node::DEFAULT_MAX_PACKET_SIZE
}

/// Gives a new client endpoint its node and starts it: the node is
/// registered with the client's target as its peer, and the client's task
/// is to connect.
pub fn manage_tcp_client(registry: &mut NodeRegistry, client: &TcpClientNode) -> (res: (
    NodeId,
    ClientAction,
))
    requires
        old(registry).wf(),
    ensures
        final(registry).wf(),
        final(registry).extends(old(registry)),
        final(registry)@.len() == old(registry)@.len() + 1,
        res.0.0 == old(registry)@.len(),
        final(registry)@[res.0.0 as int].parent.is_none(),
        fresh_tcp_node(final(registry)@[res.0.0 as int].node, Some(client.socket)),
        final(registry)@[res.0.0 as int].node.local_addr.is_unspecified(),
        res.1 matches ClientAction::Connect(target) && target == client.socket,
{
    let node = NetworkNode::new(
        NetworkProtocol::TCP,
        SocketAddress::unspecified(),
        Some(client.socket),
    );
    let action = client.start();
    let id = registry.insert(node);
    (id, action)
}

/// Gives a new server endpoint its node and starts it: the node is
/// registered with the listener's address as its own, and the endpoint is
/// started as [`TcpServerNode::start`] says.
pub fn manage_tcp_server(registry: &mut NodeRegistry, server: &mut TcpServerNode) -> (res: (
    NodeId,
    Result<ServerStart, NetworkError>,
))
    requires
        old(registry).wf(),
    ensures
        final(registry).wf(),
        final(registry).extends(old(registry)),
        final(registry)@.len() == old(registry)@.len() + 1,
        res.0.0 == old(registry)@.len(),
        final(registry)@[res.0.0 as int].parent.is_none(),
        fresh_tcp_node(final(registry)@[res.0.0 as int].node, None),
        match old(server).local_addr {
            Some(addr) => final(registry)@[res.0.0 as int].node.local_addr == addr,
            None => final(registry)@[res.0.0 as int].node.local_addr.is_unspecified(),
        },
        final(server).local_addr == old(server).local_addr,
        old(server).state != ListenerState::Unbound ==> {
            &&& res.1 == Ok::<ServerStart, NetworkError>(ServerStart::Accept)
            &&& final(server).state == ListenerState::Accepting
        },
        old(server).state == ListenerState::Unbound ==> {
            &&& final(server).state == ListenerState::Unbound
            &&& res.1 matches Ok(next) ==> next == ServerStart::NotBound
            &&& res.1 matches Err(e) ==> e@ == (ErrorKind::ChannelClosed, Seq::<char>::empty())
        },
{
    let local_addr = match server.local_addr {
        Some(addr) => addr,
        None => SocketAddress::unspecified(),
    };
    let node = NetworkNode::new(NetworkProtocol::TCP, local_addr, None);
    let started = server.start(&node);
    let id = registry.insert(node);
    (id, started)
}

/// Whether `after` and `adopted` are what the adoption of `peers` under
/// `server` makes of the registry `before`.
///
/// Each connection gets a node of its own under `server`, with its remote
/// address as peer and the server's address as its own; one receive loop,
/// tagged with the peer; and one event that carries the node's identity.
/// Identities are given in arrival order, after those that were there.
/// Where `server` is no node of the registry, nothing is adopted.
pub open spec fn adopts(
    before: Seq<NodeEntry>,
    after: Seq<NodeEntry>,
    server: NodeId,
    peers: Seq<Option<SocketAddress>>,
    adopted: Seq<Adoption>,
) -> bool {
    if server.0 < before.len() {
        &&& adopted.len() == peers.len()
        &&& after.len() == before.len() + peers.len()
        &&& after.subrange(0, before.len() as int) == before
        &&& forall|i: int|
            0 <= i < peers.len() ==> {
                &&& (#[trigger] adopted[i]).node.0 == before.len() + i
                &&& adopted[i].event == NetworkEvent::Connected(adopted[i].node)
                &&& adopted[i].receive.phase == RecvPhase::Idle
                &&& adopted[i].receive.source == peers[i]
                &&& adopted[i].receive.max_packet_size == ADOPTED_MAX_PACKET_SIZE
                &&& after[before.len() + i].parent == Some(server)
                &&& fresh_tcp_node(after[before.len() + i].node, peers[i])
                &&& after[before.len() + i].node.local_addr == before[server.0 as int].node.local_addr
            }
    } else {
        adopted.len() == 0 && after == before
    }
}

/// Adopts the connections that a server accepted since the last tick.
///
/// `peers` holds, in arrival order, the remote address of each accepted
/// connection, where it is known. What becomes of them is what [`adopts`]
/// says.
pub fn handle_new_connection(
    registry: &mut NodeRegistry,
    server: NodeId,
    peers: &Vec<Option<SocketAddress>>,
) -> (adopted: Vec<Adoption>)
    requires
        old(registry).wf(),
    ensures
        final(registry).wf(),
        adopts(old(registry)@, final(registry)@, server, peers@, adopted@),
{
    let mut adopted: Vec<Adoption> = Vec::new();
    let local_addr = match registry.get(server) {
        Some(node) => node.local_addr,
        None => {
            assert(registry@.subrange(0, registry@.len() as int) =~= registry@);
            return adopted;
        },
    };
    let ghost base = registry@.len();
    assert(registry@.subrange(0, base as int) =~= registry@);
    let mut i: usize = 0;
    while i < peers.len()
        invariant
            i <= peers@.len(),
            base == old(registry)@.len(),
            server.0 < base,
            local_addr == old(registry)@[server.0 as int].node.local_addr,
            registry.wf(),
            registry.extends(old(registry)),
            registry@.len() == base + i,
            adopted@.len() == i,
            forall|n: int|
                0 <= n < i ==> {
                    &&& (#[trigger] adopted@[n]).node.0 == base + n
                    &&& adopted@[n].event == NetworkEvent::Connected(adopted@[n].node)
                    &&& adopted@[n].receive.phase == RecvPhase::Idle
                    &&& adopted@[n].receive.source == peers@[n]
                    &&& adopted@[n].receive.max_packet_size == ADOPTED_MAX_PACKET_SIZE
                    &&& registry@[base + n].parent == Some(server)
                    &&& fresh_tcp_node(registry@[base + n].node, peers@[n])
                    &&& registry@[base + n].node.local_addr == local_addr
                },
        decreases peers@.len() - i,
    {
        let peer = peers[i];
        let ghost before = *registry;
        let ghost done = adopted@;
        let node = NetworkNode::new(NetworkProtocol::TCP, local_addr, peer);
        if let Ok(id) = registry.adopt(server, node) {
            adopted.push(
                Adoption {
                    node: id,
                    event: NetworkEvent::Connected(id),
                    receive: RecvLoop::new(peer, ADOPTED_MAX_PACKET_SIZE),
                },
            );
        }
        proof {
            assert forall|m: int| 0 <= m < before@.len() implies (#[trigger] registry@[m])
                == before@[m] by {
                assert(registry@.subrange(0, before@.len() as int)[m] == before@[m]);
            }
            assert(registry@.subrange(0, base as int) =~= old(registry)@) by {
                assert(before@.subrange(0, base as int) == old(registry)@);
            }
            assert forall|n: int| 0 <= n < i implies (#[trigger] adopted@[n]) == done[n] by {}
        }
        i = i + 1;
    }
    adopted
}

/// One adoption gives as many events as there were connections, each with
/// the identity of a node that was not there before; no two of them carry
/// the same identity, none carries the server's, and each of these nodes is
/// a child of the server in the registry. What was in the registry stays.
pub proof fn lemma_adoption_gives_new_children(
    before: NodeRegistry,
    after: NodeRegistry,
    server: NodeId,
    peers: Seq<Option<SocketAddress>>,
    adopted: Seq<Adoption>,
)
    requires
        before.contains(server),
        adopts(before@, after@, server, peers, adopted),
    ensures
        adopted.len() == peers.len(),
        after.extends(&before),
        forall|i: int|
            0 <= i < adopted.len() ==> {
                &&& (#[trigger] adopted[i]).event == NetworkEvent::Connected(adopted[i].node)
                &&& !before.contains(adopted[i].node)
                &&& adopted[i].node != server
                &&& after.is_child_of(adopted[i].node, server)
                &&& after@[adopted[i].node.0 as int].node.peer_addr == peers[i]
            },
        forall|i: int, j: int|
            0 <= i < j < adopted.len() ==> (#[trigger] adopted[i]).node != (
            #[trigger] adopted[j]).node,
{
}

} // verus!
