//! The receive loop of one connection, as a state machine.
//!
//! The task that owns the socket drives the machine: it hands over whether
//! the cancellation flag was set, performs the read that the machine asks
//! for, hands over how the read went, and forwards what the machine gives
//! back. The machine never has more than one read outstanding.

use vstd::prelude::*;
use crate::addr::SocketAddress;
use crate::error::{ErrorKind, NetworkError};
use crate::packet::NetworkRawPacket;

verus! {

/// Where the receive loop stands.
#[derive(Debug, Clone, Copy, PartialEq, Eq, Structural)]
pub enum RecvPhase {
    /// Between two iterations: the flag is checked next.
    Idle,
    /// One read is outstanding.
    Reading,
    /// The loop has ended, and stays ended.
    Done,
}

/// What the driving task does next.
#[derive(Debug)]
pub enum RecvAction {
    /// Perform exactly one read into the buffer, then call
    /// [`RecvLoop::on_read`].
    Read,
    /// Forward the packet to the node's receive channel, then poll again.
    Deliver(NetworkRawPacket),
    /// Forward the error to the node's error channel, then leave the loop.
    Report(NetworkError),
    /// Leave the loop. Nothing is forwarded.
    Exit,
}

/// The state of one receive loop.
#[derive(Debug, Clone, Copy, PartialEq, Eq)]
pub struct RecvLoop {
    pub phase: RecvPhase,
    /// The address that received packets are tagged with: the peer of the
    /// connection, where it is known.
    pub source: Option<SocketAddress>,
    /// The size of the read buffer, and so the largest packet.
    pub max_packet_size: usize,
}

impl RecvLoop {
    /// Whether `self` differs from `before` at most in its phase.
    pub open spec fn same_connection(&self, before: &RecvLoop) -> bool {
        &&& self.source == before.source
        &&& self.max_packet_size == before.max_packet_size
    }

    /// A loop that has not run yet.
    pub fn new(source: Option<SocketAddress>, max_packet_size: usize) -> (state: RecvLoop)
        ensures
            state.phase == RecvPhase::Idle,
            state.source == source,
            state.max_packet_size == max_packet_size,
    {
        RecvLoop { phase: RecvPhase::Idle, source, max_packet_size }
    }

    /// The one buffer that every read of the loop fills: `max_packet_size`
    /// zero bytes.
    pub fn buffer(&self) -> (buffer: Vec<u8>)
        ensures
            buffer@.len() == self.max_packet_size,
            forall|i: int| 0 <= i < buffer@.len() ==> buffer@[i] == 0u8,
    {
        vec![0u8; self.max_packet_size]
    }

    /// The top of an iteration. A loop that has ended stays ended; a set
    /// flag ends it without an error; otherwise one read is asked for.
    pub fn poll(&mut self, cancelled: bool) -> (action: RecvAction)
        requires
            old(self).phase != RecvPhase::Reading,
        ensures
            final(self).same_connection(old(self)),
            cancelled || old(self).phase == RecvPhase::Done ==> {
                &&& action is Exit
                &&& final(self).phase == RecvPhase::Done
            },
            !cancelled && old(self).phase == RecvPhase::Idle ==> {
                &&& action is Read
                &&& final(self).phase == RecvPhase::Reading
            },
    {
        if cancelled || self.phase == RecvPhase::Done {
            self.phase = RecvPhase::Done;
            RecvAction::Exit
        } else {
            self.phase = RecvPhase::Reading;
            RecvAction::Read
        }
    }

    /// The end of the outstanding read. `outcome` is the number of bytes
    /// that the read put at the front of `buffer`, or the message of the
    /// error it failed with.
    ///
    /// No bytes mean that the peer closed: the loop ends without an error.
    /// Some bytes become one packet that holds exactly these bytes, so a
    /// packet is never longer than the buffer that was read into. An error
    /// is reported as `ReadFailed` and ends the loop.
    pub fn on_read(&mut self, outcome: Result<usize, String>, buffer: &[u8]) -> (action:
        RecvAction)
        requires
            old(self).phase == RecvPhase::Reading,
            outcome matches Ok(n) ==> n <= buffer@.len(),
        ensures
            final(self).same_connection(old(self)),
            match outcome {
                Ok(n) => if n == 0 {
                    action is Exit && final(self).phase == RecvPhase::Done
                } else {
                    &&& action matches RecvAction::Deliver(packet)
                    &&& packet@ == (old(self).source, buffer@.subrange(0, n as int))
                    &&& final(self).phase == RecvPhase::Idle
                },
                Err(message) => {
                    &&& action matches RecvAction::Report(error)
                    &&& error@ == (ErrorKind::ReadFailed, message@)
                    &&& final(self).phase == RecvPhase::Done
                },
            },
    {
        match outcome {
            Ok(n) => {
                if n == 0 {
                    self.phase = RecvPhase::Done;
                    RecvAction::Exit
                } else {
                    self.phase = RecvPhase::Idle;
                    RecvAction::Deliver(NetworkRawPacket::new(self.source, &buffer[0..n]))
                }
            },
            Err(message) => {
                self.phase = RecvPhase::Done;
                RecvAction::Report(NetworkError::new(ErrorKind::ReadFailed, message))
            },
        }
    }
}

/// What one iteration of the receive loop met.
#[derive(Debug, Clone, PartialEq, Eq)]
pub enum RecvEvent {
    /// The cancellation flag was set at the top of the iteration.
    Cancelled,
    /// The read returned these bytes. No bytes: the peer closed.
    Read(Vec<u8>),
    /// The read failed with this message.
    Failed(String),
}

impl RecvEvent {
    /// Whether the loop goes on after the event: only after a read that
    /// returned at least one byte.
    pub open spec fn continues(self) -> bool {
        self matches RecvEvent::Read(data) && data@.len() > 0
    }

    /// The bytes that the event's read returned; none where it is no read.
    pub open spec fn payload(self) -> Seq<u8> {
        match self {
            RecvEvent::Read(data) => data@,
            _ => Seq::empty(),
        }
    }
}

/// Whether `k` is where the loop ends on `events`: every event before `k`
/// lets it go on, and the event at `k`, if there is one, does not.
pub open spec fn recv_ends_at(events: Seq<RecvEvent>, k: int) -> bool {
    &&& 0 <= k <= events.len()
    &&& forall|i: int| 0 <= i < k ==> (#[trigger] events[i]).continues()
    &&& k < events.len() ==> !events[k].continues()
}

/// The payloads of all the events, in order.
pub open spec fn recv_chunks(events: Seq<RecvEvent>) -> Seq<Seq<u8>> {
    Seq::new(events.len(), |i: int| events[i].payload())
}

/// What a receive loop did on a sequence of events.
#[derive(Debug)]
pub struct RecvReport {
    /// The packets forwarded to the receive channel, in order.
    pub packets: Vec<NetworkRawPacket>,
    /// The errors forwarded to the error channel, in order.
    pub errors: Vec<NetworkError>,
    /// How many events the loop took, the one that ended it included.
    pub consumed: usize,
    /// Whether the loop ended, rather than ran out of events.
    pub finished: bool,
}

impl RecvReport {
    /// The payloads of the forwarded packets, in order.
    pub open spec fn payloads(&self) -> Seq<Seq<u8>> {
        Seq::new(self.packets@.len(), |i: int| self.packets@[i]@.1)
    }

    /// Whether the report is the one of a receive loop that tags its
    /// packets with `source` and meets `events`.
    ///
    /// The loop forwards one packet for each event before its end, with
    /// that event's bytes. It ends at the first event that is no read of
    /// at least one byte, takes that event and no later one, and reports an
    /// error exactly if that event is a failed read.
    pub open spec fn describes(&self, source: Option<SocketAddress>, events: Seq<RecvEvent>) -> bool {
        let k = self.packets@.len() as int;
        &&& recv_ends_at(events, k)
        &&& forall|j: int|
            0 <= j < k ==> (#[trigger] self.packets@[j])@ == (source, events[j].payload())
        &&& self.finished == (k < events.len())
        &&& self.consumed == if self.finished {
            k + 1
        } else {
            k
        }
        &&& if k < events.len() && events[k] is Failed {
            &&& self.errors@.len() == 1
            &&& self.errors@[0]@ == (ErrorKind::ReadFailed, events[k]->Failed_0@)
        } else {
            self.errors@.len() == 0
        }
    }
}

/// The end of the loop is unique: two places that both end it are one.
pub proof fn lemma_recv_end_unique(events: Seq<RecvEvent>, k1: int, k2: int)
    requires
        recv_ends_at(events, k1),
        recv_ends_at(events, k2),
    ensures
        k1 == k2,
{
    if k1 < k2 {
        assert(events[k1].continues());
    }
    if k2 < k1 {
        assert(events[k2].continues());
    }
}

/// Two reports of the same run agree: on the number of packets, on each
/// packet, on the errors, on the events taken and on whether the loop ended.
pub proof fn lemma_recv_report_determined(
    a: RecvReport,
    b: RecvReport,
    source: Option<SocketAddress>,
    events: Seq<RecvEvent>,
)
    requires
        a.describes(source, events),
        b.describes(source, events),
    ensures
        a.packets@.len() == b.packets@.len(),
        forall|j: int| 0 <= j < a.packets@.len() ==> a.packets@[j]@ == b.packets@[j]@,
        a.errors@.len() == b.errors@.len(),
        forall|j: int| 0 <= j < a.errors@.len() ==> a.errors@[j]@ == b.errors@[j]@,
        a.consumed == b.consumed,
        a.finished == b.finished,
{
    lemma_recv_end_unique(events, a.packets@.len() as int, b.packets@.len() as int);
}

/// No coalescing: when every read returns at least one byte and at most
/// `max_packet_size`, the loop forwards one packet per read, each with the
/// bytes of its read and so no longer than `max_packet_size`; joined in
/// order, the packets are the bytes that were read, in order. No error is
/// reported and the loop has not ended.
pub proof fn lemma_recv_one_packet_per_read(
    report: RecvReport,
    source: Option<SocketAddress>,
    max_packet_size: usize,
    events: Seq<RecvEvent>,
)
    requires
        report.describes(source, events),
        forall|i: int|
            0 <= i < events.len() ==> (#[trigger] events[i]) is Read && 0 < events[i].payload().len()
                <= max_packet_size,
    ensures
        report.packets@.len() == events.len(),
        forall|i: int|
            0 <= i < events.len() ==> (#[trigger] report.packets@[i])@.1 == events[i].payload()
                && report.packets@[i]@.1.len() <= max_packet_size,
        report.payloads() == recv_chunks(events),
        report.payloads().flatten() == recv_chunks(events).flatten(),
        report.errors@.len() == 0,
        !report.finished,
{
    let k = report.packets@.len() as int;
    if k < events.len() {
        assert(events[k].continues());
    }
    assert(report.payloads() =~= recv_chunks(events));
}

/// The loop ends once: if it ends at event `k`, whatever follows `k` has no
/// part in the report. The report holds `k` packets and took `k + 1` events.
pub proof fn lemma_recv_ends_once(
    report: RecvReport,
    source: Option<SocketAddress>,
    events: Seq<RecvEvent>,
    k: int,
)
    requires
        recv_ends_at(events, k),
        k < events.len(),
    ensures
        report.describes(source, events) <==> report.describes(source, events.take(k + 1)),
        report.describes(source, events) ==> report.packets@.len() == k && report.consumed == k
            + 1 && report.finished,
{
    let prefix = events.take(k + 1);
    assert(recv_ends_at(prefix, k)) by {
        assert forall|i: int| 0 <= i < k implies (#[trigger] prefix[i]).continues() by {
            assert(events[i].continues());
        }
    }
    if report.describes(source, events) {
        lemma_recv_end_unique(events, k, report.packets@.len() as int);
        assert(report.describes(source, prefix));
    }
    if report.describes(source, prefix) {
        lemma_recv_end_unique(prefix, k, report.packets@.len() as int);
        assert(recv_ends_at(events, k));
        assert forall|j: int| 0 <= j < k implies (#[trigger] report.packets@[j])@ == (
            source,
            events[j].payload(),
        ) by {
            assert(prefix[j] == events[j]);
        }
        assert(report.describes(source, events));
    }
}

/// A read of no bytes ends the loop without an error: the packets are those
/// of the reads before it, and nothing is reported.
pub proof fn lemma_recv_close_is_silent(
    report: RecvReport,
    source: Option<SocketAddress>,
    events: Seq<RecvEvent>,
    k: int,
)
    requires
        report.describes(source, events),
        recv_ends_at(events, k),
        k < events.len(),
        events[k] is Read,
    ensures
        report.finished,
        report.packets@.len() == k,
        report.consumed == k + 1,
        report.errors@.len() == 0,
{
    lemma_recv_end_unique(events, k, report.packets@.len() as int);
}

/// Once the cancellation flag is seen set, nothing more is delivered: the
/// packets are those of the reads before that iteration, no read follows,
/// and nothing is reported.
pub proof fn lemma_recv_cancel_delivers_nothing_more(
    report: RecvReport,
    source: Option<SocketAddress>,
    events: Seq<RecvEvent>,
    k: int,
)
    requires
        report.describes(source, events),
        recv_ends_at(events, k),
        k < events.len(),
        events[k] is Cancelled,
    ensures
        report.finished,
        report.packets@.len() == k,
        report.consumed == k + 1,
        report.errors@.len() == 0,
{
    lemma_recv_end_unique(events, k, report.packets@.len() as int);
}

} // verus!
