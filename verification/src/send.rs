//! The send loop of one connection, as a state machine.
//!
//! Each turn of the loop checks the cancellation flag once, then takes what
//! is queued for sending at that moment and writes it out, oldest first.
//! Where nothing is queued the driving task waits for the next packet: the
//! loop does not spin. A failed write is reported and the loop goes on with
//! the packets that remain.

use vstd::prelude::*;
use crate::error::{ErrorKind, NetworkError};
use crate::packet::NetworkRawPacket;

verus! {

/// Where the send loop stands.
#[derive(Debug, Clone, Copy, PartialEq, Eq, Structural)]
pub enum SendPhase {
    /// Between two turns: the flag is checked next.
    Idle,
    /// The queued packets of this turn are being written.
    Draining,
    /// The loop has ended, and stays ended.
    Done,
}

/// What the driving task does next.
#[derive(Debug, Clone, Copy, PartialEq, Eq, Structural)]
pub enum SendAction {
    /// Take the queued packets, waiting for one if there is none; write
    /// each fully, calling [`SendLoop::on_written`] after each write; then
    /// call [`SendLoop::on_drained`].
    Drain,
    /// Leave the loop.
    Exit,
}

/// The state of one send loop.
#[derive(Debug, Clone, Copy, PartialEq, Eq)]
pub struct SendLoop {
    pub phase: SendPhase,
}

impl SendLoop {
    /// A loop that has not run yet.
    pub fn new() -> (state: SendLoop)
        ensures
            state.phase == SendPhase::Idle,
    {
        SendLoop { phase: SendPhase::Idle }
    }

    /// The top of a turn. A loop that has ended stays ended; a set flag
    /// ends it; otherwise the queue is drained.
    pub fn poll(&mut self, cancelled: bool) -> (action: SendAction)
        requires
            old(self).phase != SendPhase::Draining,
        ensures
            cancelled || old(self).phase == SendPhase::Done ==> {
                &&& action == SendAction::Exit
                &&& final(self).phase == SendPhase::Done
            },
            !cancelled && old(self).phase == SendPhase::Idle ==> {
                &&& action == SendAction::Drain
                &&& final(self).phase == SendPhase::Draining
            },
    {
        if cancelled || self.phase == SendPhase::Done {
            self.phase = SendPhase::Done;
            SendAction::Exit
        } else {
            self.phase = SendPhase::Draining;
            SendAction::Drain
        }
    }

    /// The end of one write. A failure is to be reported as `WriteFailed`
    /// with its message; it neither ends the loop nor closes the
    /// connection.
    pub fn on_written(&self, outcome: Result<(), String>) -> (report: Option<NetworkError>)
        requires
            self.phase == SendPhase::Draining,
        ensures
            match outcome {
                Ok(_) => report.is_none(),
                Err(message) => report matches Some(e) && e@ == (ErrorKind::WriteFailed, message@),
            },
    {
        match outcome {
            Ok(_) => None,
            Err(message) => Some(NetworkError::new(ErrorKind::WriteFailed, message)),
        }
    }

    /// The end of a turn. `open` says whether the send channel still has
    /// its other side; if not, no packet can follow and the loop ends.
    pub fn on_drained(&mut self, open: bool)
        requires
            old(self).phase == SendPhase::Draining,
        ensures
            final(self).phase == if open {
                SendPhase::Idle
            } else {
                SendPhase::Done
            },
    {
        if open {
            self.phase = SendPhase::Idle;
        } else {
            self.phase = SendPhase::Done;
        }
    }
}

/// A packet taken from the send channel, and how its write went.
#[derive(Debug, Clone, PartialEq, Eq)]
pub struct Outbound {
    pub packet: NetworkRawPacket,
    /// The message of the write's failure; `None` where it succeeded.
    pub failure: Option<String>,
}

/// What one turn of the send loop met.
#[derive(Debug, Clone, PartialEq, Eq)]
pub enum SendEvent {
    /// The cancellation flag was set at the top of the turn.
    Cancelled,
    /// These packets were queued, oldest first.
    Batch(Vec<Outbound>),
    /// The send channel had lost its other side.
    Closed,
}

/// Whether `k` is where the loop ends on `events`: every event before `k`
/// is a batch, and the event at `k`, if there is one, is none.
pub open spec fn send_ends_at(events: Seq<SendEvent>, k: int) -> bool {
    &&& 0 <= k <= events.len()
    &&& forall|i: int| 0 <= i < k ==> (#[trigger] events[i]) is Batch
    &&& k < events.len() ==> !(events[k] is Batch)
}

/// The payloads of a batch, in order.
pub open spec fn batch_payloads(batch: Seq<Outbound>) -> Seq<Seq<u8>> {
    Seq::new(batch.len(), |i: int| batch[i].packet@.1)
}

/// The messages of the failed writes of a batch, in order.
pub open spec fn batch_failures(batch: Seq<Outbound>) -> Seq<Seq<char>>
    decreases batch.len(),
{
    if batch.len() == 0 {
        Seq::empty()
    } else {
        let before = batch_failures(batch.drop_last());
        match batch.last().failure {
            None => before,
            Some(message) => before.push(message@),
        }
    }
}

/// The packets of an event, in order; none where it is no batch.
pub open spec fn event_batch(event: SendEvent) -> Seq<Outbound> {
    match event {
        SendEvent::Batch(batch) => batch@,
        _ => Seq::empty(),
    }
}

/// The payloads of the first `k` events, in order.
pub open spec fn send_attempted(events: Seq<SendEvent>, k: int) -> Seq<Seq<u8>>
    decreases k,
{
    if k <= 0 {
        Seq::empty()
    } else {
        send_attempted(events, k - 1) + batch_payloads(event_batch(events[k - 1]))
    }
}

/// The messages of the failed writes of the first `k` events, in order.
pub open spec fn send_failures(events: Seq<SendEvent>, k: int) -> Seq<Seq<char>>
    decreases k,
{
    if k <= 0 {
        Seq::empty()
    } else {
        send_failures(events, k - 1) + batch_failures(event_batch(events[k - 1]))
    }
}

/// What a send loop did on a sequence of events.
#[derive(Debug)]
pub struct SendReport {
    /// The payloads handed to the socket, in order.
    pub writes: Vec<Vec<u8>>,
    /// The errors forwarded to the error channel, in order.
    pub errors: Vec<NetworkError>,
    /// How many events the loop took, the one that ended it included.
    pub consumed: usize,
    /// Whether the loop ended, rather than ran out of events.
    pub finished: bool,
}

impl SendReport {
    /// The payloads handed to the socket, in order.
    pub open spec fn written(&self) -> Seq<Seq<u8>> {
        Seq::new(self.writes@.len(), |i: int| self.writes@[i]@)
    }

    /// The messages of the reported errors, in order.
    pub open spec fn reported(&self) -> Seq<Seq<char>> {
        Seq::new(self.errors@.len(), |i: int| self.errors@[i]@.1)
    }

    /// The place where the loop stood when the report was made.
    pub open spec fn end(&self) -> int {
        if self.finished {
            self.consumed - 1
        } else {
            self.consumed as int
        }
    }

    /// Whether the report is the one of a send loop that meets `events`.
    ///
    /// The loop ends at the first event that is no batch and takes no later
    /// one. Up to there it hands every packet of every batch to the socket,
    /// in order, whether or not an earlier write failed, and reports one
    /// `WriteFailed` for each write that failed, in order.
    pub open spec fn describes(&self, events: Seq<SendEvent>) -> bool {
        &&& send_ends_at(events, self.end())
        &&& self.finished == (self.end() < events.len())
        &&& self.written() == send_attempted(events, self.end())
        &&& self.reported() == send_failures(events, self.end())
        &&& forall|i: int|
            0 <= i < self.errors@.len() ==> (#[trigger] self.errors@[i])@.0
                == ErrorKind::WriteFailed
    }
}

/// The end of the loop is unique: two places that both end it are one.
pub proof fn lemma_send_end_unique(events: Seq<SendEvent>, k1: int, k2: int)
    requires
        send_ends_at(events, k1),
        send_ends_at(events, k2),
    ensures
        k1 == k2,
{
    if k1 < k2 {
        assert(events[k1] is Batch);
    }
    if k2 < k1 {
        assert(events[k2] is Batch);
    }
}

/// Two reports of the same run agree: on what was handed to the socket, on
/// what was reported, on the events taken and on whether the loop ended.
pub proof fn lemma_send_report_determined(a: SendReport, b: SendReport, events: Seq<SendEvent>)
    requires
        a.describes(events),
        b.describes(events),
    ensures
        a.written() == b.written(),
        a.reported() == b.reported(),
        a.consumed == b.consumed,
        a.finished == b.finished,
{
    lemma_send_end_unique(events, a.end(), b.end());
}

/// What the first `k` events hold does not depend on the events after them.
pub proof fn lemma_send_prefix(events: Seq<SendEvent>, n: int, k: int)
    requires
        0 <= k <= n <= events.len(),
    ensures
        send_attempted(events.take(n), k) == send_attempted(events, k),
        send_failures(events.take(n), k) == send_failures(events, k),
    decreases k,
{
    if k > 0 {
        lemma_send_prefix(events, n, k - 1);
        assert(events.take(n)[k - 1] == events[k - 1]);
    }
}

/// Enqueue order is write order: of packets queued in one batch, each is
/// handed to the socket, in the order of the queue, whether or not a write
/// before it failed; joined in order, what is written is the payloads of
/// the queue, in order.
pub proof fn lemma_send_keeps_order(report: SendReport, batch: Vec<Outbound>)
    requires
        report.describes(seq![SendEvent::Batch(batch)]),
    ensures
        report.writes@.len() == batch@.len(),
        forall|i: int|
            0 <= i < batch@.len() ==> (#[trigger] report.writes@[i])@ == batch@[i].packet@.1,
        report.written().flatten() == batch_payloads(batch@).flatten(),
        report.reported() == batch_failures(batch@),
        !report.finished,
        report.consumed == 1,
{
    let events = seq![SendEvent::Batch(batch)];
    assert(events[0] is Batch);
    assert(send_ends_at(events, 1));
    lemma_send_end_unique(events, 1, report.end());
    assert(send_attempted(events, 1) =~= batch_payloads(batch@)) by {
        reveal_with_fuel(send_attempted, 2);
    }
    assert(send_failures(events, 1) =~= batch_failures(batch@)) by {
        reveal_with_fuel(send_failures, 2);
    }
    assert forall|i: int| 0 <= i < batch@.len() implies (#[trigger] report.writes@[i])@
        == batch@[i].packet@.1 by {
        assert(report.written()[i] == batch_payloads(batch@)[i]);
    }
}

/// The loop ends once, and writes nothing after its end: if it ends at
/// event `k`, whatever follows `k` has no part in the report. What was
/// handed to the socket and what was reported come from the events before
/// `k` alone.
pub proof fn lemma_send_ends_once(report: SendReport, events: Seq<SendEvent>, k: int)
    requires
        send_ends_at(events, k),
        k < events.len(),
    ensures
        report.describes(events) <==> report.describes(events.take(k + 1)),
        report.describes(events) ==> {
            &&& report.finished
            &&& report.consumed == k + 1
            &&& report.written() == send_attempted(events, k)
            &&& report.reported() == send_failures(events, k)
        },
{
    let prefix = events.take(k + 1);
    lemma_send_prefix(events, k + 1, k);
    assert(send_ends_at(prefix, k)) by {
        assert forall|i: int| 0 <= i < k implies (#[trigger] prefix[i]) is Batch by {
            assert(events[i] is Batch);
        }
    }
    if report.describes(events) {
        lemma_send_end_unique(events, k, report.end());
    }
    if report.describes(prefix) {
        lemma_send_end_unique(prefix, k, report.end());
    }
}

/// Once the cancellation flag is seen set, nothing more is written: what
/// was handed to the socket is what the turns before held, and the loop has
/// ended.
pub proof fn lemma_send_cancel_writes_nothing_more(
    report: SendReport,
    events: Seq<SendEvent>,
    k: int,
)
    requires
        report.describes(events),
        send_ends_at(events, k),
        k < events.len(),
        events[k] is Cancelled,
    ensures
        report.finished,
        report.consumed == k + 1,
        report.written() == send_attempted(events, k),
        report.reported() == send_failures(events, k),
{
    lemma_send_ends_once(report, events, k);
}

} // verus!
