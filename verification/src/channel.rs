//! The channel that joins the host to its background tasks.

use vstd::prelude::*;
use crate::error::{ErrorKind, NetworkError};

verus! {

/// `kanal::Sender`: the sending handle of a channel. Opaque.
#[verifier::external_type_specification]
#[verifier::external_body]
#[verifier::reject_recursive_types(T)]
pub struct ExSender<T>(kanal::Sender<T>);

/// `kanal::Receiver`: the receiving handle of a channel. Opaque.
#[verifier::external_type_specification]
#[verifier::external_body]
#[verifier::reject_recursive_types(T)]
pub struct ExReceiver<T>(kanal::Receiver<T>);

/// `kanal::SendError`: why a send failed. Both variants mean that the
/// channel is closed.
#[verifier::external_type_specification]
#[verifier::external_body]
pub struct ExSendError(kanal::SendError);

/// `kanal::ReceiveError`: why a receive failed. Both variants mean that
/// the channel is closed.
#[verifier::external_type_specification]
#[verifier::external_body]
pub struct ExReceiveError(kanal::ReceiveError);

/// `kanal::unbounded`: a new channel without a capacity limit. Nothing is
/// claimed of the two handles.
pub assume_specification<T>[ kanal::unbounded::<T> ]() -> (pair: (
    kanal::Sender<T>,
    kanal::Receiver<T>,
));

/// `kanal::Sender::try_send`: offers one item without waiting. What comes
/// back depends on the other holders of the channel, so nothing is claimed
/// of it.
pub assume_specification<T>[ kanal::Sender::<T>::try_send ](
    sender: &kanal::Sender<T>,
    data: T,
) -> (outcome: Result<bool, kanal::SendError>);

/// `kanal::Receiver::try_recv`: takes the oldest queued item without
/// waiting. What comes back depends on the other holders of the channel, so
/// nothing is claimed of it.
pub assume_specification<T>[ kanal::Receiver::<T>::try_recv ](
    receiver: &kanal::Receiver<T>,
) -> (outcome: Result<Option<T>, kanal::ReceiveError>);

/// `kanal::Receiver::drain_into`: moves every queued item to the end of
/// `sink`, oldest first, and says how many it moved. What was in `sink`
/// stays in front; on an error nothing is moved.
pub assume_specification<T>[ kanal::Receiver::<T>::drain_into ](
    receiver: &kanal::Receiver<T>,
    sink: &mut Vec<T>,
) -> (outcome: Result<usize, kanal::ReceiveError>)
    ensures
        old(sink)@.len() <= final(sink)@.len(),
        final(sink)@.subrange(0, old(sink)@.len() as int) == old(sink)@,
        outcome matches Ok(moved) ==> final(sink)@.len() == old(sink)@.len() + moved,
        outcome is Err ==> final(sink)@ == old(sink)@,
;

/// A FIFO channel with both of its host-side ends. The channel is
/// unbounded: a send never waits and never drops for want of room, and the
/// queue grows for as long as nobody takes from it.
#[verifier::reject_recursive_types(T)]
pub struct AsyncChannel<T> {
    pub sender: kanal::Sender<T>,
    pub receiver: kanal::Receiver<T>,
}

/// What a send that did not wait came to: an error exactly when the channel
/// reported itself closed; an item that found no room counts as sent, as the
/// channel is unbounded.
pub fn send_result(outcome: Result<bool, kanal::SendError>) -> (res: Result<(), NetworkError>)
    ensures
        outcome is Ok <==> res is Ok,
        res matches Err(e) ==> e@ == (ErrorKind::ChannelClosed, Seq::<char>::empty()),
{
    match outcome {
        Ok(_) => Ok(()),
        Err(_) => Err(NetworkError::channel_closed()),
    }
}

/// What a receive that did not wait came to: the item if one was queued,
/// `None` if the queue was empty, an error if the channel reported itself
/// closed.
pub fn recv_result<T>(outcome: Result<Option<T>, kanal::ReceiveError>) -> (res: Result<
    Option<T>,
    NetworkError,
>)
    ensures
        outcome matches Ok(item) ==> res == Ok::<Option<T>, NetworkError>(item),
        outcome is Err ==> res is Err,
        res matches Err(e) ==> e@ == (ErrorKind::ChannelClosed, Seq::<char>::empty()),
{
    match outcome {
        Ok(item) => Ok(item),
        Err(_) => Err(NetworkError::channel_closed()),
    }
}

/// What a drain came to: the items it moved, or an error if the channel
/// reported itself closed.
pub fn drain_result<T>(outcome: Result<usize, kanal::ReceiveError>, items: Vec<T>) -> (res:
    Result<Vec<T>, NetworkError>)
    ensures
        outcome is Ok ==> res == Ok::<Vec<T>, NetworkError>(items),
        outcome is Err ==> res is Err,
        res matches Err(e) ==> e@ == (ErrorKind::ChannelClosed, Seq::<char>::empty()),
{
    match outcome {
        Ok(_) => Ok(items),
        Err(_) => Err(NetworkError::channel_closed()),
    }
}

impl<T> AsyncChannel<T> {
    /// A new, empty channel.
    pub fn new() -> (channel: AsyncChannel<T>) {
        let (sender, receiver) = kanal::unbounded();
        AsyncChannel { sender, receiver }
    }

    /// Queues `item` without waiting. Whether the channel is still open is
    /// decided by its other holders; if it is not, the error is
    /// `ChannelClosed`.
    pub fn try_send(&self, item: T) -> (res: Result<(), NetworkError>)
        ensures
            res matches Err(e) ==> e@ == (ErrorKind::ChannelClosed, Seq::<char>::empty()),
    {
        send_result(self.sender.try_send(item))
    }

    /// Takes the oldest queued item without waiting: `Ok(None)` when nothing
    /// is queued, `ChannelClosed` when the other side has gone.
    pub fn try_recv(&self) -> (res: Result<Option<T>, NetworkError>)
        ensures
            res matches Err(e) ==> e@ == (ErrorKind::ChannelClosed, Seq::<char>::empty()),
    {
        recv_result(self.receiver.try_recv())
    }

    /// Takes everything that is queued at this moment, oldest first, without
    /// waiting. `ChannelClosed` when the other side has gone.
    pub fn drain(&self) -> (res: Result<Vec<T>, NetworkError>)
        ensures
            res matches Err(e) ==> e@ == (ErrorKind::ChannelClosed, Seq::<char>::empty()),
    {
        let mut items: Vec<T> = Vec::new();
        let outcome = self.receiver.drain_into(&mut items);
        drain_result(outcome, items)
    }
}

} // verus!
