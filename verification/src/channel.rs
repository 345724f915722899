//! The fan-out primitive of a room: a bounded broadcast channel of `tokio`.
//!
//! A room owns the sending half and hands out receiving halves. What the
//! channel does with a message once it has taken it (retaining it for slow
//! readers, dropping the oldest on overflow, reporting lag) is `tokio`'s
//! work and is not described here.

use vstd::prelude::*;
use tokio::sync::broadcast::error::SendError;
use tokio::sync::broadcast::{Receiver, Sender};

verus! {

/// The sending half of a `tokio` broadcast channel, carried as it is.
#[verifier::external_type_specification]
#[verifier::external_body]
#[verifier::reject_recursive_types(T)]
pub struct ExSender<T>(Sender<T>);

/// A receiving half of a `tokio` broadcast channel, carried as it is.
#[verifier::external_type_specification]
#[verifier::external_body]
#[verifier::reject_recursive_types(T)]
pub struct ExReceiver<T>(Receiver<T>);

/// The error of `Sender::send`, carried as it is.
#[verifier::external_type_specification]
#[verifier::external_body]
#[verifier::reject_recursive_types(T)]
pub struct ExSendError<T>(SendError<T>);

/// The messages that a channel has taken in since it was made, oldest first.
/// The channel itself retains only the newest of them, for the receivers that
/// have yet to read them.
pub uninterp spec fn channel_taken(sender: Sender<String>) -> Seq<Seq<char>>;

/// How many of the messages that its channel has taken in lie behind a
/// receiver: the next message it yields is the one that the channel took in
/// after that many, or a later one where it lagged.
pub uninterp spec fn receiver_passed(receiver: Receiver<String>) -> nat;

/// Calls `tokio::sync::broadcast::channel` and keeps the sending half; the
/// receiving half that comes with it is dropped at once. The new channel has
/// taken in nothing. `tokio` panics on a capacity of zero or above
/// `usize::MAX / 2`, which `requires` leaves out.
#[verifier::external_body]
pub(crate) fn open_channel(capacity: usize) -> (sender: Sender<String>)
    requires
        0 < capacity <= usize::MAX / 2,
    ensures
        channel_taken(sender) == Seq::<Seq<char>>::empty(),
{
    tokio::sync::broadcast::channel::<String>(capacity).0
}

/// Calls `Sender::send`, which never blocks. With at least one receiver alive
/// the channel takes the message in as its newest and returns the number of
/// receivers; with none it takes nothing and returns the error. Which of the
/// two happens depends on the receivers, so the contract states both.
#[verifier::external_body]
pub(crate) fn channel_send(sender: &mut Sender<String>, text: String) -> (r: Result<
    usize,
    SendError<String>,
>)
    ensures
        r is Ok ==> channel_taken(*final(sender)) == channel_taken(*old(sender)).push(text@),
        r is Err ==> channel_taken(*final(sender)) == channel_taken(*old(sender)),
{
    sender.send(text)
}

/// Calls `Sender::subscribe`. The new receiver yields the messages sent
/// after this call: everything that the channel has taken in so far lies
/// behind it. (`tokio` panics once a quarter of `usize::MAX` receivers are
/// alive on one channel, which no argument of this call decides.)
#[verifier::external_body]
pub(crate) fn channel_subscribe(sender: &Sender<String>) -> (receiver: Receiver<String>)
    ensures
        receiver_passed(receiver) == channel_taken(*sender).len(),
{
    sender.subscribe()
}

} // verus!
