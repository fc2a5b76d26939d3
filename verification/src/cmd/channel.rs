//! The two channels of the shim, as `crossbeam_channel` provides them.
//!
//! What passes through a channel is decided by other threads at any moment,
//! so nothing here speaks of a channel's contents: only of what is fixed when
//! the channel is made, its limit and which ends belong together.

use crossbeam_channel::{Receiver, Sender};
use vstd::prelude::*;

verus! {

/// The sending end of a channel.
#[verifier::external_type_specification]
#[verifier::external_body]
#[verifier::reject_recursive_types(T)]
pub struct ExSender<T>(Sender<T>);

/// The receiving end of a channel.
#[verifier::external_type_specification]
#[verifier::external_body]
#[verifier::reject_recursive_types(T)]
pub struct ExReceiver<T>(Receiver<T>);

/// The number of messages that the channel behind `receiver` holds at most,
/// `None` where it has no limit.
pub uninterp spec fn capacity_of(receiver: Receiver<i32>) -> Option<nat>;

/// Whether `sender` feeds the channel that `receiver` drains.
pub uninterp spec fn feeds(sender: Sender<i32>, receiver: Receiver<i32>) -> bool;

/// `crossbeam_channel::bounded`: a new channel that holds at most `cap`
/// messages, as its two ends. The crate panics where the buffer for `cap`
/// messages cannot be laid out, which a small `cap` rules out.
#[verifier::external_body]
pub(crate) fn bounded(cap: usize) -> (ends: (Sender<i32>, Receiver<i32>))
    requires
        cap <= 0x1_0000,
    ensures
        feeds(ends.0, ends.1),
        capacity_of(ends.1) == Some(cap as nat),
{
    crossbeam_channel::bounded(cap)
}

/// `crossbeam_channel::unbounded`: a new channel without a limit, as its two
/// ends.
#[verifier::external_body]
pub(crate) fn unbounded() -> (ends: (Sender<i32>, Receiver<i32>))
    ensures
        feeds(ends.0, ends.1),
        capacity_of(ends.1) == None::<nat>,
{
    crossbeam_channel::unbounded()
}

/// `Receiver::clone`: one more receiving end of the same channel.
#[verifier::external_body]
pub(crate) fn another_receiver(receiver: &Receiver<i32>) -> (copy: Receiver<i32>)
    ensures
        capacity_of(copy) == capacity_of(*receiver),
        forall|sender: Sender<i32>| feeds(sender, copy) == feeds(sender, *receiver),
{
    receiver.clone()
}

/// `Sender::clone`: one more sending end of the same channel.
#[verifier::external_body]
pub(crate) fn another_sender(sender: &Sender<i32>) -> (copy: Sender<i32>)
    ensures
        forall|receiver: Receiver<i32>| feeds(copy, receiver) == feeds(*sender, receiver),
{
    sender.clone()
}

} // verus!
