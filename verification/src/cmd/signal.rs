//! The signal relay: which signals the shim traps, which of them it passes
//! on to the child, and the channel on which they travel.

use crate::cmd::channel::{another_receiver, another_sender, capacity_of, feeds, unbounded};
use crossbeam_channel::{Receiver, Sender};
use vstd::prelude::*;

verus! {

/// The signals that the shim traps.
#[derive(Clone, Copy, Debug, PartialEq, Eq)]
pub enum Trapped {
    Interrupt,
    Terminate,
    Pipe,
    Quit,
    Hangup,
    Abort,
    User1,
    User2,
}

/// The number of the interrupt signal.
pub const INTERRUPT: i32 = 2;

/// Whether `number` is the number of `kind` on some platform. Interrupt,
/// terminate, quit and hangup have one number everywhere; each of the other
/// four has one of a few, by platform.
pub open spec fn may_be_number(kind: Trapped, number: int) -> bool {
    match kind {
        Trapped::Interrupt => number == 2,
        Trapped::Terminate => number == 15,
        Trapped::Quit => number == 3,
        Trapped::Hangup => number == 1,
        Trapped::Pipe => number == 13 || number == 7,
        Trapped::Abort => number == 6 || number == 22,
        Trapped::User1 => number == 10 || number == 16 || number == 18 || number == 25 || number
            == 30,
        Trapped::User2 => number == 12 || number == 17 || number == 19 || number == 26 || number
            == 31,
    }
}

/// No number stands for two of the trapped signals, whatever the platform.
pub proof fn lemma_numbers_tell_the_signals_apart(one: Trapped, other: Trapped, number: int)
    requires
        may_be_number(one, number),
        may_be_number(other, number),
    ensures
        one == other,
{
}

/// The constants `SIGINT`, `SIGTERM`, `SIGPIPE`, `SIGQUIT`, `SIGHUP`,
/// `SIGABRT`, `SIGUSR1` and `SIGUSR2` of `signal_hook`, which are those of
/// `libc`: for each signal the one number, or one of the few numbers, that
/// `libc` gives it over all its platforms.
#[verifier::external_body]
fn number_of(kind: Trapped) -> (number: i32)
    ensures
        may_be_number(kind, number as int),
{
    match kind {
        Trapped::Interrupt => signal_hook::SIGINT,
        Trapped::Terminate => signal_hook::SIGTERM,
        Trapped::Pipe => signal_hook::SIGPIPE,
        Trapped::Quit => signal_hook::SIGQUIT,
        Trapped::Hangup => signal_hook::SIGHUP,
        Trapped::Abort => signal_hook::SIGABRT,
        Trapped::User1 => signal_hook::SIGUSR1,
        Trapped::User2 => signal_hook::SIGUSR2,
    }
}

/// The signals to trap, in the order in which they are registered.
pub open spec fn trapped_kinds() -> Seq<Trapped> {
    seq![
        Trapped::Interrupt,
        Trapped::Terminate,
        Trapped::Pipe,
        Trapped::Quit,
        Trapped::Hangup,
        Trapped::Abort,
        Trapped::User1,
        Trapped::User2,
    ]
}

/// The numbers of the eight signals that the relay listens for, in the order
/// of `trapped_kinds`: each is a number of its signal, no two of them are the
/// same, and the interrupt comes first.
pub fn trapped_signals() -> (numbers: Vec<i32>)
    ensures
        numbers@.len() == trapped_kinds().len(),
        forall|k: int|
            0 <= k < numbers@.len() ==> may_be_number(
                #[trigger] trapped_kinds()[k],
                numbers@[k] as int,
            ),
        forall|i: int, j: int|
            0 <= i < j < numbers@.len() ==> #[trigger] numbers@[i] != #[trigger] numbers@[j],
        numbers@[0] == INTERRUPT,
{
    let mut numbers: Vec<i32> = Vec::new();
    numbers.push(number_of(Trapped::Interrupt));
    numbers.push(number_of(Trapped::Terminate));
    numbers.push(number_of(Trapped::Pipe));
    numbers.push(number_of(Trapped::Quit));
    numbers.push(number_of(Trapped::Hangup));
    numbers.push(number_of(Trapped::Abort));
    numbers.push(number_of(Trapped::User1));
    numbers.push(number_of(Trapped::User2));
    numbers
}

/// What the relay puts on its channel for a trapped signal: the signal
/// itself, but nothing for an interrupt. The terminal delivers an interrupt
/// to the whole foreground group, the child included, so passing it on
/// would deliver it twice.
pub open spec fn relayed(signal: i32) -> Option<i32> {
    if signal == INTERRUPT {
        None
    } else {
        Some(signal)
    }
}

/// Decides what goes on the channel for one trapped signal.
pub fn relay(signal: i32) -> (forwarded: Option<i32>)
    ensures
        forwarded == relayed(signal),
{
    if signal == number_of(Trapped::Interrupt) {
        None
    } else {
        Some(signal)
    }
}

/// What the relay puts on its channel for a run of trapped signals: each of
/// them once, in the order in which they came, the interrupts left out.
pub open spec fn relayed_all(signals: Seq<i32>) -> Seq<i32> {
    signals.filter(|signal: i32| signal != INTERRUPT)
}

/// Relaying a run of signals one by one keeps their order and drops nothing
/// but the interrupts: one more trapped signal adds what `relayed` gives for
/// it behind what was relayed before.
pub proof fn lemma_relay_in_order(signals: Seq<i32>, signal: i32)
    ensures
        relayed_all(signals.push(signal)) == match relayed(signal) {
            Some(forwarded) => relayed_all(signals).push(forwarded),
            None => relayed_all(signals),
        },
{
    reveal(Seq::filter);
    assert(signals.push(signal).drop_last() == signals);
}

/// The relay, with the channel without limit on which the trapped signals
/// travel to the coordinator.
pub struct SignalHandler {
    tx: Sender<i32>,
    rx: Receiver<i32>,
}

impl SignalHandler {
    /// The two ends belong to one channel, which has no limit.
    #[verifier::type_invariant]
    spec fn without_limit(self) -> bool {
        feeds(self.tx, self.rx) && capacity_of(self.rx) == None::<nat>
    }

    /// The end on which the listener sends the trapped signals.
    pub closed spec fn signal_sender(self) -> Sender<i32> {
        self.tx
    }

    /// The end from which the coordinator takes the trapped signals.
    pub closed spec fn signal_receiver(self) -> Receiver<i32> {
        self.rx
    }

    /// Makes the channel for the trapped signals, which has no limit.
    pub fn new() -> (handler: SignalHandler)
        ensures
            feeds(handler.signal_sender(), handler.signal_receiver()),
            capacity_of(handler.signal_receiver()) == None::<nat>,
    {
        let (tx, rx) = unbounded();
        SignalHandler { tx, rx }
    }

    /// A receiving end of the signal channel, for the coordinator.
    pub fn receiver(&mut self) -> (receiver: Receiver<i32>)
        ensures
            *final(self) == *old(self),
            capacity_of(receiver) == None::<nat>,
            forall|sender: Sender<i32>|
                feeds(sender, receiver) == feeds(sender, old(self).signal_receiver()),
    {
        proof {
            use_type_invariant(&*self);
        }
        another_receiver(&self.rx)
    }

    /// A sending end of the signal channel, for the listener.
    pub fn sender(&self) -> (sender: Sender<i32>)
        ensures
            forall|receiver: Receiver<i32>|
                feeds(sender, receiver) == feeds(self.signal_sender(), receiver),
    {
        another_sender(&self.tx)
    }
}

} // verus!
