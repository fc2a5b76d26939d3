//! The child process: what it is started with, the channel on which its end
//! is announced, and the status that the shim takes from it.

use crate::cmd::channel::{another_receiver, another_sender, bounded, capacity_of, feeds};
use crossbeam_channel::{Receiver, Sender};
use vstd::prelude::*;

verus! {

/// What the child is started with: the command, its arguments, the `PATH`
/// it will see and the directory it runs in.
#[derive(Clone)]
pub struct CommandParams {
    pub cmd: String,
    pub args: Vec<String>,
    pub path: String,
    pub dir: std::path::PathBuf,
}

/// A child that is about to run, with the single-slot channel on which the
/// watcher announces its terminal status.
pub struct Process {
    params: CommandParams,
    tx: Sender<i32>,
    rx: Receiver<i32>,
}

impl Process {
    /// The two ends belong to one channel, which holds one status at most.
    #[verifier::type_invariant]
    spec fn single_slot(self) -> bool {
        feeds(self.tx, self.rx) && capacity_of(self.rx) == Some(1nat)
    }

    /// What the child is started with.
    pub closed spec fn invocation(self) -> CommandParams {
        self.params
    }

    /// The end on which the watcher sends the terminal status.
    pub closed spec fn status_sender(self) -> Sender<i32> {
        self.tx
    }

    /// The end from which the coordinator takes the terminal status.
    pub closed spec fn status_receiver(self) -> Receiver<i32> {
        self.rx
    }

    /// Takes the parameters and makes the channel for the terminal status,
    /// which holds one message at most.
    pub fn new(params: CommandParams) -> (process: Process)
        ensures
            process.invocation() == params,
            feeds(process.status_sender(), process.status_receiver()),
            capacity_of(process.status_receiver()) == Some(1nat),
    {
        let (tx, rx) = bounded(1);
        Process { tx, rx, params }
    }

    /// A receiving end of the status channel, for the coordinator.
    pub fn receiver(&mut self) -> (receiver: Receiver<i32>)
        ensures
            *final(self) == *old(self),
            capacity_of(receiver) == Some(1nat),
            forall|sender: Sender<i32>|
                feeds(sender, receiver) == feeds(sender, old(self).status_receiver()),
    {
        proof {
            use_type_invariant(&*self);
        }
        another_receiver(&self.rx)
    }

    /// A sending end of the status channel, for the watcher.
    pub fn sender(&self) -> (sender: Sender<i32>)
        ensures
            forall|receiver: Receiver<i32>|
                feeds(sender, receiver) == feeds(self.status_sender(), receiver),
    {
        another_sender(&self.tx)
    }

    /// What the child is started with.
    pub fn params(&self) -> (params: &CommandParams)
        ensures
            *params == self.invocation(),
    {
        &self.params
    }
}

/// How the wait for the child ended.
#[derive(Clone, Copy, Debug, PartialEq, Eq)]
pub enum WaitOutcome {
    /// The child is gone. `code` is its exit code, or `None` where a signal
    /// killed it.
    Ended { code: Option<i32> },
    /// Waiting itself failed. `os_code` is the raw code of the operating
    /// system's error, where it has one.
    Failed { os_code: Option<i32> },
}

/// The terminal status of a wait, as a number.
pub open spec fn status_of(outcome: WaitOutcome) -> int {
    match outcome {
        WaitOutcome::Ended { code: Some(code) } => code as int,
        WaitOutcome::Ended { code: None } => -1,
        WaitOutcome::Failed { os_code: Some(os_code) } => os_code as int,
        WaitOutcome::Failed { os_code: None } => -1,
    }
}

/// The status that the watcher announces: the child's own exit code, `-1`
/// where a signal killed it, and for a failed wait the raw code of the
/// error, or `-1` where it has none.
pub fn terminal_status(outcome: WaitOutcome) -> (status_code: i32)
    ensures
        status_code == status_of(outcome),
{
    match outcome {
        WaitOutcome::Ended { code } => match code {
            Some(status_code) => status_code,
            None => -1,
        },
        WaitOutcome::Failed { os_code } => match os_code {
            Some(error_code) => error_code,
            None => -1,
        },
    }
}

} // verus!
