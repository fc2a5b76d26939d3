//! The coordinator: the event loop of the shim as a state machine.
//!
//! The machine does no work of its own. Each step takes what the last piece
//! of outside work brought back and answers with the next piece of work, so
//! that the order of the steps, the exit codes and the rule that a child's
//! end stops all signal forwarding are decided here and nowhere else.

use crate::cmd::path::{remove_dir_from_path, segments, stripped, strips_cleanly};
use crate::cmd::process::CommandParams;
use vstd::prelude::*;
use vstd::string::*;

verus! {

/// What the coordinator waits for while it resolves the target.
#[derive(Clone, Copy, Debug, PartialEq, Eq)]
pub enum Lookup {
    /// The signal relay is being installed.
    Relay,
    /// The directory of the shim's links is being looked for.
    Root,
    /// The working directory is being read.
    WorkingDir,
    /// The recursion guard is being asked.
    Guard,
    /// `PATH` is being read.
    SearchPath,
}

/// Why the shim gives up.
#[derive(Clone, Copy, Debug, PartialEq, Eq)]
pub enum Fault {
    SignalSetup,
    MissingRoot,
    WorkingDir,
    Recursion,
    OpenPaths,
    SearchPath,
    Spawn,
    TrapSignal,
    StatusCode,
}

/// Where the coordinator stands.
#[derive(Clone, Copy, Debug, PartialEq, Eq)]
pub enum State {
    Resolving { awaiting: Lookup },
    Spawning,
    Running { pid: u32 },
    Terminating { status_code: i32 },
    Aborting { exit_code: i32, fault: Fault },
    Exited { exit_code: i32 },
}

/// What the outside work brought back.
#[derive(Clone, Copy, Debug, PartialEq, Eq)]
pub enum Event {
    /// The relay listens, or could not be installed.
    RelayInstalled { installed: bool },
    /// The directory of the shim's links exists, or does not.
    RootLocated { exists: bool },
    /// The working directory is known, or could not be read.
    WorkingDirRead { known: bool },
    /// The guard's answer: whether the command is the shim itself, or `None`
    /// where a location could not be resolved.
    GuardAnswered { verdict: Option<bool> },
    /// `PATH` is known, or could not be read.
    SearchPathRead { known: bool },
    /// The child runs under this process identifier.
    Spawned { pid: u32 },
    /// The child could not be started; the raw code of the operating
    /// system's error, where it has one.
    SpawnFailed { os_code: Option<i32> },
    /// The relay passed a signal on.
    SignalTrapped { signal: i32 },
    /// The signal was sent to the child, or the child could not be reached.
    SignalForwarded { delivered: bool },
    /// The watcher announced the child's terminal status.
    ChildTerminated { status_code: i32 },
    /// The signal channel has lost its sender.
    SignalChannelClosed,
    /// The status channel has lost its sender.
    StatusChannelClosed,
    /// The run was reported; the telemetry went out, or it did not.
    Reported { telemetry_sent: bool },
    /// The line that says why the shim gives up is on standard error.
    Announced,
    /// The line could not be written; the raw code of the error, where it
    /// has one.
    AnnounceFailed { os_code: Option<i32> },
}

/// The outside work to do next.
#[derive(Clone, Copy, Debug, PartialEq, Eq)]
pub enum Action {
    InstallRelay,
    LocateRoot,
    ReadWorkingDir,
    AskGuard,
    ReadSearchPath,
    /// Start the child with `PATH` rewritten.
    Spawn,
    /// Wait for whichever channel is ready first.
    Wait,
    /// Send the signal to the child.
    Forward { pid: u32, signal: i32 },
    /// Send the timing event, whether or not it arrives, and log the run.
    Report { status_code: i32 },
    /// Send the fatal-error event, whether or not it arrives, and write the
    /// line for the fault to standard error.
    Abort { exit_code: i32, fault: Fault },
    /// End the process with this code.
    Exit { exit_code: i32 },
}

/// The code for a failure that has no better one.
pub const GENERIC_FAILURE: i32 = 1;

/// The code for a shim that cannot find the directory of its links.
pub const MISSING_ROOT: i32 = -1;

/// The raw code of an operating-system error, or the generic code where it
/// has none.
pub open spec fn code_of(os_code: Option<i32>) -> i32 {
    match os_code {
        Some(code) => code,
        None => GENERIC_FAILURE,
    }
}

/// The work that a state waits for.
pub open spec fn awaited(state: State) -> Action {
    match state {
        State::Resolving { awaiting: Lookup::Relay } => Action::InstallRelay,
        State::Resolving { awaiting: Lookup::Root } => Action::LocateRoot,
        State::Resolving { awaiting: Lookup::WorkingDir } => Action::ReadWorkingDir,
        State::Resolving { awaiting: Lookup::Guard } => Action::AskGuard,
        State::Resolving { awaiting: Lookup::SearchPath } => Action::ReadSearchPath,
        State::Spawning => Action::Spawn,
        State::Running { .. } => Action::Wait,
        State::Terminating { status_code } => Action::Report { status_code },
        State::Aborting { exit_code, fault } => Action::Abort { exit_code, fault },
        State::Exited { exit_code } => Action::Exit { exit_code },
    }
}

/// The state in which the machine asks for the work that the state waits for.
pub open spec fn proceed(state: State) -> (State, Action) {
    (state, awaited(state))
}

/// The short circuit out of the machine.
pub open spec fn give_up(exit_code: i32, fault: Fault) -> (State, Action) {
    proceed(State::Aborting { exit_code, fault })
}

/// The transition of the machine. An event that the state does not wait for
/// changes nothing: the machine asks for the same work again.
pub open spec fn next(state: State, event: Event) -> (State, Action) {
    match (state, event) {
        (State::Resolving { awaiting: Lookup::Relay }, Event::RelayInstalled { installed }) => {
            if installed {
                proceed(State::Resolving { awaiting: Lookup::Root })
            } else {
                give_up(GENERIC_FAILURE, Fault::SignalSetup)
            }
        },
        (State::Resolving { awaiting: Lookup::Root }, Event::RootLocated { exists }) => {
            if exists {
                proceed(State::Resolving { awaiting: Lookup::WorkingDir })
            } else {
                give_up(MISSING_ROOT, Fault::MissingRoot)
            }
        },
        (State::Resolving { awaiting: Lookup::WorkingDir }, Event::WorkingDirRead { known }) => {
            if known {
                proceed(State::Resolving { awaiting: Lookup::Guard })
            } else {
                give_up(GENERIC_FAILURE, Fault::WorkingDir)
            }
        },
        (State::Resolving { awaiting: Lookup::Guard }, Event::GuardAnswered { verdict }) => {
            match verdict {
                Some(false) => proceed(State::Resolving { awaiting: Lookup::SearchPath }),
                Some(true) => give_up(GENERIC_FAILURE, Fault::Recursion),
                None => give_up(GENERIC_FAILURE, Fault::OpenPaths),
            }
        },
        (State::Resolving { awaiting: Lookup::SearchPath }, Event::SearchPathRead { known }) => {
            if known {
                proceed(State::Spawning)
            } else {
                give_up(GENERIC_FAILURE, Fault::SearchPath)
            }
        },
        (State::Spawning, Event::Spawned { pid }) => proceed(State::Running { pid }),
        (State::Spawning, Event::SpawnFailed { os_code }) => give_up(
            code_of(os_code),
            Fault::Spawn,
        ),
        (State::Running { pid }, Event::SignalTrapped { signal }) => (
            state,
            Action::Forward { pid, signal },
        ),
        (State::Running { .. }, Event::SignalForwarded { .. }) => proceed(state),
        (State::Running { .. }, Event::ChildTerminated { status_code }) => proceed(
            State::Terminating { status_code },
        ),
        (State::Running { .. }, Event::SignalChannelClosed) => give_up(
            GENERIC_FAILURE,
            Fault::TrapSignal,
        ),
        (State::Running { .. }, Event::StatusChannelClosed) => give_up(
            GENERIC_FAILURE,
            Fault::StatusCode,
        ),
        (State::Terminating { status_code }, Event::Reported { .. }) => proceed(
            State::Exited { exit_code: status_code },
        ),
        (State::Aborting { exit_code, .. }, Event::Announced) => proceed(
            State::Exited { exit_code },
        ),
        (State::Aborting { .. }, Event::AnnounceFailed { os_code }) => proceed(
            State::Exited { exit_code: code_of(os_code) },
        ),
        _ => proceed(state),
    }
}

/// The state after a run of events.
pub open spec fn state_after(state: State, events: Seq<Event>) -> State
    decreases events.len(),
{
    if events.len() == 0 {
        state
    } else {
        next(state_after(state, events.drop_last()), events.last()).0
    }
}

/// The work asked for at the end of a run of events.
pub open spec fn action_after(state: State, events: Seq<Event>) -> Action {
    if events.len() == 0 {
        awaited(state)
    } else {
        next(state_after(state, events.drop_last()), events.last()).1
    }
}

/// The state in which the shim starts.
pub open spec fn initial() -> State {
    State::Resolving { awaiting: Lookup::Relay }
}

/// Starts the machine: the first work is to install the signal relay.
pub fn start() -> (first: (State, Action))
    ensures
        first == proceed(initial()),
{
    (State::Resolving { awaiting: Lookup::Relay }, Action::InstallRelay)
}

/// The raw code of an operating-system error, or the generic code where it
/// has none.
pub fn failure_code(os_code: Option<i32>) -> (exit_code: i32)
    ensures
        exit_code == code_of(os_code),
{
    match os_code {
        Some(code) => code,
        None => GENERIC_FAILURE,
    }
}

/// The work that a state waits for.
pub fn pending(state: State) -> (action: Action)
    ensures
        action == awaited(state),
{
    match state {
        State::Resolving { awaiting } => match awaiting {
            Lookup::Relay => Action::InstallRelay,
            Lookup::Root => Action::LocateRoot,
            Lookup::WorkingDir => Action::ReadWorkingDir,
            Lookup::Guard => Action::AskGuard,
            Lookup::SearchPath => Action::ReadSearchPath,
        },
        State::Spawning => Action::Spawn,
        State::Running { .. } => Action::Wait,
        State::Terminating { status_code } => Action::Report { status_code },
        State::Aborting { exit_code, fault } => Action::Abort { exit_code, fault },
        State::Exited { exit_code } => Action::Exit { exit_code },
    }
}

/// Leaves the machine by the short circuit.
fn abort_with(exit_code: i32, fault: Fault) -> (step: (State, Action))
    ensures
        step == give_up(exit_code, fault),
{
    (State::Aborting { exit_code, fault }, Action::Abort { exit_code, fault })
}

/// Moves to `state` and asks for the work that it waits for.
fn go_to(state: State) -> (step: (State, Action))
    ensures
        step == proceed(state),
{
    (state, pending(state))
}

/// One step of the machine: from the state and what the outside work
/// brought back to the next state and the next work.
pub fn step(state: State, event: Event) -> (step: (State, Action))
    ensures
        step == next(state, event),
{
    match state {
        State::Resolving { awaiting } => match (awaiting, event) {
            (Lookup::Relay, Event::RelayInstalled { installed }) => {
                if installed {
                    go_to(State::Resolving { awaiting: Lookup::Root })
                } else {
                    abort_with(GENERIC_FAILURE, Fault::SignalSetup)
                }
            },
            (Lookup::Root, Event::RootLocated { exists }) => {
                if exists {
                    go_to(State::Resolving { awaiting: Lookup::WorkingDir })
                } else {
                    abort_with(MISSING_ROOT, Fault::MissingRoot)
                }
            },
            (Lookup::WorkingDir, Event::WorkingDirRead { known }) => {
                if known {
                    go_to(State::Resolving { awaiting: Lookup::Guard })
                } else {
                    abort_with(GENERIC_FAILURE, Fault::WorkingDir)
                }
            },
            (Lookup::Guard, Event::GuardAnswered { verdict }) => match verdict {
                Some(false) => go_to(State::Resolving { awaiting: Lookup::SearchPath }),
                Some(true) => abort_with(GENERIC_FAILURE, Fault::Recursion),
                None => abort_with(GENERIC_FAILURE, Fault::OpenPaths),
            },
            (Lookup::SearchPath, Event::SearchPathRead { known }) => {
                if known {
                    go_to(State::Spawning)
                } else {
                    abort_with(GENERIC_FAILURE, Fault::SearchPath)
                }
            },
            _ => go_to(state),
        },
        State::Spawning => match event {
            Event::Spawned { pid } => go_to(State::Running { pid }),
            Event::SpawnFailed { os_code } => abort_with(failure_code(os_code), Fault::Spawn),
            _ => go_to(state),
        },
        State::Running { pid } => match event {
            Event::SignalTrapped { signal } => (state, Action::Forward { pid, signal }),
            Event::SignalForwarded { .. } => go_to(state),
            Event::ChildTerminated { status_code } => go_to(State::Terminating { status_code }),
            Event::SignalChannelClosed => abort_with(GENERIC_FAILURE, Fault::TrapSignal),
            Event::StatusChannelClosed => abort_with(GENERIC_FAILURE, Fault::StatusCode),
            _ => go_to(state),
        },
        State::Terminating { status_code } => match event {
            Event::Reported { .. } => go_to(State::Exited { exit_code: status_code }),
            _ => go_to(state),
        },
        State::Aborting { exit_code, .. } => match event {
            Event::Announced => go_to(State::Exited { exit_code }),
            Event::AnnounceFailed { os_code } => go_to(
                State::Exited { exit_code: failure_code(os_code) },
            ),
            _ => go_to(state),
        },
        State::Exited { .. } => go_to(state),
    }
}

/// Whether the shim is past the guard: about to start the child, running it,
/// or reporting its end.
pub open spec fn past_guard(state: State) -> bool {
    state is Spawning || state is Running || state is Terminating
        || state == (State::Resolving { awaiting: Lookup::SearchPath })
}

/// Whether the guard has said that the command is not the shim itself.
pub open spec fn guard_denied(events: Seq<Event>) -> bool {
    events.contains(Event::GuardAnswered { verdict: Some(false) })
}

/// The child's terminal status ends the forwarding of signals and becomes
/// the shim's exit code: after it is seen, whatever events follow, the
/// machine only reports the run and exits with that status.
pub proof fn lemma_terminal_status_is_final(status_code: i32, events: Seq<Event>)
    ensures
        ({
            let state = state_after(State::Terminating { status_code }, events);
            state == (State::Terminating { status_code }) || state == (State::Exited {
                exit_code: status_code,
            })
        }),
        ({
            let action = action_after(State::Terminating { status_code }, events);
            action == (Action::Report { status_code }) || action == (Action::Exit {
                exit_code: status_code,
            })
        }),
    decreases events.len(),
{
    if events.len() > 0 {
        lemma_terminal_status_is_final(status_code, events.drop_last());
    }
}

/// Whether the telemetry arrives makes no difference to the exit code.
pub proof fn lemma_telemetry_never_changes_the_exit_code(status_code: i32, telemetry_sent: bool)
    ensures
        next(State::Terminating { status_code }, Event::Reported { telemetry_sent }) == (
            State::Exited { exit_code: status_code },
            Action::Exit { exit_code: status_code },
        ),
{
}

/// A signal that cannot be delivered is no reason to give up: the shim
/// waits again, as it does after a delivery.
pub proof fn lemma_delivery_failure_is_absorbed(pid: u32, delivered: bool)
    ensures
        next(State::Running { pid }, Event::SignalForwarded { delivered }) == (
            State::Running { pid },
            Action::Wait,
        ),
{
}

/// Giving up is a short circuit: from there, whatever events follow, the
/// machine never starts a child, forwards a signal, waits or reports a run.
/// It announces the fault and exits.
pub proof fn lemma_abort_is_final(exit_code: i32, fault: Fault, events: Seq<Event>)
    ensures
        ({
            let state = state_after(State::Aborting { exit_code, fault }, events);
            state == (State::Aborting { exit_code, fault }) || state is Exited
        }),
        ({
            let action = action_after(State::Aborting { exit_code, fault }, events);
            action == (Action::Abort { exit_code, fault }) || action is Exit
        }),
    decreases events.len(),
{
    if events.len() > 0 {
        lemma_abort_is_final(exit_code, fault, events.drop_last());
    }
}

/// Once the shim has exited, nothing changes its code.
pub proof fn lemma_exit_is_final(exit_code: i32, events: Seq<Event>)
    ensures
        state_after(State::Exited { exit_code }, events) == (State::Exited { exit_code }),
        action_after(State::Exited { exit_code }, events) == (Action::Exit { exit_code }),
    decreases events.len(),
{
    if events.len() > 0 {
        lemma_exit_is_final(exit_code, events.drop_last());
    }
}

/// A command that is the shim itself is never run: the guard's answer leads
/// to the short circuit, with a code that is not zero.
pub proof fn lemma_recursion_gives_up()
    ensures
        next(
            State::Resolving { awaiting: Lookup::Guard },
            Event::GuardAnswered { verdict: Some(true) },
        ) == give_up(GENERIC_FAILURE, Fault::Recursion),
        GENERIC_FAILURE != 0,
{
}

/// A failure while the target is being resolved ends the shim with a code
/// that is not zero.
pub proof fn lemma_setup_failure_is_not_zero(awaiting: Lookup, event: Event)
    ensures
        next(State::Resolving { awaiting }, event).0 matches State::Aborting { exit_code, .. }
            ==> exit_code != 0,
{
}

/// The shim gets past the guard only on the guard's word: whatever events
/// come in from the start, a child is started, run or reported only if the
/// guard has answered that the command is not the shim itself.
pub proof fn lemma_no_child_without_the_guard(events: Seq<Event>)
    ensures
        past_guard(state_after(initial(), events)) ==> guard_denied(events),
        action_after(initial(), events) is Spawn || action_after(initial(), events) is Forward
            || action_after(initial(), events) is Report ==> guard_denied(events),
    decreases events.len(),
{
    if events.len() > 0 {
        let before = events.drop_last();
        lemma_no_child_without_the_guard(before);
        let state = state_after(initial(), before);
        if guard_denied(before) {
            let at = choose|at: int|
                0 <= at < before.len() && before[at] == (Event::GuardAnswered {
                    verdict: Some(false),
                });
            assert(events[at] == before[at]);
        } else if past_guard(next(state, events.last()).0) {
            assert(events.last() == (Event::GuardAnswered { verdict: Some(false) }));
            assert(events[events.len() - 1] == events.last());
        }
    }
}

/// Whether `text` stays on one line.
pub open spec fn one_line(text: Seq<char>) -> bool {
    forall|k: int| 0 <= k < text.len() ==> text[k] != '\n'
}

/// `text` on one line: a space stands for each line break.
pub open spec fn on_one_line(text: Seq<char>) -> Seq<char> {
    Seq::new(
        text.len(),
        |k: int|
            if text[k] == '\n' {
                ' '
            } else {
                text[k]
            },
    )
}

/// The line that the shim writes to standard error when it gives up for
/// `fault`. `detail` is what the failed work said of its failure, `command`
/// the command that was to be run; both are put on one line, and a fault that
/// needs neither leaves them out.
pub open spec fn abort_text(fault: Fault, command: Seq<char>, detail: Seq<char>) -> Seq<char> {
    match fault {
        Fault::SignalSetup => "Error: cannot setup signal handler: "@ + on_one_line(detail),
        Fault::MissingRoot => "Error: cannot find hull symlinks directory. Please set HULL_ROOT"@,
        Fault::WorkingDir => "Error: cannot get current directory: "@ + on_one_line(detail),
        Fault::Recursion => "Error: unwilling to run program recursively. Please check your paths"@,
        Fault::OpenPaths => "Error: cannot open paths: "@ + on_one_line(detail),
        Fault::SearchPath => "Error: cannot get PATH environment variable: "@ + on_one_line(
            detail,
        ),
        Fault::Spawn => "Error: Could not start program "@ + on_one_line(command)
            + ", error code: "@ + on_one_line(detail),
        Fault::TrapSignal => "Error: Cannot trap signal: "@ + on_one_line(detail),
        Fault::StatusCode => "Error: Cannot obtain status code: "@ + on_one_line(detail),
    }
}

/// Two texts that each stay on one line do so when written one behind the
/// other.
proof fn lemma_one_line_joined(head: Seq<char>, tail: Seq<char>)
    requires
        one_line(head),
        one_line(tail),
    ensures
        one_line(head + tail),
{
}

/// Every fatal abort writes exactly one line: whatever the command and
/// whatever the failed work said, the line for the fault holds no line
/// break.
pub proof fn lemma_abort_text_is_one_line(fault: Fault, command: Seq<char>, detail: Seq<char>)
    ensures
        one_line(abort_text(fault, command, detail)),
{
    reveal_strlit("Error: cannot setup signal handler: ");
    reveal_strlit("Error: cannot find hull symlinks directory. Please set HULL_ROOT");
    reveal_strlit("Error: cannot get current directory: ");
    reveal_strlit("Error: unwilling to run program recursively. Please check your paths");
    reveal_strlit("Error: cannot open paths: ");
    reveal_strlit("Error: cannot get PATH environment variable: ");
    reveal_strlit("Error: Could not start program ");
    reveal_strlit(", error code: ");
    reveal_strlit("Error: Cannot trap signal: ");
    reveal_strlit("Error: Cannot obtain status code: ");
    let said = on_one_line(detail);
    let called = on_one_line(command);
    assert(one_line(said));
    assert(one_line(called));
    match fault {
        Fault::SignalSetup => {
            lemma_one_line_joined("Error: cannot setup signal handler: "@, said);
        },
        Fault::MissingRoot => {},
        Fault::WorkingDir => {
            lemma_one_line_joined("Error: cannot get current directory: "@, said);
        },
        Fault::Recursion => {},
        Fault::OpenPaths => {
            lemma_one_line_joined("Error: cannot open paths: "@, said);
        },
        Fault::SearchPath => {
            lemma_one_line_joined("Error: cannot get PATH environment variable: "@, said);
        },
        Fault::Spawn => {
            lemma_one_line_joined("Error: Could not start program "@, called);
            lemma_one_line_joined(
                "Error: Could not start program "@ + called,
                ", error code: "@,
            );
            lemma_one_line_joined(
                "Error: Could not start program "@ + called + ", error code: "@,
                said,
            );
        },
        Fault::TrapSignal => {
            lemma_one_line_joined("Error: Cannot trap signal: "@, said);
        },
        Fault::StatusCode => {
            lemma_one_line_joined("Error: Cannot obtain status code: "@, said);
        },
    }
}

/// Writes `text` behind `line`, with a space for each line break.
fn append_on_one_line(line: &mut String, text: &str)
    ensures
        final(line)@ == old(line)@ + on_one_line(text@),
{
    let length: usize = text.unicode_len();
    let mut start: usize = 0;
    let mut i: usize = 0;
    proof {
        reveal_strlit(" ");
        assert(old(line)@ + on_one_line(text@.take(0)) == old(line)@);
    }
    for letter in letters: text.chars()
        invariant
            letters.seq() == text@,
            length == text@.len(),
            i == letters.index(),
            start <= i <= length,
            " "@ == seq![' '],
            line@ == old(line)@ + on_one_line(text@.take(start as int)),
            forall|k: int| start <= k < i ==> text@[k] != '\n',
    {
        if letter == '\n' {
            line.append(text.substring_char(start, i));
            line.append(" ");
            assert(line@ == old(line)@ + on_one_line(text@.take(i + 1)));
            start = i + 1;
        }
        i = i + 1;
    }
    line.append(text.substring_char(start, length));
    assert(line@ == old(line)@ + on_one_line(text@));
}

/// `head` with `detail` behind it, on one line.
fn with_detail(head: &str, detail: &str) -> (line: String)
    ensures
        line@ == head@ + on_one_line(detail@),
{
    let mut line = head.to_owned();
    append_on_one_line(&mut line, detail);
    line
}

/// Writes the line for a fault. It holds no line break, whatever `command`
/// and `detail` hold.
pub fn abort_message(fault: Fault, command: &str, detail: &str) -> (line: String)
    ensures
        line@ == abort_text(fault, command@, detail@),
        one_line(line@),
{
    proof {
        lemma_abort_text_is_one_line(fault, command@, detail@);
    }
    match fault {
        Fault::SignalSetup => with_detail("Error: cannot setup signal handler: ", detail),
        Fault::MissingRoot => {
            "Error: cannot find hull symlinks directory. Please set HULL_ROOT".to_owned()
        },
        Fault::WorkingDir => with_detail("Error: cannot get current directory: ", detail),
        Fault::Recursion => {
            "Error: unwilling to run program recursively. Please check your paths".to_owned()
        },
        Fault::OpenPaths => with_detail("Error: cannot open paths: ", detail),
        Fault::SearchPath => with_detail(
            "Error: cannot get PATH environment variable: ",
            detail,
        ),
        Fault::Spawn => {
            let mut line = with_detail("Error: Could not start program ", command);
            line.append(", error code: ");
            append_on_one_line(&mut line, detail);
            line
        },
        Fault::TrapSignal => with_detail("Error: Cannot trap signal: ", detail),
        Fault::StatusCode => with_detail("Error: Cannot obtain status code: ", detail),
    }
}

/// What the child is started with, made of the shim's own arguments, the
/// directory of its links, the `PATH` it was called with and the directory
/// it was called in: the first argument is the command, the others are
/// passed on as they are, and `PATH` is handed down without the directory of
/// the links, so that the next search for the command skips the shim.
/// Without a first argument there is no command and nothing to start.
pub fn invocation(
    args: Vec<String>,
    symlinks_dir: String,
    path_str: String,
    dir: std::path::PathBuf,
) -> (params: Option<CommandParams>)
    ensures
        params is None <==> args@.len() == 0,
        params matches Some(params) ==> {
            &&& params.cmd == args@[0]
            &&& params.args@ == args@.subrange(1, args@.len() as int)
            &&& params.path@ == stripped(symlinks_dir@, path_str@)
            &&& params.dir == dir
            &&& strips_cleanly(symlinks_dir@, path_str@) ==> !segments(params.path@).contains(
                symlinks_dir@,
            )
        },
{
    let mut rest = args;
    if rest.len() == 0 {
        return None;
    }
    let cmd = rest.remove(0);
    let path = remove_dir_from_path(symlinks_dir, path_str);
    proof {
        assert(rest@ == args@.subrange(1, args@.len() as int));
    }
    Some(CommandParams { cmd, args: rest, path, dir })
}

} // verus!
