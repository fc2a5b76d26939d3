//! The telemetry events that the shim reports.

use vstd::prelude::*;

verus! {

/// A tagged envelope: the name of an event and what it carries.
#[derive(Debug)]
pub struct Event<T> {
    pub event_name: String,
    pub event_data: T,
}

/// A span of time in whole seconds and the nanoseconds beyond them.
#[derive(Clone, Copy, Debug, PartialEq, Eq)]
pub struct RunTime {
    pub secs: u64,
    pub subsec_nanos: u32,
}

/// What a timing event carries: the command, its arguments, how long it ran,
/// when the event was made, in seconds since the epoch, and the status that
/// the command ended with.
#[derive(Debug)]
pub struct CommandRunTime {
    pub cmd: String,
    pub args: Vec<String>,
    pub run: RunTime,
    pub created_at: i64,
    pub status_code: i32,
}

/// What a fatal-error event carries: when it was made, in seconds since the
/// epoch. The command may not be known yet when the shim gives up.
#[derive(Debug)]
pub struct CurrentTime {
    pub created_at: i64,
}

/// A batch of events.
#[derive(Debug)]
pub struct EventsPayload<T> {
    pub events: Vec<Event<T>>,
}

/// The event that reports a finished run.
pub fn timing_event(
    cmd: String,
    args: Vec<String>,
    run: RunTime,
    created_at: i64,
    status_code: i32,
) -> (event: Event<CommandRunTime>)
    ensures
        event.event_name@ == "hull_timing"@,
        event.event_data == (CommandRunTime { cmd, args, run, created_at, status_code }),
{
    Event {
        event_name: "hull_timing".to_owned(),
        event_data: CommandRunTime { cmd, args, run, created_at, status_code },
    }
}

/// The event that reports that the shim gave up.
pub fn fatal_error_event(created_at: i64) -> (event: Event<CurrentTime>)
    ensures
        event.event_name@ == "hull_fatal_error"@,
        event.event_data == (CurrentTime { created_at }),
{
    Event { event_name: "hull_fatal_error".to_owned(), event_data: CurrentTime { created_at } }
}

} // verus!
