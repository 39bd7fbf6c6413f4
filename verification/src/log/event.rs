//! the log event-handling subsystem

use vstd::prelude::*;

verus! {

/// the severity level of a log event
#[derive(PartialEq, Eq, Structural, Clone, Copy, Debug)]
pub enum Severity {
    /// to be used by developers during development, shouldn't exist in
    /// production code
    Debug,
    /// generally unimportant and not of interest to most users
    Verbose,
    /// low importance and doesn't likely indicate a problem
    Info,
    /// high importance, potential problem or unexpected behavior
    Warning,
    /// high importance, something definitely went wrong
    Error,
    /// something went wrong, and the program will fail
    Fatal,
}

/// a calendar date and time of day, held as plain fields (the coordinated
/// universal timescale is assumed; whoever constructs a timestamp converts
/// from wherever the moment came from)
#[derive(PartialEq, Eq, Structural, Clone, Copy, Debug)]
pub struct Timestamp {
    /// the proleptic Gregorian year
    pub year: u32,
    /// the month of the year, counted from 1
    pub month: u32,
    /// the day of the month, counted from 1
    pub day: u32,
    /// the hour of the day, counted from 0
    pub hour: u32,
    /// the minute of the hour, counted from 0
    pub minute: u32,
    /// the second of the minute, counted from 0
    pub second: u32,
}

/// a log message or event, containing a message, date/time, severity level,
/// and context
pub struct Event {
    /// the date and time that the log message was created
    pub time: Timestamp,
    /// the severity level of the log event
    pub severity: Severity,
    /// a name indicating the source or purpose of the log message, used for
    /// filtering logs
    pub context: String,
    /// the human-readable message about whatever the log event is trying to
    /// say
    pub message: String,
}

impl Event {
    /// create a new event marked with a given date and time
    pub fn with_time(time: Timestamp, severity: Severity, context: &str, message: &str) -> (e:
        Event)
        ensures
            e.time == time,
            e.severity == severity,
            e.context@ == context@,
            e.message@ == message@,
    {
        Event { time, severity, context: context.to_owned(), message: message.to_owned() }
    }
}

/// a receiver of log events
pub trait Receiver {
    /// called in order to notify of a log event
    fn notify(&mut self, event: &Event);
}

/// a receiver that displays log messages on the system console (stdout and
/// stderr)
pub struct ConsoleReceiver;

impl ConsoleReceiver {
    /// create a new console log receiver
    pub fn new() -> Self {
        Self
    }
}

impl Receiver for ConsoleReceiver {
    fn notify(&mut self, event: &Event) {
        super::output::write_event(event);
    }
}

} // verus!
