//! test suite for the log subsystem

use chrono::{Datelike, DateTime, Timelike, Utc};

use timberwolf::log::event::{ConsoleReceiver, Event, Receiver, Severity, Timestamp};
use timberwolf::log::output::{format_event, write_event};

#[test]
fn test_log_event_to_string() {
    let time = match DateTime::parse_from_rfc3339("2019-01-29T21:09:30+00:00") {
        Ok(time) => time,
        Err(_error) => {
            panic!("failed to parse time");
        }
    };
    let utc = time.with_timezone(&Utc);
    let timestamp = Timestamp {
        year: utc.year() as u32,
        month: utc.month(),
        day: utc.day(),
        hour: utc.hour(),
        minute: utc.minute(),
        second: utc.second(),
    };
    let event = Event::with_time(timestamp, Severity::Debug, "test", "this is a test message");
    let string = format_event(&event);
    let string = match std::str::from_utf8(&string) {
        Ok(value) => value,
        Err(_error) => {
            panic!("failed to parse UTF-8");
        }
    };

    let prototype = "2019-01-29 21:09:30 Debug   -> test    : this is a test message\n";

    assert_eq!(prototype, string);
}

fn sample_timestamp() -> Timestamp {
    Timestamp { year: 2019, month: 1, day: 29, hour: 21, minute: 9, second: 30 }
}

#[test]
fn format_pads_every_severity_into_its_column() {
    let cases = [
        (Severity::Debug, "Debug  "),
        (Severity::Verbose, "Verbose"),
        (Severity::Info, "Info   "),
        (Severity::Warning, "Warning"),
        (Severity::Error, "Error  "),
        (Severity::Fatal, "Fatal  "),
    ];
    for (severity, column) in cases {
        let event = Event::with_time(sample_timestamp(), severity, "test", "message");
        let bytes = format_event(&event);
        let text = std::str::from_utf8(&bytes).unwrap();
        let expected = format!("2019-01-29 21:09:30 {} -> test    : message\n", column);
        assert_eq!(expected, text);
    }
}

#[test]
fn format_keeps_a_long_context_whole() {
    let event =
        Event::with_time(sample_timestamp(), Severity::Info, "a context wider than the column", "m");
    let bytes = format_event(&event);
    let text = std::str::from_utf8(&bytes).unwrap();
    assert_eq!("2019-01-29 21:09:30 Info    -> a context wider than the column: m\n", text);
}

#[test]
fn format_zero_pads_small_fields() {
    let timestamp = Timestamp { year: 1, month: 2, day: 3, hour: 4, minute: 5, second: 6 };
    let event = Event::with_time(timestamp, Severity::Verbose, "boot", "go");
    let bytes = format_event(&event);
    let text = std::str::from_utf8(&bytes).unwrap();
    assert_eq!("0001-02-03 04:05:06 Verbose -> boot    : go\n", text);
}

#[test]
fn format_keeps_a_wide_year_whole() {
    let timestamp = Timestamp { year: 123456, month: 12, day: 31, hour: 23, minute: 59, second: 59 };
    let event = Event::with_time(timestamp, Severity::Fatal, "end", "of days");
    let bytes = format_event(&event);
    let text = std::str::from_utf8(&bytes).unwrap();
    assert_eq!("123456-12-31 23:59:59 Fatal   -> end     : of days\n", text);
}

#[test]
fn with_time_keeps_its_fields() {
    let event = Event::with_time(sample_timestamp(), Severity::Warning, "source", "something");
    assert_eq!(event.time, sample_timestamp());
    assert_eq!(event.severity, Severity::Warning);
    assert_eq!(event.context, "source");
    assert_eq!(event.message, "something");
}

#[test]
fn console_receiver_accepts_events_without_failing() {
    let mut receiver = ConsoleReceiver::new();
    receiver.notify(&Event::with_time(sample_timestamp(), Severity::Info, "test", "to stdout"));
    receiver.notify(&Event::with_time(sample_timestamp(), Severity::Error, "test", "to stderr"));
    write_event(&Event::with_time(sample_timestamp(), Severity::Fatal, "test", "direct"));
}
