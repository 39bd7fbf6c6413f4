//! the log subsystem: plain timestamped event records, the receivers that
//! accept them, and a verified textual rendering of each record

pub mod event;
pub mod output;
