//! subsystem for log data output: a verified textual rendering of a log
//! event, and the console sink that prints it
//!
//! A rendered record reads
//! `YYYY-MM-DD HH:MM:SS SEVERITY -> CONTEXT: MESSAGE` followed by a line
//! feed, with the numbers zero-padded to their usual widths and the severity
//! and context space-padded to columns of seven and eight bytes.

use vstd::prelude::*;
use vstd::utf8::encode_utf8;

use super::event::{Event, Severity, Timestamp};

verus! {

/// the decimal digits of `n`, most significant first, as ASCII bytes
pub open spec fn spec_decimal(n: nat) -> Seq<u8>
    decreases n,
{
    if n < 10 {
        seq![(48 + n) as u8]
    } else {
        spec_decimal(n / 10).push((48 + n % 10) as u8)
    }
}

/// `count` copies of one byte
pub open spec fn spec_repeated(byte: u8, count: nat) -> Seq<u8> {
    Seq::new(count, |i: int| byte)
}

/// the decimal digits of `n`, left-padded with ASCII zeros to at least
/// `width` bytes (a longer number is kept whole)
pub open spec fn spec_zero_padded(n: nat, width: nat) -> Seq<u8> {
    if spec_decimal(n).len() >= width {
        spec_decimal(n)
    } else {
        spec_repeated(48, (width - spec_decimal(n).len()) as nat) + spec_decimal(n)
    }
}

/// the bytes of `s`, right-padded with ASCII spaces to at least `width`
/// bytes (a longer text is kept whole)
pub open spec fn spec_space_padded(s: Seq<u8>, width: nat) -> Seq<u8> {
    if s.len() >= width {
        s
    } else {
        s + spec_repeated(32, (width - s.len()) as nat)
    }
}

/// the label under which each severity level is printed
pub open spec fn spec_severity_label(severity: Severity) -> Seq<char> {
    match severity {
        Severity::Debug => "Debug"@,
        Severity::Verbose => "Verbose"@,
        Severity::Info => "Info"@,
        Severity::Warning => "Warning"@,
        Severity::Error => "Error"@,
        Severity::Fatal => "Fatal"@,
    }
}

/// the full rendering of a log record: date, time, severity and context in
/// their padded columns, then the message and a line feed
pub open spec fn spec_format_event(
    time: Timestamp,
    severity: Severity,
    context: Seq<u8>,
    message: Seq<u8>,
) -> Seq<u8> {
    spec_zero_padded(time.year as nat, 4) + seq![45u8] + spec_zero_padded(time.month as nat, 2)
        + seq![45u8] + spec_zero_padded(time.day as nat, 2) + seq![32u8] + spec_zero_padded(
        time.hour as nat,
        2,
    ) + seq![58u8] + spec_zero_padded(time.minute as nat, 2) + seq![58u8] + spec_zero_padded(
        time.second as nat,
        2,
    ) + seq![32u8] + spec_space_padded(encode_utf8(spec_severity_label(severity)), 7) + seq![
        32u8,
        45u8,
        62u8,
        32u8,
    ] + spec_space_padded(context, 8) + seq![58u8, 32u8] + message + seq![10u8]
}

/// append `count` copies of one byte
fn push_repeated(out: &mut Vec<u8>, byte: u8, count: usize)
    ensures
        final(out)@ == old(out)@ + spec_repeated(byte, count as nat),
{
    let mut i: usize = 0;
    while i < count
        invariant
            i <= count,
            out@ == old(out)@ + spec_repeated(byte, i as nat),
        decreases count - i,
    {
        out.push(byte);
        i = i + 1;
        proof {
            assert(out@ =~= old(out)@ + spec_repeated(byte, i as nat));
        }
    }
}

/// append the decimal digits of `n`, left-padded with zeros to at least
/// `width` bytes
fn push_decimal_padded(out: &mut Vec<u8>, n: u32, width: usize)
    ensures
        final(out)@ == old(out)@ + spec_zero_padded(n as nat, width as nat),
    decreases n,
{
    if n < 10 {
        if width > 1 {
            push_repeated(out, 48, width - 1);
        }
        out.push(48 + (n as u8));
        proof {
            assert(out@ =~= old(out)@ + spec_zero_padded(n as nat, width as nat));
        }
    } else {
        let rest_width: usize = if width > 0 {
            width - 1
        } else {
            0
        };
        push_decimal_padded(out, n / 10, rest_width);
        out.push(48 + ((n % 10) as u8));
        proof {
            assert(spec_decimal(n as nat).len() == spec_decimal(n as nat / 10).len() + 1);
            assert(out@ =~= old(out)@ + spec_zero_padded(n as nat, width as nat));
        }
    }
}

/// append the bytes of `s`, right-padded with spaces to at least `width`
/// bytes
fn push_space_padded(out: &mut Vec<u8>, s: &str, width: usize)
    ensures
        final(out)@ == old(out)@ + spec_space_padded(encode_utf8(s@), width as nat),
{
    let bytes = s.as_bytes();
    out.extend_from_slice(bytes);
    let len = bytes.len();
    if len < width {
        push_repeated(out, 32, width - len);
    }
    proof {
        assert(out@ =~= old(out)@ + spec_space_padded(encode_utf8(s@), width as nat));
    }
}

/// the label under which a severity level is printed
fn severity_label(severity: &Severity) -> (r: &'static str)
    ensures
        r@ == spec_severity_label(*severity),
{
    match severity {
        Severity::Debug => "Debug",
        Severity::Verbose => "Verbose",
        Severity::Info => "Info",
        Severity::Warning => "Warning",
        Severity::Error => "Error",
        Severity::Fatal => "Fatal",
    }
}

/// write a log event to a character vector
pub fn format_event(event: &Event) -> (r: Vec<u8>)
    ensures
        r@ == spec_format_event(
            event.time,
            event.severity,
            encode_utf8(event.context@),
            encode_utf8(event.message@),
        ),
{
    let mut out: Vec<u8> = Vec::new();
    push_decimal_padded(&mut out, event.time.year, 4);
    out.push(45);
    push_decimal_padded(&mut out, event.time.month, 2);
    out.push(45);
    push_decimal_padded(&mut out, event.time.day, 2);
    out.push(32);
    push_decimal_padded(&mut out, event.time.hour, 2);
    out.push(58);
    push_decimal_padded(&mut out, event.time.minute, 2);
    out.push(58);
    push_decimal_padded(&mut out, event.time.second, 2);
    out.push(32);
    push_space_padded(&mut out, severity_label(&event.severity), 7);
    out.push(32);
    out.push(45);
    out.push(62);
    out.push(32);
    push_space_padded(&mut out, event.context.as_str(), 8);
    out.push(58);
    out.push(32);
    out.extend_from_slice(event.message.as_str().as_bytes());
    out.push(10);
    proof {
        assert(out@ =~= spec_format_event(
            event.time,
            event.severity,
            encode_utf8(event.context@),
            encode_utf8(event.message@),
        ));
    }
    out
}

/// Relies on std::io::Write::write_all on the process's standard output:
/// hands the rendered record to the console and discards any error, so the
/// log sink never fails its caller.
#[verifier::external_body]
fn write_stdout(bytes: &Vec<u8>) {
    let _ = std::io::Write::write_all(&mut std::io::stdout(), bytes.as_slice());
}

/// Relies on std::io::Write::write_all on the process's standard error:
/// hands the rendered record to the console and discards any error, so the
/// log sink never fails its caller.
#[verifier::external_body]
fn write_stderr(bytes: &Vec<u8>) {
    let _ = std::io::Write::write_all(&mut std::io::stderr(), bytes.as_slice());
}

/// write a log event to the console (stdout or stderr, depending on
/// severity); failures of the console are discarded, never surfaced
pub fn write_event(event: &Event) {
    let bytes = format_event(event);
    match event.severity {
        Severity::Debug | Severity::Verbose | Severity::Info | Severity::Warning => write_stdout(
            &bytes,
        ),
        Severity::Error | Severity::Fatal => write_stderr(&bytes),
    }
}

} // verus!
