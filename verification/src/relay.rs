//! The relay: what the backend process reports, and what is published on the
//! event bus for it. The caller receives the reports one by one and publishes
//! what `relay` returns for each, in the order received.

use crate::bus::{log_line, BusEvent, BusEventView};
use vstd::prelude::*;
use vstd::utf8::*;

verus! {

/// One report from the backend process.
#[derive(Debug, PartialEq, Eq)]
pub enum ChildEvent {
    /// A line that the process wrote to its standard output, as raw bytes.
    Stdout(Vec<u8>),
    /// A line that the process wrote to its error output, as raw bytes.
    Stderr(Vec<u8>),
    /// The process could not be run or read; the text says why.
    Error(String),
    /// The process ended, with this exit code if it had one.
    Terminated(Option<i32>),
}

/// `ChildEvent` with its lines and text as sequences.
pub enum ChildEventView {
    Stdout(Seq<u8>),
    Stderr(Seq<u8>),
    Error(Seq<char>),
    Terminated(Option<i32>),
}

impl View for ChildEvent {
    type V = ChildEventView;

    open spec fn view(&self) -> ChildEventView {
        match *self {
            ChildEvent::Stdout(line) => ChildEventView::Stdout(line@),
            ChildEvent::Stderr(line) => ChildEventView::Stderr(line@),
            ChildEvent::Error(message) => ChildEventView::Error(message@),
            ChildEvent::Terminated(code) => ChildEventView::Terminated(code),
        }
    }
}

/// What the standard library's lossy conversion makes of bytes: their text,
/// with U+FFFD in place of each sequence that is not valid UTF-8.
pub uninterp spec fn lossy_text(bytes: Seq<u8>) -> Seq<char>;

/// The text of a line of output: the characters that the bytes encode where
/// they are valid UTF-8, and the lossy conversion of them where they are not.
pub open spec fn line_text(bytes: Seq<u8>) -> Seq<char> {
    if valid_utf8(bytes) {
        decode_utf8(bytes)
    } else {
        lossy_text(bytes)
    }
}

/// The bus event for a report: output of either stream becomes a log line,
/// an error keeps its message, a termination keeps its exit code.
pub open spec fn relayed(event: ChildEventView) -> BusEventView {
    match event {
        ChildEventView::Stdout(line) => BusEventView::Log(line_text(line)),
        ChildEventView::Stderr(line) => BusEventView::Log(line_text(line)),
        ChildEventView::Error(message) => BusEventView::Error(message),
        ChildEventView::Terminated(code) => BusEventView::Terminated(code),
    }
}

/// Calls `String::from_utf8_lossy` of the standard library and takes the
/// result as an owned string. Trusted, as the function's documentation has
/// it: the result depends on the bytes alone, and valid UTF-8 is converted
/// to the string that it encodes. Of other bytes the contract only names the
/// result.
#[verifier::external_body]
fn decode_lossy(bytes: &Vec<u8>) -> (text: String)
    ensures
        text@ == lossy_text(bytes@),
        valid_utf8(bytes@) ==> text@ == decode_utf8(bytes@),
{
    String::from_utf8_lossy(bytes).into_owned()
}

/// The bus event to publish for one report of the backend process. Every
/// report gives exactly one event, with the report's own payload.
///
/// The relay only publishes. A termination report does not reach the
/// supervisor: a backend that ends on its own stays tracked until it is
/// stopped.
pub fn relay(event: ChildEvent) -> (published: BusEvent)
    ensures
        published@ == relayed(event@),
{
    match event {
        ChildEvent::Stdout(line) => log_line(decode_lossy(&line)),
        ChildEvent::Stderr(line) => log_line(decode_lossy(&line)),
        ChildEvent::Error(message) => BusEvent::Error(message),
        ChildEvent::Terminated(code) => BusEvent::Terminated(code),
    }
}

} // verus!
