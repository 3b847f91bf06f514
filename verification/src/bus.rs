//! The application's event bus, as far as the backend is concerned: the four
//! events that are published on it, their names and their payloads.

use crate::supervisor::reply_view;
use vstd::prelude::*;

verus! {

/// One event on the application's bus, with its payload.
#[derive(Debug, PartialEq, Eq)]
pub enum BusEvent {
    /// A line of backend output.
    Log(String),
    /// An error message.
    Error(String),
    /// The backend ended, with this exit code if it had one.
    Terminated(Option<i32>),
    /// The backend was started. No payload.
    Started,
}

/// `BusEvent` with its texts as sequences of characters.
pub enum BusEventView {
    Log(Seq<char>),
    Error(Seq<char>),
    Terminated(Option<i32>),
    Started,
}

impl View for BusEvent {
    type V = BusEventView;

    open spec fn view(&self) -> BusEventView {
        match *self {
            BusEvent::Log(line) => BusEventView::Log(line@),
            BusEvent::Error(message) => BusEventView::Error(message@),
            BusEvent::Terminated(code) => BusEventView::Terminated(code),
            BusEvent::Started => BusEventView::Started,
        }
    }
}

/// The name under which an event is published.
pub open spec fn bus_name(event: BusEventView) -> Seq<char> {
    match event {
        BusEventView::Log(_) => "backend-log"@,
        BusEventView::Error(_) => "backend-error"@,
        BusEventView::Terminated(_) => "backend-terminated"@,
        BusEventView::Started => "backend-started"@,
    }
}

/// What is published for the answer to the start that the application makes
/// on its own when it comes up: the started event for any success, the error
/// event with the message for a failure.
pub open spec fn startup_published(answer: Result<Seq<char>, Seq<char>>) -> BusEventView {
    match answer {
        Ok(_) => BusEventView::Started,
        Err(message) => BusEventView::Error(message),
    }
}

impl BusEvent {
    /// The name under which this event is published.
    pub fn name(&self) -> (name: &'static str)
        ensures
            name@ == bus_name(self@),
    {
        match self {
            BusEvent::Log(_) => "backend-log",
            BusEvent::Error(_) => "backend-error",
            BusEvent::Terminated(_) => "backend-terminated",
            BusEvent::Started => "backend-started",
        }
    }
}

/// The bus event that carries a line of backend output.
pub fn log_line(text: String) -> (event: BusEvent)
    ensures
        event@ == BusEventView::Log(text@),
{
    BusEvent::Log(text)
}

/// The event to publish once the start at application startup is answered.
pub fn startup_notice(answer: Result<String, String>) -> (event: BusEvent)
    ensures
        event@ == startup_published(reply_view(answer)),
{
    match answer {
        Ok(_) => BusEvent::Started,
        Err(message) => BusEvent::Error(message),
    }
}

} // verus!
