//! The announcement to the user interface that the backend can be talked to.

use vstd::prelude::*;

verus! {

/// The label of the window that is told.
pub const MAIN_WINDOW: &'static str = "main";

/// The name of the event that carries the port.
pub const READY_EVENT: &'static str = "backend-ready";

/// An event to emit to the main window.
#[derive(Debug, Clone, PartialEq, Eq)]
pub struct ReadyEvent {
    pub name: String,
    pub payload: String,
}

/// A `ReadyEvent` as plain text values.
pub struct ReadyEventView {
    pub name: Seq<char>,
    pub payload: Seq<char>,
}

impl View for ReadyEvent {
    type V = ReadyEventView;

    open spec fn view(&self) -> ReadyEventView {
        ReadyEventView { name: self.name@, payload: self.payload@ }
    }
}

/// What is emitted: the readiness event with the port as its payload where the main window
/// was found, nothing where it was not.
pub open spec fn announcement(window_found: bool, port: Seq<char>) -> Option<ReadyEventView> {
    if window_found {
        Some(ReadyEventView { name: READY_EVENT@, payload: port })
    } else {
        None
    }
}

/// Decides what to emit once the launch of the backend was requested. A missing window is
/// no error: nothing is emitted then.
pub fn announce_ready(window_found: bool, port: &str) -> (event: Option<ReadyEvent>)
    ensures
        match event {
            Some(e) => announcement(window_found, port@) == Some(e@),
            None => announcement(window_found, port@) is None,
        },
{
    if window_found {
        Some(ReadyEvent { name: String::from_str(READY_EVENT), payload: String::from_str(port) })
    } else {
        None
    }
}

/// Whatever the port, a main window that was not found means that nothing is emitted, and one
/// that was found is sent the readiness event with the port as its payload.
pub proof fn missing_window_emits_nothing(port: Seq<char>)
    ensures
        announcement(false, port) is None,
        announcement(true, port) == Some(ReadyEventView { name: "backend-ready"@, payload: port }),
{
}

} // verus!
