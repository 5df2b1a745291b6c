//! The events the stream produces, and the mapping from a decoded terminal
//! event to one of them.

use termion::event::{Event, Key, MouseEvent};
use vstd::prelude::*;

verus! {

/// A key as termion decodes it; carried through, never inspected.
#[verifier::external_type_specification]
#[verifier::external_body]
pub struct ExKey(Key);

/// A mouse event as termion decodes it; carried through, never inspected.
#[verifier::external_type_specification]
#[verifier::external_body]
pub struct ExMouseEvent(MouseEvent);

/// termion's decoded event, with its variants visible: a key, a mouse
/// event, or a sequence it recognised but cannot represent.
#[verifier::external_type_specification]
pub struct ExEvent(Event);

/// An I/O or decode error; carried through, never inspected.
#[verifier::external_type_specification]
#[verifier::external_body]
pub struct ExIoError(std::io::Error);

/// One event of the input stream.
#[derive(Debug, Clone, Copy, PartialEq, Eq)]
pub enum TuiEvent {
    /// The window size changed (any number of notifications since the last
    /// wake count as one).
    WinChEvent,
    /// A key press.
    KeyEvent(Key),
    /// A mouse event.
    MouseEvent(MouseEvent),
    /// Input that was decoded but has no representation here.
    Unknown,
}

/// The stream item for a result of termion's `parse_event`: keys and mouse events carry their
/// payload, an unsupported sequence becomes `Unknown`, a decode error is
/// passed on unchanged.
pub open spec fn event_of(parsed: Result<Event, std::io::Error>) -> Result<TuiEvent, std::io::Error> {
    match parsed {
        Ok(Event::Key(k)) => Ok(TuiEvent::KeyEvent(k)),
        Ok(Event::Mouse(m)) => Ok(TuiEvent::MouseEvent(m)),
        Ok(Event::Unsupported(_)) => Ok(TuiEvent::Unknown),
        Err(e) => Err(e),
    }
}

/// Maps a decoder result to the stream item it stands for.
pub fn event_from_parsed(parsed: Result<Event, std::io::Error>) -> (r: Result<TuiEvent, std::io::Error>)
    ensures
        r == event_of(parsed),
{
    match parsed {
        Ok(Event::Key(k)) => Ok(TuiEvent::KeyEvent(k)),
        Ok(Event::Mouse(m)) => Ok(TuiEvent::MouseEvent(m)),
        Ok(Event::Unsupported(_)) => Ok(TuiEvent::Unknown),
        Err(e) => Err(e),
    }
}

} // verus!
