use std::collections::VecDeque;
use std::io;

use termion::event::{parse_event, Event, Key, MouseButton, MouseEvent};
use tui_input::buffer::{BufferedInput, BUFFER_SIZE};
use tui_input::event::{event_from_parsed, TuiEvent};
use tui_input::mux::{after_wake, start, Readiness, Start, WakeAction};
use tui_input::retry::{settle, Attempt};

/// A byte source that serves the reader and refills it from scripted chunks,
/// as a terminal would deliver them one physical read at a time.
struct Scripted {
    reader: BufferedInput,
    chunks: VecDeque<Vec<u8>>,
    refills: Vec<bool>,
}

impl Scripted {
    fn new(capacity: usize, chunks: Vec<&[u8]>) -> Scripted {
        Scripted {
            reader: BufferedInput::new(capacity),
            chunks: chunks.into_iter().map(|c| c.to_vec()).collect(),
            refills: Vec::new(),
        }
    }
}

impl Iterator for Scripted {
    type Item = io::Result<u8>;

    fn next(&mut self) -> Option<io::Result<u8>> {
        if let Some(b) = self.reader.next_byte() {
            return Some(Ok(b));
        }
        let chunk = self.chunks.pop_front()?;
        self.reader.clear();
        if chunk.is_empty() {
            return None;
        }
        let first = self.reader.refill(&chunk);
        self.refills.push(self.reader.likely_more());
        Some(Ok(first))
    }
}

/// Produces one event the way the stream does, given what a wait would
/// report if one is made.
fn next_event(src: &mut Scripted, ready: Readiness) -> io::Result<TuiEvent> {
    if start(&src.reader) == Start::Wait && after_wake(ready) == WakeAction::DrainResize {
        return Ok(TuiEvent::WinChEvent);
    }
    let lead = src.next().unwrap()?;
    event_from_parsed(parse_event(lead, src))
}

#[test]
fn single_printable_byte_is_one_key() {
    let mut src = Scripted::new(BUFFER_SIZE, vec![b"a"]);
    let ev = next_event(&mut src, Readiness { resize: false, data: true }).unwrap();
    assert_eq!(ev, TuiEvent::KeyEvent(Key::Char('a')));
    assert!(!src.reader.has_buffered_data());
    assert!(!src.reader.might_have_buffered_data());
}

#[test]
fn arrow_escape_sequence_is_one_key_with_nothing_left() {
    let mut src = Scripted::new(BUFFER_SIZE, vec![b"\x1b[A"]);
    let ev = next_event(&mut src, Readiness { resize: false, data: true }).unwrap();
    assert_eq!(ev, TuiEvent::KeyEvent(Key::Up));
    assert!(!src.reader.has_buffered_data());
    assert_eq!(start(&src.reader), Start::Wait);
}

#[test]
fn chunks_four_four_two_are_served_in_order() {
    let mut src = Scripted::new(4, vec![b"0123", b"4567", b"89"]);
    let mut out = Vec::new();
    while let Some(b) = src.next() {
        out.push(b.unwrap());
    }
    assert_eq!(out, b"0123456789".to_vec());
    assert_eq!(src.refills, vec![true, true, false]);
}

#[test]
fn resize_then_three_byte_key() {
    let mut src = Scripted::new(BUFFER_SIZE, vec!["€".as_bytes()]);
    let first = next_event(&mut src, Readiness { resize: true, data: true }).unwrap();
    assert_eq!(first, TuiEvent::WinChEvent);
    let second = next_event(&mut src, Readiness { resize: false, data: true }).unwrap();
    assert_eq!(second, TuiEvent::KeyEvent(Key::Char('€')));
    assert!(!src.reader.might_have_buffered_data());
}

#[test]
fn nothing_is_buffered_or_likely_before_the_first_refill() {
    let r = BufferedInput::new(8);
    assert_eq!(r.capacity(), 8);
    assert!(!r.likely_more());
    assert!(!r.has_buffered_data());
    assert_eq!(start(&r), Start::Wait);
}

#[test]
fn likely_more_follows_each_refill() {
    let mut r = BufferedInput::new(3);
    assert_eq!(r.refill(b"xyz"), b'x');
    assert!(r.likely_more());
    assert_eq!(start(&r), Start::Decode);
    assert_eq!(r.next_byte(), Some(b'y'));
    assert_eq!(r.next_byte(), Some(b'z'));
    assert_eq!(r.next_byte(), None);
    // a full refill means more is likely: the next request does not wait
    assert_eq!(start(&r), Start::Decode);
    r.clear();
    assert!(!r.likely_more());
    assert_eq!(r.refill(b"q"), b'q');
    assert!(!r.likely_more());
    assert_eq!(r.next_byte(), None);
    assert_eq!(start(&r), Start::Wait);
}

#[test]
fn short_refill_then_exhausted_buffer_waits() {
    let mut r = BufferedInput::new(4);
    assert_eq!(r.refill(b"ab"), b'a');
    assert!(!r.likely_more());
    assert!(r.has_buffered_data());
    assert_eq!(r.next_byte(), Some(b'b'));
    assert_eq!(r.next_byte(), None);
    assert!(!r.might_have_buffered_data());
}

#[test]
fn bytes_survive_any_chunking() {
    let data: Vec<u8> = (0u8..=200).collect();
    for cap in 1..=7usize {
        for step in 1..=cap {
            let chunks: Vec<&[u8]> = data.chunks(step).collect();
            let mut src = Scripted::new(cap, chunks);
            let mut out = Vec::new();
            while let Some(b) = src.next() {
                out.push(b.unwrap());
            }
            assert_eq!(out, data);
        }
    }
}

#[test]
fn resize_wins_over_data() {
    assert_eq!(after_wake(Readiness { resize: true, data: true }), WakeAction::DrainResize);
    assert_eq!(after_wake(Readiness { resize: true, data: false }), WakeAction::DrainResize);
    assert_eq!(after_wake(Readiness { resize: false, data: true }), WakeAction::Decode);
}

#[test]
fn many_queued_resizes_make_one_event_per_wake() {
    // however many notifications queued, the wait reports the resize source
    // readable, together with the data source
    let mut src = Scripted::new(BUFFER_SIZE, vec![b"k"]);
    let ev = next_event(&mut src, Readiness { resize: true, data: true }).unwrap();
    assert_eq!(ev, TuiEvent::WinChEvent);
    // the resize source was drained by that wake; the next event is the key
    let ev = next_event(&mut src, Readiness { resize: false, data: true }).unwrap();
    assert_eq!(ev, TuiEvent::KeyEvent(Key::Char('k')));
}

#[test]
fn interrupted_attempts_are_retried() {
    let attempts: Vec<Attempt<usize, &str>> = vec![Attempt::Interrupted, Attempt::Interrupted, Attempt::Done(5)];
    let mut settled = None;
    for a in attempts {
        if let Some(r) = settle(a) {
            settled = Some(r);
            break;
        }
    }
    assert_eq!(settled, Some(Ok(5)));
    assert_eq!(settle::<usize, &str>(Attempt::Done(5)), Some(Ok(5)));
    assert_eq!(settle::<usize, &str>(Attempt::Interrupted), None);
    assert_eq!(settle::<usize, &str>(Attempt::Failed("bad fd")), Some(Err("bad fd")));
}

#[test]
fn decoder_results_map_to_events() {
    let m = MouseEvent::Press(MouseButton::Left, 3, 4);
    assert_eq!(event_from_parsed(Ok(Event::Key(Key::Esc))).unwrap(), TuiEvent::KeyEvent(Key::Esc));
    assert_eq!(event_from_parsed(Ok(Event::Mouse(m))).unwrap(), TuiEvent::MouseEvent(m));
    assert_eq!(event_from_parsed(Ok(Event::Unsupported(vec![1, 2]))).unwrap(), TuiEvent::Unknown);
    let err = event_from_parsed(Err(io::Error::new(io::ErrorKind::Other, "x"))).unwrap_err();
    assert_eq!(err.kind(), io::ErrorKind::Other);
}

#[test]
fn broken_escape_is_a_decode_error() {
    let mut src = Scripted::new(BUFFER_SIZE, vec![b"\x1bO"]);
    let res = next_event(&mut src, Readiness { resize: false, data: true });
    assert!(res.is_err());
}
