//! The messages that cross the core's boundaries: backend events coming in,
//! control messages going out to the playback worker, OS media-control
//! events, terminal keys, and the side effects a transition asks its caller
//! to perform.

use vstd::prelude::*;

verus! {

/// A control message from the core to the playback worker. Each message
/// causes exactly one backend call. Seek targets and positions are in
/// milliseconds; an out-of-range seek target is the backend's to resolve.
#[derive(Debug, Clone, PartialEq)]
pub enum Control {
    Play,
    Pause,
    Seek(i64),
    Open(String),
    Quit,
}

/// An event reported by the playback worker. Positions and durations are in
/// milliseconds and may arrive negative from the backend; the core clamps
/// them to zero.
#[derive(Debug, Clone, Copy)]
pub enum PlayerEvent {
    Pos(i64),
    Duration(i64),
    Eof,
    Quit,
}

/// A transport command from the OS media-control surface.
#[derive(Debug, Clone, Copy)]
pub enum MediaEvent {
    Toggle,
    Play,
    Pause,
    Next,
    Previous,
}

/// A terminal key, already freed of the terminal library's own event type.
#[derive(Debug, PartialEq, Eq, Structural, Clone, Copy)]
pub enum Key {
    Char(char),
    Left,
    Right,
    Up,
    Down,
    PageUp,
    PageDown,
    Enter,
    Esc,
    Tab,
    Other,
}

/// A side effect requested by a core transition, to be performed by the
/// caller in order: send a control message, push playback state or metadata
/// to the OS surface, retitle the terminal, acquire or release the idle
/// inhibitor, load a background image (by hash) for rendering, feed the
/// pending key to the search text-entry buffer, or leave the main loop.
#[derive(Debug, Clone, PartialEq)]
pub enum Effect {
    Control(Control),
    Playback { paused: bool, position: i64 },
    Metadata { title: String, artist: String, album: String, duration: i64, cover: Option<String> },
    TermTitle(String),
    AcquireAwake,
    ReleaseAwake,
    LoadCover(Option<String>),
    FeedInput,
    Exit,
}

/// The views of an optional string, for contracts over effects that carry
/// one.
pub open spec fn opt_view(o: Option<String>) -> Option<Seq<char>> {
    match o {
        Some(s) => Some(s@),
        None => None,
    }
}

} // verus!
