//! What the scripts read out of the host's stream of window events.

use vstd::prelude::*;

verus! {

/// A key on the keyboard, named by its place and not by what it types.
/// Every key that the game does not use is `Other`.
#[derive(Clone, Copy, Debug, PartialEq, Eq, Structural)]
pub enum Key {
    A,
    D,
    W,
    S,
    ArrowUp,
    Other,
}

/// An event of the window system, as far as the scripts look into it.
#[derive(Clone, Copy, Debug, PartialEq, Eq)]
pub enum OsEvent {
    /// A key went down (`pressed`) or came up.
    KeyboardInput { key: Key, pressed: bool },
    /// Anything else: the pointer, the window, the clock.
    Other,
}

} // verus!
