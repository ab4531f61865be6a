//! The event bridge's vocabulary: platform input reduced to the plain
//! values the scheduler decides on, and the outward event the scheduler
//! hands back to the host.

use vstd::prelude::*;

verus! {

/// The keys the menu reacts to; everything else is `Other`.
#[derive(Clone, Copy, Debug, PartialEq, Eq, Structural)]
pub enum Key {
    Up,
    Down,
    Return,
    Escape,
    Other,
}

/// A platform event after the host's conversion: key presses, text edits
/// from the input widget, selection reports from the list widget, and the
/// window events the scheduler must see.
#[derive(Clone, Debug)]
pub enum InputEvent {
    KeyPressed(Key),
    TextEdited(String),
    SelectionChanged(usize),
    CloseRequested,
    FocusChanged(bool),
    Resized(u32, u32),
    ScaleFactorChanged(u32, u32),
}

/// What one scheduler step asks of the host: start a debounced search for a
/// changed query, keep going, or leave the loop.
#[derive(Clone, Debug)]
pub enum AppEvent {
    Search(String),
    Continue,
    Exit,
}

} // verus!
