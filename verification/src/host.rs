//! Host-side decisions: classifying input events and decoding key
//! presses. The host loop itself (window, sleeping, rendering) lives
//! outside the crate and only acts on what these functions decide.

use vstd::prelude::*;

verus! {

/// Nanoseconds of the fixed sleep between host ticks: a 100 Hz cadence.
pub const TICK_NANOS: u32 = 1_000_000_000 / 100;

/// First printable ASCII code (space).
pub const PRINTABLE_MIN: u8 = 32;

/// First code past the printable ASCII range (delete).
pub const PRINTABLE_END: u8 = 127;

/// An input event as the host loop classifies it.
#[derive(Clone, Copy, Debug, PartialEq, Eq, Structural)]
pub enum HostEvent {
    /// The user asked to close the emulator.
    Quit,
    /// A key went down, with the raw key code (low byte) and whether
    /// shift or caps-lock was active.
    KeyDown { code: u8, shifted: bool },
    /// Anything else the window system reports.
    Other,
}

/// What the host loop does with one event.
#[derive(Clone, Copy, Debug, PartialEq, Eq, Structural)]
pub enum HostAction {
    /// Leave the loop and end the run in order.
    Shutdown,
    /// Hand this character on for further processing.
    ForwardChar(u8),
    /// Nothing to do for this event.
    Ignore,
}

/// The character a key press decodes to: `None` outside the printable
/// range; within it, the code itself, case-folded when shift or caps-lock
/// is active (letters lose 32, codes below `'A'` lose 16).
pub open spec fn spec_decode_key(code: u8, shifted: bool) -> Option<u8> {
    if PRINTABLE_MIN <= code < PRINTABLE_END {
        if shifted {
            if code < 65 {
                Some((code - 16) as u8)
            } else {
                Some((code - 32) as u8)
            }
        } else {
            Some(code)
        }
    } else {
        None
    }
}

/// Decodes one key press, forwarding only printable-range codes and
/// applying the shift/caps case fold.
pub fn decode_key(code: u8, shifted: bool) -> (r: Option<u8>)
    ensures
        r == spec_decode_key(code, shifted),
{
    if PRINTABLE_MIN <= code && code < PRINTABLE_END {
        if shifted {
            if code < 65 {
                Some(code - 16)
            } else {
                Some(code - 32)
            }
        } else {
            Some(code)
        }
    } else {
        None
    }
}

/// What one event makes the host loop do.
pub open spec fn spec_handle_event(event: HostEvent) -> HostAction {
    match event {
        HostEvent::Quit => HostAction::Shutdown,
        HostEvent::KeyDown { code, shifted } => match spec_decode_key(code, shifted) {
            Some(c) => HostAction::ForwardChar(c),
            None => HostAction::Ignore,
        },
        HostEvent::Other => HostAction::Ignore,
    }
}

/// Classifies one host event: quit shuts the loop down, a key press
/// forwards its decoded character or is ignored when non-printable, and
/// every other event is a no-op.
pub fn handle_event(event: HostEvent) -> (action: HostAction)
    ensures
        action == spec_handle_event(event),
{
    match event {
        HostEvent::Quit => HostAction::Shutdown,
        HostEvent::KeyDown { code, shifted } => match decode_key(code, shifted) {
            Some(c) => HostAction::ForwardChar(c),
            None => HostAction::Ignore,
        },
        HostEvent::Other => HostAction::Ignore,
    }
}

} // verus!
