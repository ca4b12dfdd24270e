use vstd::prelude::*;

verus! {

/// A command sent by the external controller to the intercepted host.
///
/// Events travel one way over the command channel and are drained by the
/// tick interceptor in the exact order they were sent.
#[derive(Clone, Copy, Debug, PartialEq, Eq)]
pub enum Event {
    /// Request the transition to the paused (`Stopping`) mode.
    Stop,
    /// While paused, let exactly one more frame elapse, then await commands
    /// again on the next tick.
    Step,
    /// Resume normal, unpaused execution.
    Continue,
    /// Synthesize a key-down for the given key code (the key code is reused
    /// as the character code, with the repeat flag cleared).
    Press(i32),
    /// Synthesize a key-up for the given key code.
    Release(i32),
    /// Synthesize an absolute raw-mouse-move with the given coordinates.
    Mouse(i32, i32),
    /// Override the host's per-frame delta time. The payload is the bit
    /// pattern of the 64-bit IEEE 754 value to write; the bit pattern of
    /// positive or negative zero clears the override, restoring the host's
    /// natural timing.
    SetDelta(u64),
}

/// A notification sent back from the host's thread to the controller.
#[derive(Clone, Copy, Debug, PartialEq, Eq)]
pub enum Response {
    /// The host has started a new session.
    NewGame,
    /// The paused mode has been entered; the host's thread is now blocked
    /// awaiting further events. Announced anew before every blocking wait.
    Stopped,
}

/// One call made into the host on its own thread: a synthetic input event
/// handed to the host's input dispatcher, or a write of the per-frame
/// delta-time cell.
#[derive(Clone, Copy, Debug, PartialEq, Eq)]
pub enum HostCall {
    /// Key-down dispatch with the given key code.
    KeyDown(i32),
    /// Key-up dispatch with the given key code.
    KeyUp(i32),
    /// Raw-mouse-move dispatch with the given coordinates.
    MouseMove(i32, i32),
    /// Write of the given bit pattern into the host's delta-time cell.
    DeltaWrite(u64),
}

/// Whether a `SetDelta` payload clears the override rather than setting it.
///
/// The payload stands for a 64-bit IEEE 754 value, and the override is
/// cleared exactly when that value compares equal to zero: the bit patterns
/// of positive and negative zero, and no other (in particular, no NaN
/// pattern compares equal to zero).
pub open spec fn delta_clears(bits: u64) -> bool {
    bits == 0u64 || bits == 0x8000_0000_0000_0000u64
}

/// Executable counterpart of [`delta_clears`].
pub fn clears_override(bits: u64) -> (r: bool)
    ensures
        r == delta_clears(bits),
{
    bits == 0 || bits == 0x8000_0000_0000_0000
}

} // verus!
