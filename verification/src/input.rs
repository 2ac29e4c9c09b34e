//! Per-frame input snapshot and the frame timer.
//!
//! The host polls the native backend once per frame; the poll mutates a
//! mouse snapshot in place and reports whether the host asked to quit.
//! The poll itself is an external event source; this module holds the
//! plain data it fills in, and the timer arithmetic over the counter
//! values the host reads from its high-precision clock.

use vstd::prelude::*;

verus! {

/// One mouse button slot in the per-frame snapshot.
#[derive(Clone, Copy, Debug, PartialEq, Eq, Structural)]
pub enum MouseButton {
    NoButton,
    Left,
    Middle,
    Right,
    Count,
}

/// Exactly one frame's input sample: cursor position, scroll value and
/// the pressed state of each button slot.  It is overwritten whole on
/// every poll, never left partially stale.
pub struct MouseState {
    pub mx: i32,
    pub my: i32,
    pub mz: i32,
    pub m_buttons: [MouseButton; 4],
}

impl MouseState {
    /// A fresh snapshot: cursor at the origin, no button pressed.
    pub fn new() -> (r: MouseState)
        ensures
            r.mx == 0,
            r.my == 0,
            r.mz == 0,
            forall|i: int| 0 <= i < 4 ==> r.m_buttons[i] is NoButton,
    {
        MouseState { mx: 0, my: 0, mz: 0, m_buttons: [MouseButton::NoButton; 4] }
    }
}

/// The rendering backends a native build may select among.  The binding
/// never chooses one itself; the value only names the dialect a layout or
/// session was prepared for.
#[derive(Clone, Copy, Debug, PartialEq, Eq, Structural)]
pub enum RendererType {
    Noop,
    Agc,
    Direct3D9,
    Direct3D11,
    Direct3D12,
    Gnm,
    Metal,
    Nvn,
    OpenGLES,
    OpenGL,
    Vulkan,
    WebGPU,
    Count,
}

/// Remembers the counter value at which timing started.  The host reads
/// the raw counter from its clock and hands the values in; turning a tick
/// difference into seconds requires the clock frequency and stays with
/// the host.
pub struct Timer {
    offset: i64,
}

impl Timer {
    pub closed spec fn spec_offset(&self) -> i64 {
        self.offset
    }

    /// Starts timing at the given counter reading.
    pub fn new(offset: i64) -> (r: Timer)
        ensures
            r.spec_offset() == offset,
    {
        Timer { offset }
    }

    /// Counter ticks elapsed between the start of timing and `now`.
    pub fn elapsed_ticks(&self, now: i64) -> (r: i64)
        requires
            now - self.spec_offset() <= i64::MAX,
            now - self.spec_offset() >= i64::MIN,
        ensures
            r == now - self.spec_offset(),
    {
        now - self.offset
    }
}

} // verus!
