//! The session and frame-submission state machine.
//!
//! A session owns the process-wide backend lifecycle: it is created
//! uninitialized, `init` makes it ready, per-frame calls configure and
//! enqueue draws, `frame` seals one frame's submission, and `shutdown`
//! terminates it.  The session also keeps the binding-side registry of
//! live resource identifiers, so a handle from a failed creation call,
//! or one that outlived its session, is rejected here instead of being
//! handed to the native backend, which may not validate it.
//!
//! The native backend performs the actual work asynchronously; what this
//! type tracks is exactly the decision logic: which calls are legal in
//! which state, and what each frame's submission contains.

use vstd::prelude::*;
use crate::UsageError;
use crate::handles::INVALID_HANDLE_IDX;
use crate::handles::IndexBufferHandle;
use crate::handles::ProgramHandle;
use crate::handles::VertexBufferHandle;

verus! {

/// Debug flag: enable the backend's debug-text overlay.
pub const BGFX_DEBUG_TEXT: u32 = 0x08;

/// Reset flag: synchronize frame advancement with the display refresh.
pub const BGFX_RESET_VSYNC: u32 = 0x80;

/// Render-state flag: write the red channel.
pub const BGFX_STATE_WRITE_R: u64 = 0x0000000000000001;

/// Render-state flag: write the green channel.
pub const BGFX_STATE_WRITE_G: u64 = 0x0000000000000002;

/// Render-state flag: write the blue channel.
pub const BGFX_STATE_WRITE_B: u64 = 0x0000000000000004;

/// Render-state flag: write the alpha channel.
pub const BGFX_STATE_WRITE_A: u64 = 0x0000000000000008;

/// Render-state flag: write the depth buffer.
pub const BGFX_STATE_WRITE_Z: u64 = 0x0000004000000000;

/// Render-state flag: depth test passes on strictly nearer fragments.
pub const BGFX_STATE_DEPTH_TEST_LESS: u64 = 0x0000000000000010;

/// Render-state flag: cull clockwise-wound faces.
pub const BGFX_STATE_CULL_CW: u64 = 0x0000001000000000;

/// Render-state flag: multisample anti-aliasing.
pub const BGFX_STATE_MSAA: u64 = 0x0100000000000000;

/// Number of raw identifiers in one resource kind's handle space.
pub const HANDLE_SPACE: usize = 65536;

/// Number of render-view slots draw calls may be submitted against.
pub const VIEW_SPACE: usize = 256;

/// Lifecycle states of a session.  `Configuring` is `Ready` with at
/// least one per-frame call recorded since the last frame advance.
#[derive(Clone, Copy, Debug, PartialEq, Eq, Structural)]
pub enum SessionState {
    Uninitialized,
    Ready,
    Configuring,
    Terminated,
}

/// The viewport rectangle of one render view.
#[derive(Clone, Copy, Debug, PartialEq, Eq, Structural)]
pub struct ViewRect {
    pub x: u16,
    pub y: u16,
    pub width: u16,
    pub height: u16,
}

/// One enqueued draw: the view it targets, the program that shades it,
/// the buffers and render state that were bound when it was submitted.
/// An unbound buffer slot carries the invalid-handle sentinel.
#[derive(Clone, Copy, Debug, PartialEq, Eq, Structural)]
pub struct DrawCall {
    pub view: u8,
    pub program: u16,
    pub vertex_buffer: u16,
    pub vertex_stream: u8,
    pub index_buffer: u16,
    pub state_flags: u64,
}

/// The binding-side model of one backend session.
pub struct Session {
    state: SessionState,
    width: i32,
    height: i32,
    vb_live: Vec<bool>,
    ib_live: Vec<bool>,
    prog_live: Vec<bool>,
    rects: Vec<Option<ViewRect>>,
    touched: Vec<bool>,
    draws: Vec<DrawCall>,
    pending_vb: u16,
    pending_stream: u8,
    pending_ib: u16,
    pending_flags: u64,
    frames_completed: u64,
}

impl Session {
    pub closed spec fn spec_state(&self) -> SessionState {
        self.state
    }

    pub closed spec fn spec_width(&self) -> i32 {
        self.width
    }

    pub closed spec fn spec_height(&self) -> i32 {
        self.height
    }

    /// Liveness table of vertex-buffer identifiers, indexed by raw id.
    pub closed spec fn spec_vbs(&self) -> Seq<bool> {
        self.vb_live@
    }

    /// Liveness table of index-buffer identifiers, indexed by raw id.
    pub closed spec fn spec_ibs(&self) -> Seq<bool> {
        self.ib_live@
    }

    /// Liveness table of program identifiers, indexed by raw id.
    pub closed spec fn spec_progs(&self) -> Seq<bool> {
        self.prog_live@
    }

    /// Viewport of each view, indexed by view id; `None` when unset.
    pub closed spec fn spec_rects(&self) -> Seq<Option<ViewRect>> {
        self.rects@
    }

    /// Which views were touched this frame, indexed by view id.
    pub closed spec fn spec_touched(&self) -> Seq<bool> {
        self.touched@
    }

    /// The draws enqueued for the current frame, in submission order.
    pub closed spec fn spec_draws(&self) -> Seq<DrawCall> {
        self.draws@
    }

    pub closed spec fn spec_pending_vb(&self) -> u16 {
        self.pending_vb
    }

    pub closed spec fn spec_pending_stream(&self) -> u8 {
        self.pending_stream
    }

    pub closed spec fn spec_pending_ib(&self) -> u16 {
        self.pending_ib
    }

    pub closed spec fn spec_pending_flags(&self) -> u64 {
        self.pending_flags
    }

    /// Frames sealed by `frame` since the last `init`.
    pub closed spec fn spec_frames(&self) -> u64 {
        self.frames_completed
    }

    /// Whether the vertex-buffer identifier is live in this session.
    pub open spec fn spec_vb_live(&self, i: u16) -> bool {
        self.spec_vbs()[i as int]
    }

    /// Whether the index-buffer identifier is live in this session.
    pub open spec fn spec_ib_live(&self, i: u16) -> bool {
        self.spec_ibs()[i as int]
    }

    /// Whether the program identifier is live in this session.
    pub open spec fn spec_prog_live(&self, i: u16) -> bool {
        self.spec_progs()[i as int]
    }

    /// The viewport last set for the given view, if any.
    pub open spec fn spec_rect(&self, v: u8) -> Option<ViewRect> {
        self.spec_rects()[v as int]
    }

    /// Initialized and accepting calls: `Ready` or `Configuring`.
    pub open spec fn spec_is_active(&self) -> bool {
        self.spec_state() is Ready || self.spec_state() is Configuring
    }

    /// No resource identifier of any kind is live.
    pub open spec fn no_live_handles(&self) -> bool {
        &&& forall|i: int| 0 <= i < HANDLE_SPACE ==> !(#[trigger] self.spec_vbs()[i])
        &&& forall|i: int| 0 <= i < HANDLE_SPACE ==> !(#[trigger] self.spec_ibs()[i])
        &&& forall|i: int| 0 <= i < HANDLE_SPACE ==> !(#[trigger] self.spec_progs()[i])
    }

    /// Nothing recorded for the current frame: no draws, no touched
    /// view, no pending binding, default render state.
    pub open spec fn frame_clear(&self) -> bool {
        &&& self.spec_draws().len() == 0
        &&& forall|v: int| 0 <= v < VIEW_SPACE ==> !(#[trigger] self.spec_touched()[v])
        &&& self.spec_pending_vb() == INVALID_HANDLE_IDX
        &&& self.spec_pending_ib() == INVALID_HANDLE_IDX
        &&& self.spec_pending_stream() == 0
        &&& self.spec_pending_flags() == 0
    }

    /// No view has a viewport configured.
    pub open spec fn rects_clear(&self) -> bool {
        forall|v: int| 0 <= v < VIEW_SPACE ==> (#[trigger] self.spec_rects()[v]) is None
    }

    /// The session invariant: the registries and view tables span their
    /// identifier spaces; outside `Configuring` the current frame is
    /// empty; and while the session is not initialized, no resource is
    /// live and no view is configured.
    pub closed spec fn wf(&self) -> bool {
        &&& self.spec_vbs().len() == HANDLE_SPACE
        &&& self.spec_ibs().len() == HANDLE_SPACE
        &&& self.spec_progs().len() == HANDLE_SPACE
        &&& self.spec_rects().len() == VIEW_SPACE
        &&& self.spec_touched().len() == VIEW_SPACE
        &&& (!(self.state is Configuring) ==> self.frame_clear())
        &&& ((self.state is Uninitialized || self.state is Terminated) ==> self.no_live_handles()
            && self.rects_clear())
    }

    /// A fresh session: uninitialized, with nothing live and nothing
    /// recorded.
    pub fn new() -> (r: Session)
        ensures
            r.wf(),
            r.spec_state() is Uninitialized,
            r.no_live_handles(),
            r.frame_clear(),
            r.rects_clear(),
            r.spec_frames() == 0,
    {
        Session {
            state: SessionState::Uninitialized,
            width: 0,
            height: 0,
            vb_live: falses(HANDLE_SPACE),
            ib_live: falses(HANDLE_SPACE),
            prog_live: falses(HANDLE_SPACE),
            rects: none_rects(VIEW_SPACE),
            touched: falses(VIEW_SPACE),
            draws: Vec::new(),
            pending_vb: INVALID_HANDLE_IDX,
            pending_stream: 0,
            pending_ib: INVALID_HANDLE_IDX,
            pending_flags: 0,
            frames_completed: 0,
        }
    }

    /// Establishes the backend state for the given framebuffer size.
    /// Legal exactly once per lifetime: rejected while the session is
    /// already initialized.
    pub fn init(&mut self, width: i32, height: i32) -> (r: Result<(), UsageError>)
        requires
            old(self).wf(),
        ensures
            final(self).wf(),
            r is Ok <==> !old(self).spec_is_active(),
            match r {
                Ok(()) => {
                    &&& final(self).spec_state() is Ready
                    &&& final(self).spec_width() == width
                    &&& final(self).spec_height() == height
                    &&& final(self).no_live_handles()
                    &&& final(self).frame_clear()
                    &&& final(self).rects_clear()
                    &&& final(self).spec_frames() == 0
                },
                Err(e) => e == UsageError::AlreadyInitialized && same_session(
                    *final(self),
                    *old(self),
                ),
            },
    {
        match self.state {
            SessionState::Ready | SessionState::Configuring => Err(UsageError::AlreadyInitialized),
            _ => {
                self.state = SessionState::Ready;
                self.width = width;
                self.height = height;
                self.frames_completed = 0;
                Ok(())
            },
        }
    }

    /// Releases every backend-owned resource and terminates the session.
    /// Rejected as a usage error when no `init` preceded it.
    pub fn shutdown(&mut self) -> (r: Result<(), UsageError>)
        requires
            old(self).wf(),
        ensures
            final(self).wf(),
            r is Ok <==> old(self).spec_is_active(),
            match r {
                Ok(()) => {
                    &&& final(self).spec_state() is Terminated
                    &&& final(self).no_live_handles()
                    &&& final(self).frame_clear()
                    &&& final(self).rects_clear()
                },
                Err(e) => e == UsageError::NotInitialized && same_session(
                    *final(self),
                    *old(self),
                ),
            },
    {
        match self.state {
            SessionState::Ready | SessionState::Configuring => {
                self.state = SessionState::Terminated;
                self.vb_live = falses(HANDLE_SPACE);
                self.ib_live = falses(HANDLE_SPACE);
                self.prog_live = falses(HANDLE_SPACE);
                self.rects = none_rects(VIEW_SPACE);
                self.touched = falses(VIEW_SPACE);
                self.draws = Vec::new();
                self.pending_vb = INVALID_HANDLE_IDX;
                self.pending_stream = 0;
                self.pending_ib = INVALID_HANDLE_IDX;
                self.pending_flags = 0;
                Ok(())
            },
            _ => Err(UsageError::NotInitialized),
        }
    }

    pub fn is_initialized(&self) -> (r: bool)
        ensures
            r == self.spec_is_active(),
    {
        matches!(self.state, SessionState::Ready | SessionState::Configuring)
    }

    pub fn state(&self) -> (r: SessionState)
        ensures
            r == self.spec_state(),
    {
        self.state
    }

    pub fn frames_completed(&self) -> (r: u64)
        ensures
            r == self.spec_frames(),
    {
        self.frames_completed
    }

    /// Draws enqueued so far in the current frame.
    pub fn draw_count(&self) -> (r: usize)
        ensures
            r == self.spec_draws().len(),
    {
        self.draws.len()
    }

    /// Records the identifier a vertex-buffer creation call returned.
    /// The sentinel of a failed creation passes through unchanged — and
    /// unregistered, so every later use of it is rejected.
    pub fn register_vertex_buffer(&mut self, raw: u16) -> (r: Result<
        VertexBufferHandle,
        UsageError,
    >)
        requires
            old(self).wf(),
        ensures
            final(self).wf(),
            r is Ok <==> old(self).spec_is_active(),
            match r {
                Ok(h) => {
                    &&& h.spec_idx() == raw
                    &&& final(self).spec_state() == old(self).spec_state()
                    &&& final(self).spec_vbs() == (if raw == INVALID_HANDLE_IDX {
                        old(self).spec_vbs()
                    } else {
                        old(self).spec_vbs().update(raw as int, true)
                    })
                    &&& final(self).spec_ibs() == old(self).spec_ibs()
                    &&& final(self).spec_progs() == old(self).spec_progs()
                    &&& same_views(*final(self), *old(self))
                    &&& same_frame(*final(self), *old(self))
                    &&& same_config(*final(self), *old(self))
                },
                Err(e) => e == UsageError::NotInitialized && same_session(
                    *final(self),
                    *old(self),
                ),
            },
    {
        if !self.is_initialized() {
            return Err(UsageError::NotInitialized);
        }
        if raw != INVALID_HANDLE_IDX {
            self.vb_live[raw as usize] = true;
        }
        Ok(VertexBufferHandle::from_raw(raw))
    }

    /// Records the identifier an index-buffer creation call returned;
    /// the failed-creation sentinel passes through unregistered.
    pub fn register_index_buffer(&mut self, raw: u16) -> (r: Result<
        IndexBufferHandle,
        UsageError,
    >)
        requires
            old(self).wf(),
        ensures
            final(self).wf(),
            r is Ok <==> old(self).spec_is_active(),
            match r {
                Ok(h) => {
                    &&& h.spec_idx() == raw
                    &&& final(self).spec_state() == old(self).spec_state()
                    &&& final(self).spec_ibs() == (if raw == INVALID_HANDLE_IDX {
                        old(self).spec_ibs()
                    } else {
                        old(self).spec_ibs().update(raw as int, true)
                    })
                    &&& final(self).spec_vbs() == old(self).spec_vbs()
                    &&& final(self).spec_progs() == old(self).spec_progs()
                    &&& same_views(*final(self), *old(self))
                    &&& same_frame(*final(self), *old(self))
                    &&& same_config(*final(self), *old(self))
                },
                Err(e) => e == UsageError::NotInitialized && same_session(
                    *final(self),
                    *old(self),
                ),
            },
    {
        if !self.is_initialized() {
            return Err(UsageError::NotInitialized);
        }
        if raw != INVALID_HANDLE_IDX {
            self.ib_live[raw as usize] = true;
        }
        Ok(IndexBufferHandle::from_raw(raw))
    }

    /// Records the identifier a program load returned; the
    /// failed-creation sentinel passes through unregistered.
    pub fn register_program(&mut self, raw: u16) -> (r: Result<ProgramHandle, UsageError>)
        requires
            old(self).wf(),
        ensures
            final(self).wf(),
            r is Ok <==> old(self).spec_is_active(),
            match r {
                Ok(h) => {
                    &&& h.spec_idx() == raw
                    &&& final(self).spec_state() == old(self).spec_state()
                    &&& final(self).spec_progs() == (if raw == INVALID_HANDLE_IDX {
                        old(self).spec_progs()
                    } else {
                        old(self).spec_progs().update(raw as int, true)
                    })
                    &&& final(self).spec_vbs() == old(self).spec_vbs()
                    &&& final(self).spec_ibs() == old(self).spec_ibs()
                    &&& same_views(*final(self), *old(self))
                    &&& same_frame(*final(self), *old(self))
                    &&& same_config(*final(self), *old(self))
                },
                Err(e) => e == UsageError::NotInitialized && same_session(
                    *final(self),
                    *old(self),
                ),
            },
    {
        if !self.is_initialized() {
            return Err(UsageError::NotInitialized);
        }
        if raw != INVALID_HANDLE_IDX {
            self.prog_live[raw as usize] = true;
        }
        Ok(ProgramHandle::from_raw(raw))
    }

    /// Whether a vertex-buffer handle may be bound in this session.
    pub fn vertex_buffer_live(&self, h: &VertexBufferHandle) -> (r: bool)
        requires
            self.wf(),
        ensures
            r == (h.spec_is_valid() && self.spec_vb_live(h.spec_idx())),
    {
        h.is_valid() && self.vb_live[h.raw() as usize]
    }

    /// Whether an index-buffer handle may be bound in this session.
    pub fn index_buffer_live(&self, h: &IndexBufferHandle) -> (r: bool)
        requires
            self.wf(),
        ensures
            r == (h.spec_is_valid() && self.spec_ib_live(h.spec_idx())),
    {
        h.is_valid() && self.ib_live[h.raw() as usize]
    }

    /// Whether a program handle may be submitted with in this session.
    pub fn program_live(&self, h: &ProgramHandle) -> (r: bool)
        requires
            self.wf(),
        ensures
            r == (h.spec_is_valid() && self.spec_prog_live(h.spec_idx())),
    {
        h.is_valid() && self.prog_live[h.raw() as usize]
    }

    /// Sets the viewport of one render view for the coming submissions.
    pub fn set_view_rect(&mut self, view: u8, x: u16, y: u16, width: u16, height: u16) -> (r:
        Result<(), UsageError>)
        requires
            old(self).wf(),
        ensures
            final(self).wf(),
            r is Ok <==> old(self).spec_is_active(),
            match r {
                Ok(()) => {
                    &&& final(self).spec_state() is Configuring
                    &&& final(self).spec_rects() == old(self).spec_rects().update(
                        view as int,
                        Some(ViewRect { x, y, width, height }),
                    )
                    &&& same_registries(*final(self), *old(self))
                    &&& same_frame(*final(self), *old(self))
                    &&& same_config(*final(self), *old(self))
                },
                Err(e) => e == UsageError::NotInitialized && same_session(
                    *final(self),
                    *old(self),
                ),
            },
    {
        if !self.is_initialized() {
            return Err(UsageError::NotInitialized);
        }
        self.rects[view as usize] = Some(ViewRect { x, y, width, height });
        self.state = SessionState::Configuring;
        Ok(())
    }

    /// Marks a view as rendered this frame even if no draw targets it,
    /// so its framebuffer is cleared to a defined state.
    pub fn touch(&mut self, view: u8) -> (r: Result<(), UsageError>)
        requires
            old(self).wf(),
        ensures
            final(self).wf(),
            r is Ok <==> old(self).spec_is_active(),
            match r {
                Ok(()) => {
                    &&& final(self).spec_state() is Configuring
                    &&& final(self).spec_touched() == old(self).spec_touched().update(
                        view as int,
                        true,
                    )
                    &&& final(self).spec_draws() == old(self).spec_draws()
                    &&& same_pending(*final(self), *old(self))
                    &&& same_registries(*final(self), *old(self))
                    &&& same_views(*final(self), *old(self))
                    &&& same_config(*final(self), *old(self))
                },
                Err(e) => e == UsageError::NotInitialized && same_session(
                    *final(self),
                    *old(self),
                ),
            },
    {
        if !self.is_initialized() {
            return Err(UsageError::NotInitialized);
        }
        self.touched[view as usize] = true;
        self.state = SessionState::Configuring;
        Ok(())
    }

    /// Binds a vertex buffer to a stream slot for the next submit.  A
    /// handle that is the failed-creation sentinel, or is not live in
    /// this session, is rejected before it can reach the backend.
    pub fn set_vertex_buffer(&mut self, stream: u8, handle: &VertexBufferHandle) -> (r: Result<
        (),
        UsageError,
    >)
        requires
            old(self).wf(),
        ensures
            final(self).wf(),
            r is Ok <==> old(self).spec_is_active() && handle.spec_is_valid() && old(
                self,
            ).spec_vb_live(handle.spec_idx()),
            match r {
                Ok(()) => {
                    &&& final(self).spec_state() is Configuring
                    &&& final(self).spec_pending_vb() == handle.spec_idx()
                    &&& final(self).spec_pending_stream() == stream
                    &&& final(self).spec_pending_ib() == old(self).spec_pending_ib()
                    &&& final(self).spec_pending_flags() == old(self).spec_pending_flags()
                    &&& final(self).spec_draws() == old(self).spec_draws()
                    &&& same_touched(*final(self), *old(self))
                    &&& same_registries(*final(self), *old(self))
                    &&& same_views(*final(self), *old(self))
                    &&& same_config(*final(self), *old(self))
                },
                Err(e) => {
                    &&& same_session(*final(self), *old(self))
                    &&& (e == UsageError::NotInitialized <==> !old(self).spec_is_active())
                    &&& (e == UsageError::InvalidHandle <==> old(self).spec_is_active() && !(
                    handle.spec_is_valid() && old(self).spec_vb_live(handle.spec_idx())))
                },
            },
    {
        if !self.is_initialized() {
            return Err(UsageError::NotInitialized);
        }
        if !self.vertex_buffer_live(handle) {
            return Err(UsageError::InvalidHandle);
        }
        self.pending_vb = handle.raw();
        self.pending_stream = stream;
        self.state = SessionState::Configuring;
        Ok(())
    }

    /// Binds an index buffer for the next submit, with the same
    /// validity check as `set_vertex_buffer`.
    pub fn set_index_buffer(&mut self, handle: &IndexBufferHandle) -> (r: Result<(), UsageError>)
        requires
            old(self).wf(),
        ensures
            final(self).wf(),
            r is Ok <==> old(self).spec_is_active() && handle.spec_is_valid() && old(
                self,
            ).spec_ib_live(handle.spec_idx()),
            match r {
                Ok(()) => {
                    &&& final(self).spec_state() is Configuring
                    &&& final(self).spec_pending_ib() == handle.spec_idx()
                    &&& final(self).spec_pending_vb() == old(self).spec_pending_vb()
                    &&& final(self).spec_pending_stream() == old(self).spec_pending_stream()
                    &&& final(self).spec_pending_flags() == old(self).spec_pending_flags()
                    &&& final(self).spec_draws() == old(self).spec_draws()
                    &&& same_touched(*final(self), *old(self))
                    &&& same_registries(*final(self), *old(self))
                    &&& same_views(*final(self), *old(self))
                    &&& same_config(*final(self), *old(self))
                },
                Err(e) => {
                    &&& same_session(*final(self), *old(self))
                    &&& (e == UsageError::NotInitialized <==> !old(self).spec_is_active())
                    &&& (e == UsageError::InvalidHandle <==> old(self).spec_is_active() && !(
                    handle.spec_is_valid() && old(self).spec_ib_live(handle.spec_idx())))
                },
            },
    {
        if !self.is_initialized() {
            return Err(UsageError::NotInitialized);
        }
        if !self.index_buffer_live(handle) {
            return Err(UsageError::InvalidHandle);
        }
        self.pending_ib = handle.raw();
        self.state = SessionState::Configuring;
        Ok(())
    }

    /// Sets the render-state bitmask for the next submit.
    pub fn set_state(&mut self, flags: u64) -> (r: Result<(), UsageError>)
        requires
            old(self).wf(),
        ensures
            final(self).wf(),
            r is Ok <==> old(self).spec_is_active(),
            match r {
                Ok(()) => {
                    &&& final(self).spec_state() is Configuring
                    &&& final(self).spec_pending_flags() == flags
                    &&& final(self).spec_pending_vb() == old(self).spec_pending_vb()
                    &&& final(self).spec_pending_stream() == old(self).spec_pending_stream()
                    &&& final(self).spec_pending_ib() == old(self).spec_pending_ib()
                    &&& final(self).spec_draws() == old(self).spec_draws()
                    &&& same_touched(*final(self), *old(self))
                    &&& same_registries(*final(self), *old(self))
                    &&& same_views(*final(self), *old(self))
                    &&& same_config(*final(self), *old(self))
                },
                Err(e) => e == UsageError::NotInitialized && same_session(
                    *final(self),
                    *old(self),
                ),
            },
    {
        if !self.is_initialized() {
            return Err(UsageError::NotInitialized);
        }
        self.pending_flags = flags;
        self.state = SessionState::Configuring;
        Ok(())
    }

    /// Enqueues one draw against a view with the given program: the
    /// draw captures the pending bindings and render state, joins the
    /// frame's submission in issue order, touches the view, and resets
    /// the pending bindings for the next draw.  An invalid or dead
    /// program handle is rejected.
    pub fn submit(&mut self, view: u8, program: &ProgramHandle) -> (r: Result<(), UsageError>)
        requires
            old(self).wf(),
        ensures
            final(self).wf(),
            r is Ok <==> old(self).spec_is_active() && program.spec_is_valid() && old(
                self,
            ).spec_prog_live(program.spec_idx()),
            match r {
                Ok(()) => {
                    &&& final(self).spec_state() is Configuring
                    &&& final(self).spec_draws() == old(self).spec_draws().push(
                        DrawCall {
                            view,
                            program: program.spec_idx(),
                            vertex_buffer: old(self).spec_pending_vb(),
                            vertex_stream: old(self).spec_pending_stream(),
                            index_buffer: old(self).spec_pending_ib(),
                            state_flags: old(self).spec_pending_flags(),
                        },
                    )
                    &&& final(self).spec_touched() == old(self).spec_touched().update(
                        view as int,
                        true,
                    )
                    &&& final(self).spec_pending_vb() == INVALID_HANDLE_IDX
                    &&& final(self).spec_pending_ib() == INVALID_HANDLE_IDX
                    &&& final(self).spec_pending_stream() == 0
                    &&& final(self).spec_pending_flags() == 0
                    &&& same_registries(*final(self), *old(self))
                    &&& same_views(*final(self), *old(self))
                    &&& same_config(*final(self), *old(self))
                },
                Err(e) => {
                    &&& same_session(*final(self), *old(self))
                    &&& (e == UsageError::NotInitialized <==> !old(self).spec_is_active())
                    &&& (e == UsageError::InvalidHandle <==> old(self).spec_is_active() && !(
                    program.spec_is_valid() && old(self).spec_prog_live(program.spec_idx())))
                },
            },
    {
        if !self.is_initialized() {
            return Err(UsageError::NotInitialized);
        }
        if !self.program_live(program) {
            return Err(UsageError::InvalidHandle);
        }
        let call = DrawCall {
            view,
            program: program.raw(),
            vertex_buffer: self.pending_vb,
            vertex_stream: self.pending_stream,
            index_buffer: self.pending_ib,
            state_flags: self.pending_flags,
        };
        self.draws.push(call);
        self.touched[view as usize] = true;
        self.pending_vb = INVALID_HANDLE_IDX;
        self.pending_stream = 0;
        self.pending_ib = INVALID_HANDLE_IDX;
        self.pending_flags = 0;
        self.state = SessionState::Configuring;
        Ok(())
    }

    /// Seals the current frame: every draw enqueued since the last
    /// advance is handed over as this frame's submission, in the order
    /// it was issued, and the session returns to `Ready` with a clean
    /// frame.  The backend executes the submission asynchronously; this
    /// call only paces it.
    pub fn frame(&mut self) -> (r: Result<Vec<DrawCall>, UsageError>)
        requires
            old(self).wf(),
        ensures
            final(self).wf(),
            r is Ok <==> old(self).spec_is_active(),
            match r {
                Ok(draws) => {
                    &&& draws@ == old(self).spec_draws()
                    &&& final(self).spec_state() is Ready
                    &&& final(self).frame_clear()
                    &&& final(self).spec_frames() == (if old(self).spec_frames() < u64::MAX {
                        old(self).spec_frames() + 1
                    } else {
                        old(self).spec_frames() as int
                    })
                    &&& same_registries(*final(self), *old(self))
                    &&& same_views(*final(self), *old(self))
                    &&& final(self).spec_width() == old(self).spec_width()
                    &&& final(self).spec_height() == old(self).spec_height()
                },
                Err(e) => e == UsageError::NotInitialized && same_session(
                    *final(self),
                    *old(self),
                ),
            },
    {
        if !self.is_initialized() {
            return Err(UsageError::NotInitialized);
        }
        let mut out: Vec<DrawCall> = Vec::new();
        core::mem::swap(&mut out, &mut self.draws);
        self.touched = falses(VIEW_SPACE);
        self.pending_vb = INVALID_HANDLE_IDX;
        self.pending_stream = 0;
        self.pending_ib = INVALID_HANDLE_IDX;
        self.pending_flags = 0;
        self.state = SessionState::Ready;
        if self.frames_completed < u64::MAX {
            self.frames_completed = self.frames_completed + 1;
        }
        Ok(out)
    }
}

/// The two sessions agree on every resource registry.
pub open spec fn same_registries(a: Session, b: Session) -> bool {
    &&& a.spec_vbs() == b.spec_vbs()
    &&& a.spec_ibs() == b.spec_ibs()
    &&& a.spec_progs() == b.spec_progs()
}

/// The two sessions agree on every view's viewport.
pub open spec fn same_views(a: Session, b: Session) -> bool {
    a.spec_rects() == b.spec_rects()
}

/// The two sessions agree on which views are touched this frame.
pub open spec fn same_touched(a: Session, b: Session) -> bool {
    a.spec_touched() == b.spec_touched()
}

/// The two sessions agree on the pending bindings and render state.
pub open spec fn same_pending(a: Session, b: Session) -> bool {
    &&& a.spec_pending_vb() == b.spec_pending_vb()
    &&& a.spec_pending_stream() == b.spec_pending_stream()
    &&& a.spec_pending_ib() == b.spec_pending_ib()
    &&& a.spec_pending_flags() == b.spec_pending_flags()
}

/// The two sessions agree on the whole current frame.
pub open spec fn same_frame(a: Session, b: Session) -> bool {
    &&& a.spec_draws() == b.spec_draws()
    &&& same_touched(a, b)
    &&& same_pending(a, b)
}

/// The two sessions agree on dimensions and frame count.
pub open spec fn same_config(a: Session, b: Session) -> bool {
    &&& a.spec_width() == b.spec_width()
    &&& a.spec_height() == b.spec_height()
    &&& a.spec_frames() == b.spec_frames()
}

/// The two sessions agree on everything observable.
pub open spec fn same_session(a: Session, b: Session) -> bool {
    &&& a.spec_state() == b.spec_state()
    &&& same_registries(a, b)
    &&& same_views(a, b)
    &&& same_frame(a, b)
    &&& same_config(a, b)
}

/// A vector of `n` false flags.
fn falses(n: usize) -> (r: Vec<bool>)
    ensures
        r@.len() == n,
        forall|i: int| 0 <= i < n ==> !r@[i],
{
    let mut v: Vec<bool> = Vec::new();
    let mut k: usize = 0;
    while k < n
        invariant
            v@.len() == k,
            0 <= k <= n,
            forall|i: int| 0 <= i < k ==> !v@[i],
        decreases n - k,
    {
        v.push(false);
        k = k + 1;
    }
    v
}

/// A vector of `n` unset viewports.
fn none_rects(n: usize) -> (r: Vec<Option<ViewRect>>)
    ensures
        r@.len() == n,
        forall|i: int| 0 <= i < n ==> r@[i] is None,
{
    let mut v: Vec<Option<ViewRect>> = Vec::new();
    let mut k: usize = 0;
    while k < n
        invariant
            v@.len() == k,
            0 <= k <= n,
            forall|i: int| 0 <= i < k ==> v@[i] is None,
        decreases n - k,
    {
        v.push(None);
        k = k + 1;
    }
    v
}

} // verus!
