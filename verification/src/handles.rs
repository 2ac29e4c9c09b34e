//! Typed handles for GPU-resident resources.
//!
//! The native backend hands out small integer identifiers; the identifier
//! space is per resource kind and managed entirely by the backend.  The
//! binding wraps each kind in a distinct nominal type so a vertex-buffer
//! identifier can never be passed where an index-buffer or program
//! identifier is expected, and reserves one sentinel value to mark the
//! result of a failed creation call.  Consumers must treat the sentinel as
//! a precondition violation and fail fast rather than silently drawing
//! nothing.

use vstd::prelude::*;

verus! {

/// The identifier value the native backend returns when a creation call
/// fails.  No live resource ever carries this identifier.
pub const INVALID_HANDLE_IDX: u16 = 0xffff;

/// Opaque reference to a GPU-resident vertex buffer.
#[derive(Clone, Copy, Debug, PartialEq, Eq, Structural)]
pub struct VertexBufferHandle {
    idx: u16,
}

/// Opaque reference to a GPU-resident index buffer.
#[derive(Clone, Copy, Debug, PartialEq, Eq, Structural)]
pub struct IndexBufferHandle {
    idx: u16,
}

/// Opaque reference to a compiled shader program pair.
#[derive(Clone, Copy, Debug, PartialEq, Eq, Structural)]
pub struct ProgramHandle {
    idx: u16,
}

impl VertexBufferHandle {
    pub closed spec fn spec_idx(&self) -> u16 {
        self.idx
    }

    pub open spec fn spec_is_valid(&self) -> bool {
        self.spec_idx() != INVALID_HANDLE_IDX
    }

    /// Wraps a raw identifier received from the native backend.
    pub fn from_raw(idx: u16) -> (r: VertexBufferHandle)
        ensures
            r.spec_idx() == idx,
    {
        VertexBufferHandle { idx }
    }

    /// The sentinel handle a failed creation call surfaces.
    pub fn invalid() -> (r: VertexBufferHandle)
        ensures
            !r.spec_is_valid(),
    {
        VertexBufferHandle { idx: INVALID_HANDLE_IDX }
    }

    pub fn raw(&self) -> (r: u16)
        ensures
            r == self.spec_idx(),
    {
        self.idx
    }

    /// True unless this handle is the failed-creation sentinel.
    pub fn is_valid(&self) -> (r: bool)
        ensures
            r == self.spec_is_valid(),
    {
        self.idx != INVALID_HANDLE_IDX
    }
}

impl IndexBufferHandle {
    pub closed spec fn spec_idx(&self) -> u16 {
        self.idx
    }

    pub open spec fn spec_is_valid(&self) -> bool {
        self.spec_idx() != INVALID_HANDLE_IDX
    }

    /// Wraps a raw identifier received from the native backend.
    pub fn from_raw(idx: u16) -> (r: IndexBufferHandle)
        ensures
            r.spec_idx() == idx,
    {
        IndexBufferHandle { idx }
    }

    /// The sentinel handle a failed creation call surfaces.
    pub fn invalid() -> (r: IndexBufferHandle)
        ensures
            !r.spec_is_valid(),
    {
        IndexBufferHandle { idx: INVALID_HANDLE_IDX }
    }

    pub fn raw(&self) -> (r: u16)
        ensures
            r == self.spec_idx(),
    {
        self.idx
    }

    /// True unless this handle is the failed-creation sentinel.
    pub fn is_valid(&self) -> (r: bool)
        ensures
            r == self.spec_is_valid(),
    {
        self.idx != INVALID_HANDLE_IDX
    }
}

impl ProgramHandle {
    pub closed spec fn spec_idx(&self) -> u16 {
        self.idx
    }

    pub open spec fn spec_is_valid(&self) -> bool {
        self.spec_idx() != INVALID_HANDLE_IDX
    }

    /// Wraps a raw identifier received from the native backend.
    pub fn from_raw(idx: u16) -> (r: ProgramHandle)
        ensures
            r.spec_idx() == idx,
    {
        ProgramHandle { idx }
    }

    /// The sentinel handle a failed creation call surfaces.
    pub fn invalid() -> (r: ProgramHandle)
        ensures
            !r.spec_is_valid(),
    {
        ProgramHandle { idx: INVALID_HANDLE_IDX }
    }

    pub fn raw(&self) -> (r: u16)
        ensures
            r == self.spec_idx(),
    {
        self.idx
    }

    /// True unless this handle is the failed-creation sentinel.
    pub fn is_valid(&self) -> (r: bool)
        ensures
            r == self.spec_is_valid(),
    {
        self.idx != INVALID_HANDLE_IDX
    }
}

} // verus!
