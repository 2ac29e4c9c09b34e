//! A verified binding layer for an opaque native 3D rendering backend.
//!
//! The native backend owns every GPU resource and does all of the actual
//! rendering; this crate models the thin layer that sits in front of it:
//! typed resource handles, a vertex-layout builder with exact stride and
//! offset arithmetic, validation of uploads and of strings that cross the
//! foreign boundary, and a per-frame submission state machine.  Everything
//! that crosses into the native backend is checked here first, so that a
//! usage error is rejected loudly instead of turning into a silent visual
//! corruption on the other side of the boundary.

use vstd::prelude::*;

pub mod handles;
pub mod input;
pub mod layout;
pub mod session;
pub mod upload;

verus! {

/// A programmer error caught by the binding layer before it can reach the
/// native backend.  These are not runtime conditions to retry: each one
/// marks a call that the caller was never allowed to make.
#[derive(Clone, Copy, Debug, PartialEq, Eq, Structural)]
pub enum UsageError {
    /// A session call was made before `init` (or after `shutdown`).
    NotInitialized,
    /// `init` was called while the session was already initialized.
    AlreadyInitialized,
    /// `add` or `end` was called on a layout that was already finalized.
    LayoutFinalized,
    /// A layout was used in an upload before `end` finalized it.
    LayoutNotFinalized,
    /// A finalized layout with no attributes (stride zero) was used in an upload.
    EmptyLayout,
    /// An attribute was added with a component count outside `1..=4`.
    InvalidComponentCount,
    /// An attribute was added with the reserved `Count` marker variant.
    InvalidAttribute,
    /// More attributes were added than one vertex record can hold.
    TooManyAttributes,
    /// A vertex buffer's byte length is not a multiple of the layout stride.
    LengthNotMultipleOfStride,
    /// A handle that is invalid or no longer live was passed to bind/submit.
    InvalidHandle,
    /// A string bound for the native boundary contains an embedded NUL.
    EmbeddedTerminator,
}

} // verus!
