//! The failures that the library reports.

use vstd::prelude::*;

verus! {

/// Why a call was refused. A refused call changes nothing.
#[derive(Clone, Copy, Debug, PartialEq, Eq, Structural)]
pub enum GlxError {
    /// The context is current already, on another thread or on other
    /// surfaces.
    AlreadyBound,
    /// There is no current context to work on.
    NotCurrent,
    /// The context would leave its surfaces while commands are still queued.
    DirtyQueue,
    /// The frame is finalized against a surface the context is not bound to.
    SurfaceMismatch,
    /// Context sharing, or an attribute outside the supported set.
    UnsupportedCapability,
    /// The handle names no context of this registry.
    UnknownContext,
}

} // verus!
