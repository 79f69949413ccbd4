//! A context and its two states.

use vstd::prelude::*;
use crate::command::{Command, CommandQueue};
use crate::error::GlxError;
use crate::frame::{
    draw_frame, frame_segments, renders, run_state, total_viewport, Line, Segment, SurfaceSize,
};
use crate::geometry::{Matrix4, Point3};
use crate::scalar::Scalar;
use crate::transform::{total_transform, TransformState};

verus! {

/// A handle to an output target. Two surfaces are the same if their handles
/// are.
#[derive(Clone, Copy, Debug, PartialEq, Eq, Structural)]
pub struct Surface {
    pub id: u64,
}

/// A context: either bound to no surface, or bound to a read and a draw
/// surface and recording commands.
#[derive(Debug)]
pub enum ContextState {
    Inactive(TransformState),
    Current { read: Surface, draw: Surface, transform: TransformState, queue: CommandQueue },
}

/// What a context is, with its queue as a sequence.
pub enum ContextModel {
    Inactive(TransformState),
    Current { read: Surface, draw: Surface, transform: TransformState, queue: Seq<Command> },
}

impl ContextModel {
    /// A context as it is created: inactive, both matrices the identity.
    pub open spec fn fresh() -> ContextModel {
        ContextModel::Inactive(TransformState::initial())
    }

    /// The transform state, which a context has in both states.
    pub open spec fn transform(self) -> TransformState {
        match self {
            ContextModel::Inactive(t) => t,
            ContextModel::Current { transform, .. } => transform,
        }
    }

    /// The queued commands; none while inactive.
    pub open spec fn pending(self) -> Seq<Command> {
        match self {
            ContextModel::Inactive(_) => Seq::empty(),
            ContextModel::Current { queue, .. } => queue,
        }
    }

    /// The context bound to `read` and `draw`, with its transform state and
    /// nothing queued.
    pub open spec fn bound(self, read: Surface, draw: Surface) -> ContextModel {
        ContextModel::Current { read, draw, transform: self.transform(), queue: Seq::empty() }
    }

    /// The context bound to nothing, with its transform state.
    pub open spec fn released(self) -> ContextModel {
        ContextModel::Inactive(self.transform())
    }

    /// The context with `cmd` queued behind what it holds.
    pub open spec fn recorded(self, cmd: Command) -> ContextModel {
        match self {
            ContextModel::Inactive(_) => self,
            ContextModel::Current { read, draw, transform, queue } => ContextModel::Current {
                read,
                draw,
                transform,
                queue: queue.push(cmd),
            },
        }
    }

    /// Why a frame of this context cannot be finalized against `surface`, if
    /// it cannot: the context is inactive, or one of its two surfaces is
    /// another one.
    pub open spec fn finalize_error(self, surface: Surface) -> Option<GlxError> {
        match self {
            ContextModel::Inactive(_) => Some(GlxError::NotCurrent),
            ContextModel::Current { read, draw, .. } => if read == surface && draw == surface {
                None
            } else {
                Some(GlxError::SurfaceMismatch)
            },
        }
    }

    /// The context after a frame: the queue is empty, and the transform state
    /// is the one that the queued commands have left.
    pub open spec fn finalized(self) -> ContextModel {
        match self {
            ContextModel::Inactive(_) => self,
            ContextModel::Current { read, draw, transform, queue } => ContextModel::Current {
                read,
                draw,
                transform: run_state(transform, queue),
                queue: Seq::empty(),
            },
        }
    }

    /// The segments of the frame that is queued.
    pub open spec fn frame_plan(self) -> Seq<Segment> {
        frame_segments(self.transform(), self.pending())
    }

    /// Whether the context is bound to exactly `read` and `draw`.
    pub open spec fn is_bound_to(self, read: Surface, draw: Surface) -> bool {
        match self {
            ContextModel::Inactive(_) => false,
            ContextModel::Current { read: r, draw: d, .. } => r == read && d == draw,
        }
    }
}

impl View for ContextState {
    type V = ContextModel;

    open spec fn view(&self) -> ContextModel {
        match *self {
            ContextState::Inactive(t) => ContextModel::Inactive(t),
            ContextState::Current { read, draw, transform, queue } => ContextModel::Current {
                read,
                draw,
                transform,
                queue: queue@,
            },
        }
    }
}

impl ContextState {
    /// A new context: inactive, both matrices the identity.
    pub fn new() -> (c: ContextState)
        ensures
            c@ == ContextModel::fresh(),
    {
        ContextState::Inactive(TransformState::new())
    }

    /// Whether the context is bound to surfaces.
    pub fn is_current(&self) -> (b: bool)
        ensures
            b == (self@ is Current),
    {
        match self {
            ContextState::Inactive(_) => false,
            ContextState::Current { .. } => true,
        }
    }

    /// The transform state.
    pub fn transform(&self) -> (t: TransformState)
        ensures
            t == self@.transform(),
    {
        match self {
            ContextState::Inactive(t) => *t,
            ContextState::Current { transform, .. } => *transform,
        }
    }

    /// The number of queued commands.
    pub fn pending(&self) -> (n: usize)
        ensures
            n == self@.pending().len(),
    {
        match self {
            ContextState::Inactive(_) => 0,
            ContextState::Current { queue, .. } => queue.len(),
        }
    }

    /// The read and draw surfaces, while bound.
    pub fn surfaces(&self) -> (s: Option<(Surface, Surface)>)
        ensures
            match self@ {
                ContextModel::Inactive(_) => s is None,
                ContextModel::Current { read, draw, .. } => s == Some((read, draw)),
            },
    {
        match self {
            ContextState::Inactive(_) => None,
            ContextState::Current { read, draw, .. } => Some((*read, *draw)),
        }
    }

    /// Binds an inactive context to `read` and `draw`; it keeps its transform
    /// state and starts with an empty queue. A context that is current is
    /// refused with `AlreadyBound`.
    pub fn bind(&mut self, read: Surface, draw: Surface) -> (r: Result<(), GlxError>)
        ensures
            match r {
                Ok(_) => old(self)@ is Inactive && final(self)@ == old(self)@.bound(read, draw),
                Err(e) => old(self)@ is Current && e == GlxError::AlreadyBound && final(self)@
                    == old(self)@,
            },
    {
        match self {
            ContextState::Inactive(t) => {
                let transform = *t;
                *self = ContextState::Current { read, draw, transform, queue: CommandQueue::new() };
                Ok(())
            },
            ContextState::Current { .. } => Err(GlxError::AlreadyBound),
        }
    }

    /// Releases a current context from its surfaces; it keeps its transform
    /// state. Refused with `DirtyQueue` while commands are queued, and with
    /// `NotCurrent` if the context is inactive.
    pub fn release(&mut self) -> (r: Result<(), GlxError>)
        ensures
            match r {
                Ok(_) => old(self)@ is Current && old(self)@.pending().len() == 0 && final(self)@
                    == old(self)@.released(),
                Err(e) => final(self)@ == old(self)@ && e == (if old(self)@ is Current {
                    GlxError::DirtyQueue
                } else {
                    GlxError::NotCurrent
                }) && (old(self)@ is Current ==> old(self)@.pending().len() > 0),
            },
    {
        match self {
            ContextState::Inactive(_) => Err(GlxError::NotCurrent),
            ContextState::Current { transform, queue, .. } => {
                if queue.is_empty() {
                    let t = *transform;
                    *self = ContextState::Inactive(t);
                    Ok(())
                } else {
                    Err(GlxError::DirtyQueue)
                }
            },
        }
    }

    /// Queues `cmd` behind what a current context holds. An inactive context
    /// refuses it with `NotCurrent`.
    pub fn submit(&mut self, cmd: Command) -> (r: Result<(), GlxError>)
        ensures
            match r {
                Ok(_) => old(self)@ is Current && final(self)@ == old(self)@.recorded(cmd),
                Err(e) => old(self)@ is Inactive && e == GlxError::NotCurrent && final(self)@
                    == old(self)@,
            },
    {
        match self {
            ContextState::Inactive(_) => Err(GlxError::NotCurrent),
            ContextState::Current { queue, .. } => {
                queue.push(cmd);
                Ok(())
            },
        }
    }

    /// Finalizes the frame of a current context against `surface`: takes the
    /// whole queue, interprets it in order from the context's transform state,
    /// and returns the lines to draw on a surface of `size`. The transform
    /// state that the commands leave stays with the context.
    ///
    /// An inactive context is refused with `NotCurrent`, a surface other than
    /// the two that the context is bound to with `SurfaceMismatch`; the queue
    /// is then untouched.
    pub fn finalize<X: Fn(&Matrix4, Point3) -> Point3, P: Fn(Scalar, u32) -> i32>(
        &mut self,
        surface: Surface,
        size: SurfaceSize,
        xf: &X,
        vp: &P,
    ) -> (r: Result<Vec<Line>, GlxError>)
        requires
            total_transform(xf),
            total_viewport(vp),
        ensures
            match r {
                Ok(lines) => {
                    &&& old(self)@.finalize_error(surface) is None
                    &&& final(self)@ == old(self)@.finalized()
                    &&& renders(xf, vp, size, old(self)@.frame_plan(), lines@)
                },
                Err(e) => {
                    &&& old(self)@.finalize_error(surface) == Some(e)
                    &&& final(self)@ == old(self)@
                },
            },
    {
        match self {
            ContextState::Inactive(_) => Err(GlxError::NotCurrent),
            ContextState::Current { read, draw, transform, queue } => {
                if *read == surface && *draw == surface {
                    let cmds = queue.drain();
                    let lines = draw_frame(transform, &cmds, size, xf, vp);
                    Ok(lines)
                } else {
                    Err(GlxError::SurfaceMismatch)
                }
            },
        }
    }
}

} // verus!
