//! The transform state and the interpreter that applies commands to it.

use vstd::prelude::*;
use crate::command::{Command, MatrixSlot};
use crate::geometry::{Matrix4, Point3};

verus! {

/// The modelview and projection matrices in effect.
#[derive(Clone, Copy, Debug, PartialEq, Eq)]
pub struct TransformState {
    pub modelview: Matrix4,
    pub projection: Matrix4,
}

/// A vertex together with the matrices that were in effect when it was
/// submitted. Its clip-space point is the vertex taken through `modelview`
/// first and through `projection` second.
pub struct ClipVertex {
    pub modelview: Matrix4,
    pub projection: Matrix4,
    pub vertex: Point3,
}

/// The state after `cmd`: a matrix command replaces the matrix it names, every
/// other command leaves the state as it is.
pub open spec fn step_state(state: TransformState, cmd: Command) -> TransformState {
    match cmd {
        Command::SetMatrix(MatrixSlot::Modelview, m) => TransformState {
            modelview: m,
            projection: state.projection,
        },
        Command::SetMatrix(MatrixSlot::Projection, m) => TransformState {
            modelview: state.modelview,
            projection: m,
        },
        _ => state,
    }
}

/// What `cmd` emits under `state`: a vertex command emits its vertex with the
/// matrices of `state`, every other command emits nothing.
pub open spec fn emission(state: TransformState, cmd: Command) -> Option<ClipVertex> {
    match cmd {
        Command::SetVertex(v) => Some(
            ClipVertex { modelview: state.modelview, projection: state.projection, vertex: v },
        ),
        _ => None,
    }
}

/// `p` is a clip-space point of `cv` under the transform `xf`: some `eye` is a
/// result of `xf` on the modelview matrix and the vertex, and `p` is a result
/// of `xf` on the projection matrix and `eye`.
pub open spec fn clip_point<X: Fn(&Matrix4, Point3) -> Point3>(
    xf: &X,
    cv: ClipVertex,
    p: Point3,
) -> bool {
    exists|eye: Point3|
        #![trigger xf.ensures((&cv.projection, eye), p)]
        xf.ensures((&cv.modelview, cv.vertex), eye) && xf.ensures((&cv.projection, eye), p)
}

/// `xf` may be called on every matrix and point.
pub open spec fn total_transform<X: Fn(&Matrix4, Point3) -> Point3>(xf: &X) -> bool {
    forall|m: &Matrix4, p: Point3| #[trigger] xf.requires((m, p))
}

impl TransformState {
    /// The state in which a context starts: both matrices are the identity.
    pub open spec fn initial() -> TransformState {
        TransformState {
            modelview: Matrix4::identity_spec(),
            projection: Matrix4::identity_spec(),
        }
    }

    /// The state in which a context starts.
    pub fn new() -> (s: TransformState)
        ensures
            s == TransformState::initial(),
    {
        TransformState { modelview: Matrix4::identity(), projection: Matrix4::identity() }
    }

    /// Applies one command. A vertex command leaves the state alone and
    /// returns the vertex taken through the modelview matrix and then through
    /// the projection matrix by `xf`. A matrix command replaces the matrix it
    /// names and returns nothing. Any other command does nothing.
    pub fn apply<X: Fn(&Matrix4, Point3) -> Point3>(&mut self, cmd: Command, xf: &X) -> (out: Option<
        Point3,
    >)
        requires
            total_transform(xf),
        ensures
            *final(self) == step_state(*old(self), cmd),
            match emission(*old(self), cmd) {
                Some(cv) => out is Some && clip_point(xf, cv, out->0),
                None => out is None,
            },
    {
        match cmd {
            Command::SetVertex(v) => {
                let eye = xf(&self.modelview, v);
                let clip = xf(&self.projection, eye);
                proof {
                    let cv = emission(*old(self), cmd)->0;
                    assert(xf.ensures((&cv.modelview, cv.vertex), eye));
                    assert(xf.ensures((&cv.projection, eye), clip));
                }
                Some(clip)
            },
            Command::SetMatrix(MatrixSlot::Modelview, m) => {
                self.modelview = m;
                None
            },
            Command::SetMatrix(MatrixSlot::Projection, m) => {
                self.projection = m;
                None
            },
            Command::Other(_) => None,
        }
    }
}

} // verus!
