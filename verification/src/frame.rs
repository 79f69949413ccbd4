//! Turning the commands of one frame into lines on a surface.

use vstd::prelude::*;
use crate::command::Command;
use crate::geometry::{Matrix4, Point3};
use crate::scalar::Scalar;
use crate::transform::{
    clip_point, emission, step_state, total_transform, ClipVertex, TransformState,
};

verus! {

/// The extent of a surface in pixels.
#[derive(Clone, Copy, Debug, PartialEq, Eq, Structural)]
pub struct SurfaceSize {
    pub width: u32,
    pub height: u32,
}

/// A position on a surface: `x` counts columns from the left edge, `y` counts
/// rows from the top edge.
#[derive(Clone, Copy, Debug, PartialEq, Eq, Structural)]
pub struct Pixel {
    pub x: i32,
    pub y: i32,
}

/// A line to draw, from one pixel to another.
#[derive(Clone, Copy, Debug, PartialEq, Eq, Structural)]
pub struct Line {
    pub from: Pixel,
    pub to: Pixel,
}

/// Two vertices submitted one directly after the other.
pub struct Segment {
    pub from: ClipVertex,
    pub to: ClipVertex,
}

/// The state after all of `cmds`, applied in order from `state`.
pub open spec fn run_state(state: TransformState, cmds: Seq<Command>) -> TransformState
    decreases cmds.len(),
{
    if cmds.len() == 0 {
        state
    } else {
        step_state(run_state(state, cmds.drop_last()), cmds.last())
    }
}

/// What command `i` of `cmds` emits, under the state that the commands before
/// it have left.
pub open spec fn emission_at(state: TransformState, cmds: Seq<Command>, i: int) -> Option<
    ClipVertex,
> {
    emission(run_state(state, cmds.take(i)), cmds[i])
}

/// The segments of a frame: one for each command that emits a vertex directly
/// after a command that emitted one, in the order of the commands. A command
/// that emits nothing breaks the chain.
pub open spec fn frame_segments(state: TransformState, cmds: Seq<Command>) -> Seq<Segment>
    decreases cmds.len(),
{
    if cmds.len() < 2 {
        Seq::empty()
    } else {
        let earlier = frame_segments(state, cmds.drop_last());
        let n = cmds.len() as int;
        match (emission_at(state, cmds, n - 2), emission_at(state, cmds, n - 1)) {
            (Some(from), Some(to)) => earlier.push(Segment { from, to }),
            _ => earlier,
        }
    }
}

/// `vp` may be called on every coordinate and extent.
pub open spec fn total_viewport<P: Fn(Scalar, u32) -> i32>(vp: &P) -> bool {
    forall|c: Scalar, extent: u32| #[trigger] vp.requires((c, extent))
}

/// `px` is a pixel of the clip-space point `p` on a surface of `size`: its
/// column is a result of `vp` on `p.x` and the width, its row a result of `vp`
/// on the negated `p.y` and the height. Clip space grows upward, rows grow
/// downward. `p.z` plays no part.
pub open spec fn pixel_of<P: Fn(Scalar, u32) -> i32>(
    vp: &P,
    size: SurfaceSize,
    p: Point3,
    px: Pixel,
) -> bool {
    &&& vp.ensures((p.x, size.width), px.x)
    &&& vp.ensures((p.y.negated_spec(), size.height), px.y)
}

/// `px` is a pixel of some clip-space point of `cv`.
pub open spec fn plots<X: Fn(&Matrix4, Point3) -> Point3, P: Fn(Scalar, u32) -> i32>(
    xf: &X,
    vp: &P,
    size: SurfaceSize,
    cv: ClipVertex,
    px: Pixel,
) -> bool {
    exists|clip: Point3|
        #![trigger clip_point(xf, cv, clip)]
        clip_point(xf, cv, clip) && pixel_of(vp, size, clip, px)
}

/// `line` joins a pixel of the segment's first vertex to a pixel of its
/// second.
pub open spec fn draws<X: Fn(&Matrix4, Point3) -> Point3, P: Fn(Scalar, u32) -> i32>(
    xf: &X,
    vp: &P,
    size: SurfaceSize,
    segment: Segment,
    line: Line,
) -> bool {
    &&& plots(xf, vp, size, segment.from, line.from)
    &&& plots(xf, vp, size, segment.to, line.to)
}

/// `lines` holds one line for each of `segments`, in the same order.
pub open spec fn renders<X: Fn(&Matrix4, Point3) -> Point3, P: Fn(Scalar, u32) -> i32>(
    xf: &X,
    vp: &P,
    size: SurfaceSize,
    segments: Seq<Segment>,
    lines: Seq<Line>,
) -> bool {
    &&& lines.len() == segments.len()
    &&& forall|i: int|
        0 <= i < segments.len() ==> #[trigger] draws(xf, vp, size, segments[i], lines[i])
}

/// Maps a clip-space point to a pixel of a surface of `size`.
pub fn to_pixel<P: Fn(Scalar, u32) -> i32>(p: Point3, size: SurfaceSize, vp: &P) -> (px: Pixel)
    requires
        total_viewport(vp),
    ensures
        pixel_of(vp, size, p, px),
{
    let x: i32 = vp(p.x, size.width);
    let y: i32 = vp(p.y.negated(), size.height);
    Pixel { x, y }
}

/// A prefix of a command sequence emits what the whole sequence emits.
pub proof fn lemma_emission_at_prefix(state: TransformState, cmds: Seq<Command>, n: int, i: int)
    requires
        0 <= i < n <= cmds.len(),
    ensures
        emission_at(state, cmds.take(n), i) == emission_at(state, cmds, i),
{
    assert(cmds.take(n).take(i) =~= cmds.take(i));
}

/// Interprets the commands of one frame in order, carrying `state` through
/// them, and returns the lines to draw: each vertex is joined to the vertex
/// submitted directly before it, if there is one.
pub fn draw_frame<X: Fn(&Matrix4, Point3) -> Point3, P: Fn(Scalar, u32) -> i32>(
    state: &mut TransformState,
    cmds: &Vec<Command>,
    size: SurfaceSize,
    xf: &X,
    vp: &P,
) -> (lines: Vec<Line>)
    requires
        total_transform(xf),
        total_viewport(vp),
    ensures
        *final(state) == run_state(*old(state), cmds@),
        renders(xf, vp, size, frame_segments(*old(state), cmds@), lines@),
{
    let ghost start = *state;
    let mut lines: Vec<Line> = Vec::new();
    let mut last: Option<Pixel> = None;
    let mut i: usize = 0;
    while i < cmds.len()
        invariant
            total_transform(xf),
            total_viewport(vp),
            i <= cmds.len(),
            *state == run_state(start, cmds@.take(i as int)),
            renders(xf, vp, size, frame_segments(start, cmds@.take(i as int)), lines@),
            last is Some <==> i > 0 && emission_at(start, cmds@, i - 1) is Some,
            last is Some ==> plots(xf, vp, size, emission_at(start, cmds@, i - 1)->0, last->0),
        decreases cmds.len() - i,
    {
        let cmd = cmds[i];
        let ghost before = cmds@.take(i as int);
        let ghost upto = cmds@.take(i + 1);
        let ghost drawn = frame_segments(start, before);
        proof {
            assert(upto.drop_last() =~= before);
            assert(upto.last() == cmd);
            assert(upto.take(i as int) =~= before);
            assert(emission_at(start, upto, i as int) == emission_at(start, cmds@, i as int));
            if i > 0 {
                lemma_emission_at_prefix(start, cmds@, i + 1, i - 1);
            }
        }
        match state.apply(cmd, xf) {
            Some(clip) => {
                let px = to_pixel(clip, size, vp);
                let ghost cv = emission_at(start, cmds@, i as int)->0;
                assert(clip_point(xf, cv, clip));
                assert(plots(xf, vp, size, cv, px));
                match last {
                    Some(prev) => {
                        let line = Line { from: prev, to: px };
                        let ghost earlier = lines@;
                        lines.push(line);
                        proof {
                            let seg = Segment { from: emission_at(start, cmds@, i - 1)->0, to: cv };
                            assert(frame_segments(start, upto) == drawn.push(seg));
                            assert(draws(xf, vp, size, seg, line));
                            assert forall|k: int| 0 <= k < drawn.push(seg).len() implies #[trigger] draws(
                                xf,
                                vp,
                                size,
                                drawn.push(seg)[k],
                                lines@[k],
                            ) by {
                                if k < drawn.len() {
                                    assert(draws(xf, vp, size, drawn[k], earlier[k]));
                                }
                            }
                        }
                    },
                    None => {
                        assert(frame_segments(start, upto) == drawn);
                    },
                }
                last = Some(px);
            },
            None => {
                assert(frame_segments(start, upto) == drawn);
                last = None;
            },
        }
        i += 1;
    }
    assert(cmds@.take(cmds.len() as int) =~= cmds@);
    lines
}

} // verus!
