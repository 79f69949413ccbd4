//! What holds of the pipeline and of the registry, over all inputs.

use vstd::prelude::*;
use crate::command::{Command, MatrixSlot};
use crate::context::{ContextModel, Surface};
use crate::error::GlxError;
use crate::frame::{
    draws, emission_at, frame_segments, pixel_of, plots, renders, run_state, Line, Pixel, Segment,
    SurfaceSize,
};
use crate::geometry::{Matrix4, Point3};
use crate::registry::{ContextHandle, RegistryModel, ThreadId};
use crate::scalar::Scalar;
use crate::transform::{clip_point, ClipVertex, TransformState};

verus! {

/// The matrix that `slot` holds after `cmds`, if it held `initial` before: the
/// operand of the last command of `cmds` that sets `slot`, or `initial` if no
/// command does.
pub open spec fn latest_matrix(initial: Matrix4, cmds: Seq<Command>, slot: MatrixSlot) -> Matrix4
    decreases cmds.len(),
{
    if cmds.len() == 0 {
        initial
    } else {
        match cmds.last() {
            Command::SetMatrix(s, m) => if s == slot {
                m
            } else {
                latest_matrix(initial, cmds.drop_last(), slot)
            },
            _ => latest_matrix(initial, cmds.drop_last(), slot),
        }
    }
}

/// The commands that submit the points of `vs`, one after the other.
pub open spec fn vertex_commands(vs: Seq<Point3>) -> Seq<Command> {
    Seq::new(vs.len(), |i: int| Command::SetVertex(vs[i]))
}

/// The context after it has recorded all of `cmds`, in order.
pub open spec fn recorded_all(ctx: ContextModel, cmds: Seq<Command>) -> ContextModel
    decreases cmds.len(),
{
    if cmds.len() == 0 {
        ctx
    } else {
        recorded_all(ctx, cmds.drop_last()).recorded(cmds.last())
    }
}

/// After any commands, each matrix is the one that was set last.
pub proof fn lemma_state_holds_latest_matrices(state: TransformState, cmds: Seq<Command>)
    ensures
        run_state(state, cmds).modelview == latest_matrix(
            state.modelview,
            cmds,
            MatrixSlot::Modelview,
        ),
        run_state(state, cmds).projection == latest_matrix(
            state.projection,
            cmds,
            MatrixSlot::Projection,
        ),
    decreases cmds.len(),
{
    if cmds.len() > 0 {
        lemma_state_holds_latest_matrices(state, cmds.drop_last());
    }
}

/// A vertex submitted after `cmds` is emitted with the matrices that were set
/// last, and every point it yields under a transform `xf` is `xf` of the
/// projection matrix on what `xf` of the modelview matrix makes of the vertex:
/// modelview first, projection second.
pub proof fn lemma_modelview_then_projection<X: Fn(&Matrix4, Point3) -> Point3>(
    xf: &X,
    state: TransformState,
    cmds: Seq<Command>,
    v: Point3,
    out: Point3,
)
    ensures
        emission_at(state, cmds.push(Command::SetVertex(v)), cmds.len() as int) == Some(
            ClipVertex {
                modelview: latest_matrix(state.modelview, cmds, MatrixSlot::Modelview),
                projection: latest_matrix(state.projection, cmds, MatrixSlot::Projection),
                vertex: v,
            },
        ),
        clip_point(
            xf,
            emission_at(state, cmds.push(Command::SetVertex(v)), cmds.len() as int)->0,
            out,
        ) <==> exists|eye: Point3|
            #![trigger xf.ensures((&latest_matrix(state.projection, cmds, MatrixSlot::Projection), eye), out)]
            xf.ensures((&latest_matrix(state.modelview, cmds, MatrixSlot::Modelview), v), eye)
                && xf.ensures(
                (&latest_matrix(state.projection, cmds, MatrixSlot::Projection), eye),
                out,
            ),
{
    let all = cmds.push(Command::SetVertex(v));
    assert(all.take(cmds.len() as int) =~= cmds);
    lemma_state_holds_latest_matrices(state, cmds);
    let mv = latest_matrix(state.modelview, cmds, MatrixSlot::Modelview);
    let pr = latest_matrix(state.projection, cmds, MatrixSlot::Projection);
    let cv = ClipVertex { modelview: mv, projection: pr, vertex: v };
    if clip_point(xf, cv, out) {
        let eye = choose|eye: Point3|
            #![trigger xf.ensures((&cv.projection, eye), out)]
            xf.ensures((&cv.modelview, cv.vertex), eye) && xf.ensures((&cv.projection, eye), out);
        assert(xf.ensures((&mv, v), eye) && xf.ensures((&pr, eye), out));
    }
    if exists|eye: Point3|
        #![trigger xf.ensures((&pr, eye), out)]
        xf.ensures((&mv, v), eye) && xf.ensures((&pr, eye), out) {
        let eye = choose|eye: Point3|
            #![trigger xf.ensures((&pr, eye), out)]
            xf.ensures((&mv, v), eye) && xf.ensures((&pr, eye), out);
        assert(xf.ensures((&cv.modelview, cv.vertex), eye) && xf.ensures(
            (&cv.projection, eye),
            out,
        ));
    }
}

/// An empty frame draws nothing and leaves the transform state as it was.
pub proof fn lemma_empty_frame<X: Fn(&Matrix4, Point3) -> Point3, P: Fn(Scalar, u32) -> i32>(
    xf: &X,
    vp: &P,
    size: SurfaceSize,
    state: TransformState,
    lines: Seq<Line>,
)
    ensures
        run_state(state, Seq::empty()) == state,
        frame_segments(state, Seq::empty()) == Seq::<Segment>::empty(),
        renders(xf, vp, size, frame_segments(state, Seq::empty()), lines) <==> lines.len() == 0,
{
}

/// Finalizing a context leaves nothing to finalize: a second frame directly
/// after the first has no segments and changes nothing.
pub proof fn lemma_finalize_is_idempotent(ctx: ContextModel)
    ensures
        ctx.finalized().frame_plan() == Seq::<Segment>::empty(),
        ctx.finalized().finalized() == ctx.finalized(),
        ctx.pending().len() == 0 ==> ctx.finalized() == ctx,
{
    match ctx {
        ContextModel::Inactive(_) => {},
        ContextModel::Current { read, draw, transform, queue } => {
            if queue.len() == 0 {
                assert(queue =~= Seq::<Command>::empty());
            }
        },
    }
}

/// A thread whose current context has nothing queued finalizes to no
/// segment and changes nothing; and once a thread has finalized, its context
/// has nothing queued.
pub proof fn lemma_finalize_with_empty_queue(registry: RegistryModel, thread: ThreadId)
    requires
        registry.wf(),
        registry.current.contains_key(thread),
    ensures
        registry.contexts[registry.current[thread] as int].pending().len() == 0 ==> {
            &&& registry.frame_plan(thread) == Seq::<Segment>::empty()
            &&& registry.finalized(thread) == registry
        },
        registry.finalized(thread).frame_plan(thread) == Seq::<Segment>::empty(),
        registry.finalized(thread).finalized(thread) == registry.finalized(thread),
{
    let i = registry.current[thread] as int;
    let ctx = registry.contexts[i];
    lemma_finalize_is_idempotent(ctx);
    let once = registry.finalized(thread);
    assert(once.contexts[i] == ctx.finalized());
    assert(once.finalized(thread).contexts =~= once.contexts);
    if ctx.pending().len() == 0 {
        assert(once.contexts =~= registry.contexts);
    }
}

/// Interpreting two command sequences one after the other is interpreting
/// their concatenation.
pub proof fn lemma_run_state_concat(state: TransformState, first: Seq<Command>, second: Seq<Command>)
    ensures
        run_state(run_state(state, first), second) == run_state(state, first + second),
    decreases second.len(),
{
    if second.len() == 0 {
        assert(first + second =~= first);
    } else {
        lemma_run_state_concat(state, first, second.drop_last());
        assert((first + second).drop_last() =~= first + second.drop_last());
        assert((first + second).last() == second.last());
    }
}

/// The transform state persists across frames: a command of the second frame
/// emits what it would emit if both frames were one.
pub proof fn lemma_state_persists_across_frames(
    state: TransformState,
    first: Seq<Command>,
    second: Seq<Command>,
    i: int,
)
    requires
        0 <= i < second.len(),
    ensures
        emission_at(run_state(state, first), second, i) == emission_at(
            state,
            first + second,
            first.len() + i,
        ),
{
    lemma_run_state_concat(state, first, second.take(i));
    assert((first + second).take(first.len() + i) =~= first + second.take(i));
}

/// Recording commands changes the queue of a current context and nothing
/// else.
pub proof fn lemma_recorded_all(ctx: ContextModel, cmds: Seq<Command>)
    requires
        ctx is Current,
    ensures
        recorded_all(ctx, cmds) == (ContextModel::Current {
            read: ctx->read,
            draw: ctx->draw,
            transform: ctx.transform(),
            queue: ctx.pending() + cmds,
        }),
    decreases cmds.len(),
{
    if cmds.len() == 0 {
        assert(ctx.pending() + cmds =~= ctx.pending());
    } else {
        lemma_recorded_all(ctx, cmds.drop_last());
        assert((ctx.pending() + cmds.drop_last()).push(cmds.last()) =~= ctx.pending() + cmds);
    }
}

/// What a frame leaves is in effect in the next frame: after a context has
/// finalized the frame it holds and recorded `next`, the frame it holds starts
/// from the transform state that the first frame has left, and it will leave
/// what both frames in a row leave.
pub proof fn lemma_next_frame_starts_from_last(ctx: ContextModel, next: Seq<Command>)
    requires
        ctx is Current,
    ensures
        recorded_all(ctx.finalized(), next).frame_plan() == frame_segments(
            run_state(ctx.transform(), ctx.pending()),
            next,
        ),
        recorded_all(ctx.finalized(), next).finalized().transform() == run_state(
            ctx.transform(),
            ctx.pending() + next,
        ),
{
    lemma_recorded_all(ctx.finalized(), next);
    assert(Seq::<Command>::empty() + next =~= next);
    lemma_run_state_concat(ctx.transform(), ctx.pending(), next);
}

/// The transform state survives a release and a new binding.
pub proof fn lemma_transform_survives_rebinding(ctx: ContextModel, read: Surface, draw: Surface)
    ensures
        ctx.released().transform() == ctx.transform(),
        ctx.released().bound(read, draw).transform() == ctx.transform(),
{
}

/// Vertices submitted in a row, with nothing between them, are joined into
/// one chain: one segment from each vertex to the next, in order, all under
/// the matrices of `state`.
pub proof fn lemma_vertices_form_a_chain(state: TransformState, vs: Seq<Point3>)
    ensures
        frame_segments(state, vertex_commands(vs)).len() == (if vs.len() == 0 {
            0
        } else {
            vs.len() - 1
        }),
        forall|i: int|
            0 <= i < vs.len() - 1 ==> #[trigger] frame_segments(state, vertex_commands(vs))[i] == (
            Segment {
                from: ClipVertex {
                    modelview: state.modelview,
                    projection: state.projection,
                    vertex: vs[i],
                },
                to: ClipVertex {
                    modelview: state.modelview,
                    projection: state.projection,
                    vertex: vs[i + 1],
                },
            }),
    decreases vs.len(),
{
    let cmds = vertex_commands(vs);
    if vs.len() >= 2 {
        let n = vs.len() as int;
        lemma_vertices_form_a_chain(state, vs.drop_last());
        assert(cmds.drop_last() =~= vertex_commands(vs.drop_last()));
        lemma_vertices_leave_state(state, vs.take(n - 2));
        lemma_vertices_leave_state(state, vs.take(n - 1));
        assert(cmds.take(n - 2) =~= vertex_commands(vs.take(n - 2)));
        assert(cmds.take(n - 1) =~= vertex_commands(vs.take(n - 1)));
    }
}

/// Vertex commands leave the transform state as it is.
pub proof fn lemma_vertices_leave_state(state: TransformState, vs: Seq<Point3>)
    ensures
        run_state(state, vertex_commands(vs)) == state,
    decreases vs.len(),
{
    if vs.len() > 0 {
        lemma_vertices_leave_state(state, vs.drop_last());
        assert(vertex_commands(vs).drop_last() =~= vertex_commands(vs.drop_last()));
    }
}

/// `xf` has one result on each matrix and point.
pub open spec fn single_valued_transform<X: Fn(&Matrix4, Point3) -> Point3>(xf: &X) -> bool {
    forall|m: &Matrix4, p: Point3, a: Point3, b: Point3|
        #![trigger xf.ensures((m, p), a), xf.ensures((m, p), b)]
        xf.ensures((m, p), a) && xf.ensures((m, p), b) ==> a == b
}

/// `vp` has one result on each coordinate and extent.
pub open spec fn single_valued_viewport<P: Fn(Scalar, u32) -> i32>(vp: &P) -> bool {
    forall|c: Scalar, extent: u32, a: i32, b: i32|
        #![trigger vp.ensures((c, extent), a), vp.ensures((c, extent), b)]
        vp.ensures((c, extent), a) && vp.ensures((c, extent), b) ==> a == b
}

/// Under arithmetic that has one result on each input, a vertex has one
/// pixel.
pub proof fn lemma_vertex_has_one_pixel<X: Fn(&Matrix4, Point3) -> Point3, P: Fn(Scalar, u32) -> i32>(
    xf: &X,
    vp: &P,
    size: SurfaceSize,
    cv: ClipVertex,
    a: Pixel,
    b: Pixel,
)
    requires
        single_valued_transform(xf),
        single_valued_viewport(vp),
        plots(xf, vp, size, cv, a),
        plots(xf, vp, size, cv, b),
    ensures
        a == b,
{
    let clip_a = choose|clip: Point3|
        #![trigger clip_point(xf, cv, clip)]
        clip_point(xf, cv, clip) && pixel_of(vp, size, clip, a);
    let clip_b = choose|clip: Point3|
        #![trigger clip_point(xf, cv, clip)]
        clip_point(xf, cv, clip) && pixel_of(vp, size, clip, b);
    let eye_a = choose|eye: Point3|
        #![trigger xf.ensures((&cv.projection, eye), clip_a)]
        xf.ensures((&cv.modelview, cv.vertex), eye) && xf.ensures((&cv.projection, eye), clip_a);
    let eye_b = choose|eye: Point3|
        #![trigger xf.ensures((&cv.projection, eye), clip_b)]
        xf.ensures((&cv.modelview, cv.vertex), eye) && xf.ensures((&cv.projection, eye), clip_b);
    assert(eye_a == eye_b);
    assert(clip_a == clip_b);
}

/// Under arithmetic that has one result on each input, the lines of a frame
/// are determined by its segments: the same commands from the same state
/// draw the same lines.
pub proof fn lemma_frame_has_one_rendering<
    X: Fn(&Matrix4, Point3) -> Point3,
    P: Fn(Scalar, u32) -> i32,
>(xf: &X, vp: &P, size: SurfaceSize, segments: Seq<Segment>, a: Seq<Line>, b: Seq<Line>)
    requires
        single_valued_transform(xf),
        single_valued_viewport(vp),
        renders(xf, vp, size, segments, a),
        renders(xf, vp, size, segments, b),
    ensures
        a == b,
{
    assert forall|i: int| 0 <= i < a.len() implies a[i] == b[i] by {
        assert(draws(xf, vp, size, segments[i], a[i]));
        assert(draws(xf, vp, size, segments[i], b[i]));
        lemma_vertex_has_one_pixel(xf, vp, size, segments[i].from, a[i].from, b[i].from);
        lemma_vertex_has_one_pixel(xf, vp, size, segments[i].to, a[i].to, b[i].to);
    }
    assert(a =~= b);
}

/// A context that is current on one thread cannot be made current by
/// another: the request fails with `AlreadyBound`, whatever surfaces it
/// names.
pub proof fn lemma_current_elsewhere_is_already_bound(
    registry: RegistryModel,
    owner: ThreadId,
    other: ThreadId,
    ctx: ContextHandle,
    read: Surface,
    draw: Surface,
)
    requires
        registry.wf(),
        registry.is_current_on(ctx.index as int, owner),
        other != owner,
    ensures
        registry.make_current_error(other, Some(ctx), read, draw) == Some(GlxError::AlreadyBound),
{
    assert(registry.current.contains_key(owner));
    if registry.current.contains_key(other) {
        assert(registry.current[other] != registry.current[owner]);
    }
}

/// A thread that has recorded a command cannot detach before it has
/// finalized: the request fails with `DirtyQueue`.
pub proof fn lemma_detach_after_submit_is_dirty(
    registry: RegistryModel,
    thread: ThreadId,
    cmd: Command,
    read: Surface,
    draw: Surface,
)
    requires
        registry.wf(),
        registry.current.contains_key(thread),
    ensures
        registry.recorded(thread, cmd).make_current_error(thread, None, read, draw) == Some(
            GlxError::DirtyQueue,
        ),
{
}

} // verus!
