//! The contexts of a process and the context that is current on each thread.

use std::collections::HashMap;
use vstd::prelude::*;
use crate::command::Command;
use crate::context::{ContextModel, ContextState, Surface};
use crate::error::GlxError;
use crate::frame::{renders, total_viewport, Line, Segment, SurfaceSize};
use crate::geometry::{Matrix4, Point3};
use crate::scalar::Scalar;
use crate::transform::total_transform;

verus! {

broadcast use vstd::std_specs::hash::group_hash_axioms;

/// The identity of a thread, as the caller assigns it.
pub type ThreadId = u64;

/// A handle to a context of a registry.
#[derive(Clone, Copy, Debug, PartialEq, Eq, Structural)]
pub struct ContextHandle {
    pub index: usize,
}

/// An opaque description of a pixel format. The registry accepts it and reads
/// nothing from it.
#[derive(Clone, Copy, Debug, PartialEq, Eq, Structural)]
pub struct FormatDescriptor {
    pub id: u64,
}

/// What a registry holds: its contexts in the order of their creation, and,
/// for each thread that has a current context, the index of that context.
pub struct RegistryModel {
    pub contexts: Seq<ContextModel>,
    pub current: Map<ThreadId, usize>,
}

impl RegistryModel {
    /// Whether context `i` is the current context of `thread`.
    pub open spec fn is_current_on(self, i: int, thread: ThreadId) -> bool {
        self.current.contains_key(thread) && self.current[thread] == i
    }

    /// Every slot names a context that is current; no context is current on
    /// two threads; every context that is current is so on some thread.
    pub open spec fn wf(self) -> bool {
        &&& forall|t: ThreadId| #[trigger]
            self.current.contains_key(t) ==> self.current[t] < self.contexts.len()
                && self.contexts[self.current[t] as int] is Current
        &&& forall|t1: ThreadId, t2: ThreadId|
            #![trigger self.current[t1], self.current[t2]]
            self.current.contains_key(t1) && self.current.contains_key(t2) && self.current[t1]
                == self.current[t2] ==> t1 == t2
        &&& forall|i: int|
            0 <= i < self.contexts.len() && #[trigger] self.contexts[i] is Current ==> exists|
                t: ThreadId,
            | #[trigger] self.is_current_on(i, t)
    }

    /// The registry without contexts.
    pub open spec fn empty() -> RegistryModel {
        RegistryModel { contexts: Seq::empty(), current: Map::empty() }
    }

    /// Whether `ctx` is a handle of this registry.
    pub open spec fn contains(self, ctx: ContextHandle) -> bool {
        ctx.index < self.contexts.len()
    }

    /// The context that is current on `thread`, if there is one.
    pub open spec fn current_of(self, thread: ThreadId) -> Option<ContextHandle> {
        if self.current.contains_key(thread) {
            Some(ContextHandle { index: self.current[thread] })
        } else {
            None
        }
    }

    /// The registry with one more context, fresh.
    pub open spec fn created(self) -> RegistryModel {
        RegistryModel { contexts: self.contexts.push(ContextModel::fresh()), current: self.current }
    }

    /// Why `thread` cannot give up its current context, if it cannot: the
    /// context has commands queued.
    pub open spec fn detach_error(self, thread: ThreadId) -> Option<GlxError> {
        if self.current.contains_key(thread) && self.contexts[self.current[thread] as int].pending().len()
            > 0 {
            Some(GlxError::DirtyQueue)
        } else {
            None
        }
    }

    /// The registry after `thread` has given up its current context: that
    /// context is inactive and keeps its transform state, and the thread has
    /// no current context. A thread without one changes nothing.
    pub open spec fn detached(self, thread: ThreadId) -> RegistryModel {
        if self.current.contains_key(thread) {
            let i = self.current[thread] as int;
            RegistryModel {
                contexts: self.contexts.update(i, self.contexts[i].released()),
                current: self.current.remove(thread),
            }
        } else {
            self
        }
    }

    /// Why `make_current` fails on these arguments, if it does.
    ///
    /// Without a context, the call detaches: see `detach_error`. With one, the
    /// handle has to be of this registry. A context that is current is
    /// accepted only as a repetition, by the thread it is current on and with
    /// the surfaces it is bound to; any other request for it is
    /// `AlreadyBound`. For an inactive context the thread first gives up the
    /// context it has, which must have nothing queued.
    pub open spec fn make_current_error(
        self,
        thread: ThreadId,
        ctx: Option<ContextHandle>,
        read: Surface,
        draw: Surface,
    ) -> Option<GlxError> {
        match ctx {
            None => self.detach_error(thread),
            Some(h) => if !self.contains(h) {
                Some(GlxError::UnknownContext)
            } else if self.contexts[h.index as int] is Current {
                if self.is_current_on(h.index as int, thread) && self.contexts[h.index as int].is_bound_to(
                    read,
                    draw,
                ) {
                    None
                } else {
                    Some(GlxError::AlreadyBound)
                }
            } else {
                self.detach_error(thread)
            },
        }
    }

    /// The registry after a `make_current` that succeeds.
    pub open spec fn after_make_current(
        self,
        thread: ThreadId,
        ctx: Option<ContextHandle>,
        read: Surface,
        draw: Surface,
    ) -> RegistryModel {
        match ctx {
            None => self.detached(thread),
            Some(h) => if self.contexts[h.index as int] is Current {
                self
            } else {
                let d = self.detached(thread);
                RegistryModel {
                    contexts: d.contexts.update(
                        h.index as int,
                        d.contexts[h.index as int].bound(read, draw),
                    ),
                    current: d.current.insert(thread, h.index),
                }
            },
        }
    }

    /// The registry after `thread` has recorded `cmd` in its current context.
    pub open spec fn recorded(self, thread: ThreadId, cmd: Command) -> RegistryModel {
        let i = self.current[thread] as int;
        RegistryModel {
            contexts: self.contexts.update(i, self.contexts[i].recorded(cmd)),
            current: self.current,
        }
    }

    /// Why `thread` cannot finalize a frame against `surface`, if it cannot.
    pub open spec fn finalize_error(self, thread: ThreadId, surface: Surface) -> Option<GlxError> {
        if self.current.contains_key(thread) {
            self.contexts[self.current[thread] as int].finalize_error(surface)
        } else {
            Some(GlxError::NotCurrent)
        }
    }

    /// The segments of the frame that is queued in the current context of
    /// `thread`.
    pub open spec fn frame_plan(self, thread: ThreadId) -> Seq<Segment> {
        self.contexts[self.current[thread] as int].frame_plan()
    }

    /// The registry after `thread` has finalized the frame of its current
    /// context.
    pub open spec fn finalized(self, thread: ThreadId) -> RegistryModel {
        let i = self.current[thread] as int;
        RegistryModel {
            contexts: self.contexts.update(i, self.contexts[i].finalized()),
            current: self.current,
        }
    }
}

/// A new context keeps the invariant.
pub proof fn lemma_created_wf(registry: RegistryModel)
    requires
        registry.wf(),
    ensures
        registry.created().wf(),
{
    let after = registry.created();
    assert forall|i: int|
        0 <= i < after.contexts.len() && #[trigger] after.contexts[i] is Current implies exists|
        t: ThreadId,
    | #[trigger] after.is_current_on(i, t) by {
        assert(registry.contexts[i] is Current);
        let t = choose|t: ThreadId| #[trigger] registry.is_current_on(i, t);
        assert(after.is_current_on(i, t));
    }
}

/// A thread that gives up its current context keeps the invariant.
pub proof fn lemma_detached_wf(registry: RegistryModel, thread: ThreadId)
    requires
        registry.wf(),
    ensures
        registry.detached(thread).wf(),
{
    let after = registry.detached(thread);
    assert forall|i: int|
        0 <= i < after.contexts.len() && #[trigger] after.contexts[i] is Current implies exists|
        t: ThreadId,
    | #[trigger] after.is_current_on(i, t) by {
        assert(registry.contexts[i] is Current);
        let t = choose|t: ThreadId| #[trigger] registry.is_current_on(i, t);
        assert(after.is_current_on(i, t));
    }
}

/// A `make_current` that succeeds keeps the invariant.
pub proof fn lemma_after_make_current_wf(
    registry: RegistryModel,
    thread: ThreadId,
    ctx: Option<ContextHandle>,
    read: Surface,
    draw: Surface,
)
    requires
        registry.wf(),
        registry.make_current_error(thread, ctx, read, draw) is None,
    ensures
        registry.after_make_current(thread, ctx, read, draw).wf(),
{
    lemma_detached_wf(registry, thread);
    match ctx {
        None => {},
        Some(h) => {
            if !(registry.contexts[h.index as int] is Current) {
                let mid = registry.detached(thread);
                let after = registry.after_make_current(thread, ctx, read, draw);
                assert(mid.contexts[h.index as int] is Inactive);
                assert forall|i: int|
                    0 <= i < after.contexts.len()
                        && #[trigger] after.contexts[i] is Current implies exists|t: ThreadId|
                    #[trigger] after.is_current_on(i, t) by {
                    if i == h.index {
                        assert(after.is_current_on(i, thread));
                    } else {
                        assert(mid.contexts[i] is Current);
                        let t = choose|t: ThreadId| #[trigger] mid.is_current_on(i, t);
                        assert(after.is_current_on(i, t));
                    }
                }
            }
        },
    }
}

/// Recording a command keeps the invariant.
pub proof fn lemma_recorded_wf(registry: RegistryModel, thread: ThreadId, cmd: Command)
    requires
        registry.wf(),
        registry.current.contains_key(thread),
    ensures
        registry.recorded(thread, cmd).wf(),
{
    let after = registry.recorded(thread, cmd);
    assert forall|i: int|
        0 <= i < after.contexts.len() && #[trigger] after.contexts[i] is Current implies exists|
        t: ThreadId,
    | #[trigger] after.is_current_on(i, t) by {
        assert(registry.contexts[i] is Current);
        let t = choose|t: ThreadId| #[trigger] registry.is_current_on(i, t);
        assert(after.is_current_on(i, t));
    }
}

/// Finalizing a frame keeps the invariant.
pub proof fn lemma_finalized_wf(registry: RegistryModel, thread: ThreadId)
    requires
        registry.wf(),
        registry.current.contains_key(thread),
    ensures
        registry.finalized(thread).wf(),
{
    let after = registry.finalized(thread);
    assert forall|i: int|
        0 <= i < after.contexts.len() && #[trigger] after.contexts[i] is Current implies exists|
        t: ThreadId,
    | #[trigger] after.is_current_on(i, t) by {
        assert(registry.contexts[i] is Current);
        let t = choose|t: ThreadId| #[trigger] registry.is_current_on(i, t);
        assert(after.is_current_on(i, t));
    }
}

/// The contexts that were created, and the current context of each thread.
pub struct Registry {
    contexts: Vec<ContextState>,
    slots: HashMap<ThreadId, usize>,
}

impl View for Registry {
    type V = RegistryModel;

    closed spec fn view(&self) -> RegistryModel {
        RegistryModel {
            contexts: Seq::new(self.contexts@.len(), |i: int| self.contexts@[i]@),
            current: self.slots@,
        }
    }
}

impl Registry {
    /// The invariant of a registry.
    pub open spec fn wf(&self) -> bool {
        self@.wf()
    }

    /// A registry without contexts.
    pub fn new() -> (r: Registry)
        ensures
            r.wf(),
            r@ == RegistryModel::empty(),
    {
        let r = Registry { contexts: Vec::new(), slots: HashMap::new() };
        assert(r@.contexts =~= RegistryModel::empty().contexts);
        assert(r@.current =~= RegistryModel::empty().current);
        r
    }

    /// The number of contexts created so far.
    pub fn len(&self) -> (n: usize)
        ensures
            n == self@.contexts.len(),
    {
        self.contexts.len()
    }

    /// Whether `ctx` is a handle of this registry.
    pub fn contains(&self, ctx: ContextHandle) -> (b: bool)
        ensures
            b == self@.contains(ctx),
    {
        ctx.index < self.contexts.len()
    }

    /// The context behind `ctx`, if `ctx` is a handle of this registry.
    pub fn context(&self, ctx: ContextHandle) -> (c: Option<&ContextState>)
        ensures
            match c {
                Some(state) => self@.contains(ctx) && state@ == self@.contexts[ctx.index as int],
                None => !self@.contains(ctx),
            },
    {
        if ctx.index < self.contexts.len() {
            Some(&self.contexts[ctx.index])
        } else {
            None
        }
    }

    /// Creates a context: inactive, with both matrices the identity. Its
    /// handle is the number of contexts created before it.
    pub fn create(&mut self) -> (h: ContextHandle)
        requires
            old(self).wf(),
        ensures
            final(self).wf(),
            final(self)@ == old(self)@.created(),
            h.index == old(self)@.contexts.len(),
    {
        let index = self.contexts.len();
        self.contexts.push(ContextState::new());
        proof {
            assert(self@.contexts =~= old(self)@.created().contexts);
            lemma_created_wf(old(self)@);
        }
        ContextHandle { index }
    }

    /// Creates a context for a pixel format, which is accepted as it is.
    /// Sharing with another context is not supported: with `share_with`
    /// given, the call fails with `UnsupportedCapability` and creates nothing.
    pub fn create_context(
        &mut self,
        _format: &FormatDescriptor,
        share_with: Option<ContextHandle>,
    ) -> (r: Result<ContextHandle, GlxError>)
        requires
            old(self).wf(),
        ensures
            final(self).wf(),
            match r {
                Ok(h) => {
                    &&& share_with is None
                    &&& final(self)@ == old(self)@.created()
                    &&& h.index == old(self)@.contexts.len()
                },
                Err(e) => {
                    &&& share_with is Some
                    &&& e == GlxError::UnsupportedCapability
                    &&& final(self)@ == old(self)@
                },
            },
    {
        match share_with {
            Some(_) => Err(GlxError::UnsupportedCapability),
            None => Ok(self.create()),
        }
    }

    /// The current context of `thread`, if it has one.
    pub fn get_current(&self, thread: ThreadId) -> (c: Option<ContextHandle>)
        ensures
            c == self@.current_of(thread),
    {
        match self.slots.get(&thread) {
            Some(i) => Some(ContextHandle { index: *i }),
            None => None,
        }
    }

    /// Takes the current context of `thread`, if it has one, back to
    /// inactive.
    fn detach(&mut self, thread: ThreadId) -> (r: Result<(), GlxError>)
        requires
            old(self).wf(),
        ensures
            final(self).wf(),
            match r {
                Ok(_) => {
                    &&& old(self)@.detach_error(thread) is None
                    &&& final(self)@ == old(self)@.detached(thread)
                },
                Err(e) => {
                    &&& old(self)@.detach_error(thread) == Some(e)
                    &&& final(self)@ == old(self)@
                },
            },
    {
        let slot: Option<usize> = match self.slots.get(&thread) {
            Some(i) => Some(*i),
            None => None,
        };
        match slot {
            None => Ok(()),
            Some(i) => {
                let released = self.contexts[i].release();
                match released {
                    Err(e) => {
                        assert(self@.contexts =~= old(self)@.contexts);
                        Err(e)
                    },
                    Ok(_) => {
                        self.slots.remove(&thread);
                        proof {
                            let goal = old(self)@.detached(thread);
                            assert(self@.contexts =~= goal.contexts);
                            assert(self@.current =~= goal.current);
                            lemma_detached_wf(old(self)@, thread);
                        }
                        Ok(())
                    },
                }
            },
        }
    }

    /// Makes `ctx` the current context of `thread`, bound to `read` and
    /// `draw`; without `ctx`, leaves `thread` without a current context.
    ///
    /// A context that leaves its thread becomes inactive and keeps its
    /// transform state; it must have nothing queued, else the call fails with
    /// `DirtyQueue`. A context that becomes current keeps its transform state
    /// and starts with an empty queue. A context that is current already is
    /// refused with `AlreadyBound`, unless the call repeats its binding: the
    /// same thread and the same two surfaces. A handle of another registry is
    /// refused with `UnknownContext`. A call that fails changes nothing.
    pub fn make_current(
        &mut self,
        thread: ThreadId,
        ctx: Option<ContextHandle>,
        read: Surface,
        draw: Surface,
    ) -> (r: Result<(), GlxError>)
        requires
            old(self).wf(),
        ensures
            final(self).wf(),
            match r {
                Ok(_) => {
                    &&& old(self)@.make_current_error(thread, ctx, read, draw) is None
                    &&& final(self)@ == old(self)@.after_make_current(thread, ctx, read, draw)
                },
                Err(e) => {
                    &&& old(self)@.make_current_error(thread, ctx, read, draw) == Some(e)
                    &&& final(self)@ == old(self)@
                },
            },
    {
        let h = match ctx {
            None => {
                return self.detach(thread);
            },
            Some(h) => h,
        };
        if h.index >= self.contexts.len() {
            return Err(GlxError::UnknownContext);
        }
        if self.contexts[h.index].is_current() {
            let here = match self.slots.get(&thread) {
                Some(i) => *i == h.index,
                None => false,
            };
            let same = match self.contexts[h.index].surfaces() {
                Some((r, d)) => r == read && d == draw,
                None => false,
            };
            if here && same {
                Ok(())
            } else {
                Err(GlxError::AlreadyBound)
            }
        } else {
            match self.detach(thread) {
                Err(e) => Err(e),
                Ok(_) => {
                    let ghost mid = self@;
                    let _ = self.contexts[h.index].bind(read, draw);
                    self.slots.insert(thread, h.index);
                    proof {
                        let goal = old(self)@.after_make_current(thread, ctx, read, draw);
                        assert(mid.contexts[h.index as int] is Inactive);
                        assert(self@.contexts =~= goal.contexts);
                        assert(self@.current =~= goal.current);
                        lemma_after_make_current_wf(old(self)@, thread, ctx, read, draw);
                    }
                    Ok(())
                },
            }
        }
    }

    /// Records `cmd` in the current context of `thread`, behind what is
    /// queued there. A thread without a current context is refused with
    /// `NotCurrent`.
    pub fn submit(&mut self, thread: ThreadId, cmd: Command) -> (r: Result<(), GlxError>)
        requires
            old(self).wf(),
        ensures
            final(self).wf(),
            match r {
                Ok(_) => {
                    &&& old(self)@.current.contains_key(thread)
                    &&& final(self)@ == old(self)@.recorded(thread, cmd)
                },
                Err(e) => {
                    &&& !old(self)@.current.contains_key(thread)
                    &&& e == GlxError::NotCurrent
                    &&& final(self)@ == old(self)@
                },
            },
    {
        let slot: Option<usize> = match self.slots.get(&thread) {
            Some(i) => Some(*i),
            None => None,
        };
        match slot {
            None => Err(GlxError::NotCurrent),
            Some(i) => {
                let recorded = self.contexts[i].submit(cmd);
                proof {
                    assert(self@.contexts =~= old(self)@.recorded(thread, cmd).contexts);
                    lemma_recorded_wf(old(self)@, thread, cmd);
                }
                recorded
            },
        }
    }

    /// Finalizes the frame of the current context of `thread` against
    /// `surface`, and returns the lines to draw on a surface of `size`, in
    /// the order in which they are to be drawn. The queue is empty afterwards;
    /// the transform state that its commands have left stays in effect.
    ///
    /// A thread without a current context is refused with `NotCurrent`, a
    /// surface other than the two that the context is bound to with
    /// `SurfaceMismatch`. A refused call leaves the queue as it is.
    pub fn finalize<X: Fn(&Matrix4, Point3) -> Point3, P: Fn(Scalar, u32) -> i32>(
        &mut self,
        thread: ThreadId,
        surface: Surface,
        size: SurfaceSize,
        xf: &X,
        vp: &P,
    ) -> (r: Result<Vec<Line>, GlxError>)
        requires
            old(self).wf(),
            total_transform(xf),
            total_viewport(vp),
        ensures
            final(self).wf(),
            match r {
                Ok(lines) => {
                    &&& old(self)@.finalize_error(thread, surface) is None
                    &&& final(self)@ == old(self)@.finalized(thread)
                    &&& renders(xf, vp, size, old(self)@.frame_plan(thread), lines@)
                },
                Err(e) => {
                    &&& old(self)@.finalize_error(thread, surface) == Some(e)
                    &&& final(self)@ == old(self)@
                },
            },
    {
        let slot: Option<usize> = match self.slots.get(&thread) {
            Some(i) => Some(*i),
            None => None,
        };
        match slot {
            None => Err(GlxError::NotCurrent),
            Some(i) => {
                let drawn = self.contexts[i].finalize(surface, size, xf, vp);
                proof {
                    if drawn is Ok {
                        assert(self@.contexts =~= old(self)@.finalized(thread).contexts);
                        lemma_finalized_wf(old(self)@, thread);
                    } else {
                        assert(self@.contexts =~= old(self)@.contexts);
                    }
                }
                drawn
            },
        }
    }
}

} // verus!
