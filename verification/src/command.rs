//! Recordable commands and the queue that holds them between frames.

use vstd::prelude::*;
use crate::geometry::{Matrix4, Point3};

verus! {

/// The two matrices of a transform state.
#[derive(Clone, Copy, Debug, PartialEq, Eq, Structural)]
pub enum MatrixSlot {
    Modelview,
    Projection,
}

/// A recorded operation with its operands.
#[derive(Clone, Copy, Debug, PartialEq, Eq)]
pub enum Command {
    /// Submit a vertex in object space.
    SetVertex(Point3),
    /// Replace one of the two matrices.
    SetMatrix(MatrixSlot, Matrix4),
    /// Any other operation, by its opcode. It is recorded and has no effect.
    Other(u32),
}

/// The commands recorded since the last frame boundary, oldest first.
#[derive(Debug)]
pub struct CommandQueue {
    items: Vec<Command>,
}

impl View for CommandQueue {
    type V = Seq<Command>;

    closed spec fn view(&self) -> Seq<Command> {
        self.items@
    }
}

impl CommandQueue {
    /// The empty queue.
    pub fn new() -> (q: CommandQueue)
        ensures
            q@ == Seq::<Command>::empty(),
    {
        CommandQueue { items: Vec::new() }
    }

    /// The number of recorded commands.
    pub fn len(&self) -> (n: usize)
        ensures
            n == self@.len(),
    {
        self.items.len()
    }

    /// Whether nothing is recorded.
    pub fn is_empty(&self) -> (b: bool)
        ensures
            b == (self@.len() == 0),
    {
        self.items.len() == 0
    }

    /// Appends `cmd` behind everything recorded so far.
    pub fn push(&mut self, cmd: Command)
        ensures
            final(self)@ == old(self)@.push(cmd),
    {
        self.items.push(cmd);
    }

    /// Takes every recorded command out, oldest first, and leaves the queue
    /// empty.
    pub fn drain(&mut self) -> (taken: Vec<Command>)
        ensures
            taken@ == old(self)@,
            final(self)@ == Seq::<Command>::empty(),
    {
        let mut taken: Vec<Command> = Vec::new();
        std::mem::swap(&mut self.items, &mut taken);
        taken
    }
}

} // verus!
