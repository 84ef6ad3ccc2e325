use vstd::prelude::*;

use crate::cutter::{Cutter, MoveResult};
use crate::job::Action;
use crate::units::{Millimeters, Position};

verus! {

/// The simulation backend: instead of driving hardware it tracks the pen
/// and records every call it receives, so a development renderer can replay
/// the trace visually. It has no blocking waits and no stoppage condition,
/// so every travel call reports `Done`.
pub struct TurtleCutter {
    /// The tracked pen position.
    pub pos: Position<Millimeters>,
    /// Whether the pen is down (marking).
    pub pen_down: bool,
    /// Whether the backend is between `begin` and `end`.
    pub active: bool,
    /// Every call received so far, oldest first, for a renderer to replay.
    pub trace: Vec<Action>,
}

impl TurtleCutter {
    /// A fresh simulation backend: pen up at the origin, inactive, with an
    /// empty trace.
    pub fn new() -> (t: TurtleCutter)
        ensures
            t.pos == (Position { x: Millimeters(0), y: Millimeters(0) }),
            !t.pen_down,
            !t.active,
            t.trace@ == Seq::<Action>::empty(),
    {
        return TurtleCutter {
            pos: Position { x: Millimeters(0), y: Millimeters(0) },
            pen_down: false,
            active: false,
            trace: Vec::new(),
        };
    }
}

impl Cutter for TurtleCutter {
    open spec fn inv(&self) -> bool {
        true
    }

    open spec fn log(&self) -> Seq<Action> {
        self.trace@
    }

    open spec fn never_stops(&self) -> bool {
        true
    }

    open spec fn active(&self) -> bool {
        self.active
    }

    open spec fn at_target(&self, pos: Position<Millimeters>) -> bool {
        self.pos == pos
    }

    /// Activation has no observable effect on the drawing: the pen and the
    /// tracked position stay exactly as they were.
    fn begin(&mut self)
        ensures
            final(self).pen_down == old(self).pen_down,
            final(self).pos == old(self).pos,
    {
        self.active = true;
        self.trace.push(Action::Begin);
    }

    /// Deactivation likewise leaves the pen and the position alone.
    fn end(&mut self)
        ensures
            final(self).pen_down == old(self).pen_down,
            final(self).pos == old(self).pos,
    {
        self.active = false;
        self.trace.push(Action::End);
    }

    fn move_to(&mut self, pos: Position<Millimeters>) -> (r: MoveResult)
        ensures
            final(self).pos == pos,
            !final(self).pen_down,
            final(self).active == old(self).active,
    {
        self.pen_down = false;
        self.pos = pos;
        self.trace.push(Action::MoveTo { pos });
        return MoveResult::Done;
    }

    fn line_to(&mut self, pos: Position<Millimeters>) -> (r: MoveResult)
        ensures
            final(self).pos == pos,
            final(self).pen_down,
            final(self).active == old(self).active,
    {
        self.pen_down = true;
        self.pos = pos;
        self.trace.push(Action::LineTo { pos });
        return MoveResult::Done;
    }
}

} // verus!
