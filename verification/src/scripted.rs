use vstd::prelude::*;

use crate::cutter::{Cutter, MoveResult};
use crate::job::Action;
use crate::units::{Millimeters, Position};

verus! {

/// A backend double that replays a fixed sequence of travel outcomes,
/// standing in for hardware whose travel may be interrupted: the k-th
/// travel call reports the k-th scripted outcome, and `Done` once the
/// script is exhausted. It lets a run's abort handling be exercised
/// without physical lines.
pub struct ScriptedCutter {
    /// The outcome of each travel call, in order.
    pub script: Vec<MoveResult>,
    /// How many travel calls have been served.
    pub served: usize,
    /// The tracked position; travel that reports `Stopped` leaves it
    /// where it was.
    pub pos: Position<Millimeters>,
    /// Whether the backend is between `begin` and `end`.
    pub active: bool,
    /// Every call received so far, oldest first.
    pub trace: Vec<Action>,
}

impl ScriptedCutter {
    /// A fresh double at the origin that will replay the given script.
    pub fn new(script: Vec<MoveResult>) -> (s: ScriptedCutter)
        ensures
            s.inv(),
            !s.active,
            s.trace@ == Seq::<Action>::empty(),
            s.script == script,
            s.served == 0,
            s.pos == (Position { x: Millimeters(0), y: Millimeters(0) }),
    {
        return ScriptedCutter {
            script,
            served: 0,
            pos: Position { x: Millimeters(0), y: Millimeters(0) },
            active: false,
            trace: Vec::new(),
        };
    }

    /// The outcome the k-th travel call reports: the k-th scripted one,
    /// `Done` once the script is exhausted.
    pub open spec fn outcome(script: Seq<MoveResult>, served: nat) -> MoveResult {
        if served < script.len() {
            script[served as int]
        } else {
            MoveResult::Done
        }
    }

    /// How many outcomes have been served after one more travel call.
    pub open spec fn served_after(script: Seq<MoveResult>, served: nat) -> nat {
        if served < script.len() {
            served + 1
        } else {
            served
        }
    }

    /// The next scripted outcome, `Done` once the script is exhausted.
    fn next_outcome(&mut self) -> (r: MoveResult)
        requires
            old(self).inv(),
        ensures
            final(self).inv(),
            r == Self::outcome(old(self).script@, old(self).served as nat),
            final(self).served as nat == Self::served_after(
                old(self).script@,
                old(self).served as nat,
            ),
            final(self).script == old(self).script,
            final(self).pos == old(self).pos,
            final(self).active == old(self).active,
            final(self).trace == old(self).trace,
    {
        if self.served < self.script.len() {
            let r = self.script[self.served];
            self.served = self.served + 1;
            return r;
        }
        return MoveResult::Done;
    }
}

impl Cutter for ScriptedCutter {
    open spec fn inv(&self) -> bool {
        self.served <= self.script@.len()
    }

    open spec fn log(&self) -> Seq<Action> {
        self.trace@
    }

    /// A script may hold `Stopped`, so nothing promises `Done`.
    open spec fn never_stops(&self) -> bool {
        false
    }

    open spec fn active(&self) -> bool {
        self.active
    }

    open spec fn at_target(&self, pos: Position<Millimeters>) -> bool {
        self.pos == pos
    }

    /// Activation consumes no scripted outcome and moves nothing.
    fn begin(&mut self)
        ensures
            final(self).script == old(self).script,
            final(self).served == old(self).served,
            final(self).pos == old(self).pos,
    {
        self.active = true;
        self.trace.push(Action::Begin);
    }

    /// Deactivation consumes no scripted outcome and moves nothing.
    fn end(&mut self)
        ensures
            final(self).script == old(self).script,
            final(self).served == old(self).served,
            final(self).pos == old(self).pos,
    {
        self.active = false;
        self.trace.push(Action::End);
    }

    /// The call reports exactly the next scripted outcome; on `Done` the
    /// tracked position moves to the target, on `Stopped` it stays put.
    fn move_to(&mut self, pos: Position<Millimeters>) -> (r: MoveResult)
        ensures
            r == Self::outcome(old(self).script@, old(self).served as nat),
            final(self).script == old(self).script,
            final(self).served as nat == Self::served_after(
                old(self).script@,
                old(self).served as nat,
            ),
            r == MoveResult::Done ==> final(self).pos == pos,
            r != MoveResult::Done ==> final(self).pos == old(self).pos,
            final(self).active == old(self).active,
    {
        self.trace.push(Action::MoveTo { pos });
        let r = self.next_outcome();
        if r == MoveResult::Done {
            self.pos = pos;
        }
        return r;
    }

    /// As `move_to`: the next scripted outcome decides.
    fn line_to(&mut self, pos: Position<Millimeters>) -> (r: MoveResult)
        ensures
            r == Self::outcome(old(self).script@, old(self).served as nat),
            final(self).script == old(self).script,
            final(self).served as nat == Self::served_after(
                old(self).script@,
                old(self).served as nat,
            ),
            r == MoveResult::Done ==> final(self).pos == pos,
            r != MoveResult::Done ==> final(self).pos == old(self).pos,
            final(self).active == old(self).active,
    {
        self.trace.push(Action::LineTo { pos });
        let r = self.next_outcome();
        if r == MoveResult::Done {
            self.pos = pos;
        }
        return r;
    }
}

} // verus!
