use vstd::prelude::*;

use crate::job::Action;
use crate::units::{Millimeters, Position};

verus! {

/// The outcome of one travel request: either the backend's tracked position
/// reached the target, or physical travel was interrupted on the way.
#[derive(Debug, PartialEq, Eq, Structural, Copy, Clone)]
pub enum MoveResult {
    Done,
    Stopped,
}

/// The capability every motion backend offers: enter and leave the active
/// state, travel without marking, travel while marking.
///
/// Each backend keeps a ghost log of the calls made on it, so that a caller
/// can state which requests a run issued and in what order. A backend whose
/// `never_stops` holds owes `Done` from every travel call.
pub trait Cutter: Sized {
    /// The backend's internal well-formedness.
    spec fn inv(&self) -> bool;

    /// The calls issued on this backend so far, oldest first.
    spec fn log(&self) -> Seq<Action>;

    /// Whether this backend is free of stoppage conditions.
    spec fn never_stops(&self) -> bool;

    /// Whether the backend is in its active state, entered by `begin`.
    /// Travel may only be requested while active.
    spec fn active(&self) -> bool;

    /// Whether the backend's tracked position sits exactly at the given
    /// target, in the backend's own resolution.
    spec fn at_target(&self, pos: Position<Millimeters>) -> bool;

    /// Activates the backend; called once per job before any travel.
    /// Activation moves nothing: wherever the tracked position sat, it
    /// still sits there.
    fn begin(&mut self)
        requires
            old(self).inv(),
        ensures
            final(self).inv(),
            final(self).active(),
            final(self).log() == old(self).log().push(Action::Begin),
            final(self).never_stops() == old(self).never_stops(),
            forall|p: Position<Millimeters>|
                #[trigger] final(self).at_target(p) == old(self).at_target(p),
    ;

    /// Deactivates the backend; called exactly once when a run ends,
    /// whether by completion or by abort, so an aborted run still leaves
    /// the backend disabled. Deactivation moves nothing.
    fn end(&mut self)
        requires
            old(self).inv(),
        ensures
            final(self).inv(),
            !final(self).active(),
            final(self).log() == old(self).log().push(Action::End),
            final(self).never_stops() == old(self).never_stops(),
            forall|p: Position<Millimeters>|
                #[trigger] final(self).at_target(p) == old(self).at_target(p),
    ;

    /// Travels to the target without marking. On `Done` the tracked
    /// position sits exactly at the target; on `Stopped` it may not, and no
    /// further travel may be requested without an intervening `begin`.
    fn move_to(&mut self, pos: Position<Millimeters>) -> (r: MoveResult)
        requires
            old(self).inv(),
            old(self).active(),
        ensures
            final(self).inv(),
            final(self).log() == old(self).log().push(Action::MoveTo { pos }),
            final(self).never_stops() == old(self).never_stops(),
            old(self).never_stops() ==> r == MoveResult::Done,
            r == MoveResult::Done ==> final(self).at_target(pos) && final(self).active(),
    ;

    /// Travels to the target while marking; otherwise as `move_to`.
    fn line_to(&mut self, pos: Position<Millimeters>) -> (r: MoveResult)
        requires
            old(self).inv(),
            old(self).active(),
        ensures
            final(self).inv(),
            final(self).log() == old(self).log().push(Action::LineTo { pos }),
            final(self).never_stops() == old(self).never_stops(),
            old(self).never_stops() ==> r == MoveResult::Done,
            r == MoveResult::Done ==> final(self).at_target(pos) && final(self).active(),
    ;
}

} // verus!
