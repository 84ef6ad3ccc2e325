use vstd::prelude::*;

use crate::cutter::{Cutter, MoveResult};
use crate::units::{Millimeters, Position};

verus! {

/// One immutable instruction of a toolpath.
#[derive(Debug, PartialEq, Eq, Structural, Copy, Clone)]
pub enum Action {
    Begin,
    End,

    MoveTo { pos: Position<Millimeters> },
    LineTo { pos: Position<Millimeters> },
}

/// Whether an action is one of the two travel instructions.
pub open spec fn is_travel(a: Action) -> bool {
    a is MoveTo || a is LineTo
}

/// The actions tracing one polyline: raise the tool and move to its first
/// point, then draw to every later point in order.
pub open spec fn poly_actions(poly: Seq<Position<Millimeters>>) -> Seq<Action>
    recommends
        poly.len() >= 1,
{
    seq![Action::MoveTo { pos: poly[0] }] + poly.skip(1).map_values(
        |p: Position<Millimeters>| Action::LineTo { pos: p },
    )
}

/// The travel actions of an ordered list of polylines.
pub open spec fn travel_actions(polys: Seq<Seq<Position<Millimeters>>>) -> Seq<Action>
    decreases polys.len(),
{
    if polys.len() == 0 {
        Seq::empty()
    } else {
        poly_actions(polys[0]) + travel_actions(polys.skip(1))
    }
}

/// The full compiled sequence: `Begin`, the travel actions of every
/// polyline in order, `End`. The tool is raised (`MoveTo`) between disjoint
/// sub-paths and lowered (`LineTo`) only along a continuous sub-path.
pub open spec fn compiled_actions(polys: Seq<Seq<Position<Millimeters>>>) -> Seq<Action> {
    seq![Action::Begin] + travel_actions(polys) + seq![Action::End]
}

/// The target of a travel action.
pub open spec fn travel_target(a: Action) -> Position<Millimeters>
    recommends
        is_travel(a),
{
    match a {
        Action::MoveTo { pos } => pos,
        Action::LineTo { pos } => pos,
        Action::Begin => arbitrary(),
        Action::End => arbitrary(),
    }
}

/// The point sequences of a list of polylines.
pub open spec fn view_polylines(polys: Seq<Vec<Position<Millimeters>>>) -> Seq<
    Seq<Position<Millimeters>>,
> {
    polys.map_values(|p: Vec<Position<Millimeters>>| p@)
}

/// An ordered, immutable action sequence, built once from parsed path data
/// and replayed exactly once against a backend.
pub struct Job {
    pub actions: Vec<Action>,
}

impl Job {
    /// The shape every compiled job has: `Begin` first, `End` last, only
    /// travel in between.
    pub open spec fn wf(&self) -> bool {
        &&& self.actions@.len() >= 2
        &&& self.actions@[0] == Action::Begin
        &&& self.actions@[self.actions@.len() - 1] == Action::End
        &&& forall|i: int|
            1 <= i < self.actions@.len() - 1 ==> is_travel(#[trigger] self.actions@[i])
    }

    /// Compiles an ordered collection of polylines, each a non-empty point
    /// sequence as the path parser hands them out, into the action sequence
    /// that `compiled_actions` describes.
    pub fn new(polylines: &Vec<Vec<Position<Millimeters>>>) -> (job: Job)
        requires
            forall|i: int|
                0 <= i < polylines@.len() ==> #[trigger] polylines@[i]@.len() >= 1,
        ensures
            job.actions@ == compiled_actions(view_polylines(polylines@)),
            job.wf(),
    {
        let ghost polys = view_polylines(polylines@);
        let mut actions: Vec<Action> = Vec::new();

        actions.push(Action::Begin);

        let mut i: usize = 0;
        while i < polylines.len()
            invariant
                0 <= i <= polylines@.len(),
                polys == view_polylines(polylines@),
                forall|k: int|
                    0 <= k < polylines@.len() ==> #[trigger] polylines@[k]@.len() >= 1,
                actions@ =~= seq![Action::Begin] + travel_actions(polys.take(i as int)),
            decreases polylines@.len() - i,
        {
            let poly = &polylines[i];
            assert(polys[i as int] == poly@);

            actions.push(Action::MoveTo { pos: poly[0] });

            let mut j: usize = 1;
            while j < poly.len()
                invariant
                    1 <= j <= poly@.len(),
                    poly@.len() >= 1,
                    actions@ =~= seq![Action::Begin] + travel_actions(polys.take(i as int))
                        + poly_actions(poly@.take(j as int)),
                decreases poly@.len() - j,
            {
                actions.push(Action::LineTo { pos: poly[j] });
                proof {
                    lemma_poly_actions_take_step(poly@, j as int);
                }
                j = j + 1;
            }

            proof {
                assert(poly@.take(poly@.len() as int) =~= poly@);
                lemma_travel_actions_take_step(polys, i as int);
            }
            i = i + 1;
        }

        actions.push(Action::End);

        proof {
            assert(polys.take(polys.len() as int) =~= polys);
            assert(actions@ =~= compiled_actions(polys));
            lemma_travel_actions_all_travel(polys);
        }

        return Job { actions };
    }

    /// Interprets the action sequence strictly in order against the backend.
    ///
    /// A normal run issues `begin`, every travel action, then `end`, and
    /// reports `Done`. When a travel call reports `Stopped`, the run issues
    /// no action placed after it: it calls `end` out of sequence, reports
    /// `Stopped`, and the trailing `End` action is never separately played,
    /// so `end` is called exactly once per run on either path.
    pub fn run<C: Cutter>(&self, cutter: &mut C) -> (r: MoveResult)
        requires
            old(cutter).inv(),
            self.wf(),
        ensures
            final(cutter).inv(),
            final(cutter).never_stops() == old(cutter).never_stops(),
            old(cutter).never_stops() ==> r == MoveResult::Done,
            r == MoveResult::Done ==> final(cutter).log() == old(cutter).log() + self.actions@,
            r == MoveResult::Done && self.actions@.len() > 2 ==> final(cutter).at_target(
                travel_target(self.actions@[self.actions@.len() - 2]),
            ),
            r == MoveResult::Stopped ==> exists|k: int|
                1 <= k < self.actions@.len() - 1 && final(cutter).log() == old(cutter).log()
                    + #[trigger] self.actions@.take(k + 1).push(Action::End),
    {
        let ghost entry_log = old(cutter).log();

        cutter.begin();
        proof {
            assert(entry_log.push(Action::Begin) =~= entry_log + self.actions@.take(1));
        }

        let n = self.actions.len();
        let mut i: usize = 1;
        while i < n - 1
            invariant
                cutter.inv(),
                cutter.active(),
                cutter.never_stops() == old(cutter).never_stops(),
                self.wf(),
                n == self.actions@.len(),
                entry_log == old(cutter).log(),
                1 <= i <= n - 1,
                cutter.log() == entry_log + self.actions@.take(i as int),
                i > 1 ==> cutter.at_target(travel_target(self.actions@[i - 1])),
            decreases n - 1 - i,
        {
            let act = self.actions[i];
            let stopped: bool = match act {
                Action::MoveTo { pos } => cutter.move_to(pos) == MoveResult::Stopped,
                Action::LineTo { pos } => cutter.line_to(pos) == MoveResult::Stopped,
                Action::Begin => {
                    proof {
                        assert(false);
                    }
                    false
                },
                Action::End => {
                    proof {
                        assert(false);
                    }
                    false
                },
            };
            proof {
                assert((entry_log + self.actions@.take(i as int)).push(self.actions@[i as int])
                    =~= entry_log + self.actions@.take(i + 1));
            }
            if stopped {
                cutter.end();
                proof {
                    assert(cutter.log() =~= entry_log + self.actions@.take(i + 1).push(
                        Action::End,
                    ));
                }
                return MoveResult::Stopped;
            }
            i = i + 1;
        }

        cutter.end();
        proof {
            assert(self.actions@.take(n - 1).push(Action::End) =~= self.actions@);
            assert((entry_log + self.actions@.take(n - 1)).push(Action::End) =~= entry_log
                + self.actions@);
        }
        return MoveResult::Done;
    }
}

/// Taking one more polyline appends exactly that polyline's actions.
proof fn lemma_travel_actions_take_step(polys: Seq<Seq<Position<Millimeters>>>, i: int)
    requires
        0 <= i < polys.len(),
    ensures
        travel_actions(polys.take(i + 1)) =~= travel_actions(polys.take(i)) + poly_actions(
            polys[i],
        ),
    decreases i,
{
    if i == 0 {
        assert(polys.take(0) =~= Seq::<Seq<Position<Millimeters>>>::empty());
        assert(polys.take(1).skip(1) =~= Seq::<Seq<Position<Millimeters>>>::empty());
        assert(polys.take(1)[0] == polys[0]);
    } else {
        lemma_travel_actions_take_step(polys.skip(1), i - 1);
        assert(polys.take(i + 1).skip(1) =~= polys.skip(1).take(i));
        assert(polys.take(i).skip(1) =~= polys.skip(1).take(i - 1));
        assert(polys.take(i + 1)[0] == polys[0]);
        assert(polys.take(i)[0] == polys[0]);
        assert(polys.skip(1)[i - 1] == polys[i]);
    }
}

/// Taking one more point appends exactly one lowered-tool travel.
proof fn lemma_poly_actions_take_step(poly: Seq<Position<Millimeters>>, j: int)
    requires
        1 <= j < poly.len(),
    ensures
        poly_actions(poly.take(j + 1)) =~= poly_actions(poly.take(j)).push(
            Action::LineTo { pos: poly[j] },
        ),
{
    let f = |p: Position<Millimeters>| Action::LineTo { pos: p };
    assert(poly.take(j + 1).skip(1) =~= poly.take(j).skip(1).push(poly[j]));
    assert(poly.take(j + 1).skip(1).map_values(f) =~= poly.take(j).skip(1).map_values(f).push(
        f(poly[j]),
    ));
}

/// Every action the polylines compile to is a travel instruction: `Begin`
/// and `End` come only from the frame around them.
proof fn lemma_travel_actions_all_travel(polys: Seq<Seq<Position<Millimeters>>>)
    ensures
        forall|k: int|
            0 <= k < travel_actions(polys).len() ==> is_travel(#[trigger] travel_actions(polys)[k]),
    decreases polys.len(),
{
    if polys.len() > 0 {
        lemma_travel_actions_all_travel(polys.skip(1));
        let head = poly_actions(polys[0]);
        assert forall|k: int|
            0 <= k < travel_actions(polys).len() implies is_travel(
            #[trigger] travel_actions(polys)[k],
        ) by {
            if k < head.len() {
                if k >= 1 {
                    assert(head[k] == polys[0].skip(1).map_values(
                        |p: Position<Millimeters>| Action::LineTo { pos: p },
                    )[k - 1]);
                }
            } else {
                assert(travel_actions(polys)[k] == travel_actions(polys.skip(1))[k - head.len()]);
            }
        }
    }
}

} // verus!
