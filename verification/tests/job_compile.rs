use firmware::job::{Action, Job};
use firmware::units::{Millimeters, Position};

fn point(x: i64, y: i64) -> Position<Millimeters> {
    Position { x: Millimeters(x), y: Millimeters(y) }
}

#[test]
fn compile_two_polylines_yields_seven_actions() {
    let polys = vec![
        vec![point(0, 0), point(1000, 0), point(1000, 1000)],
        vec![point(5000, 5000), point(6000, 5000)],
    ];
    let job = Job::new(&polys);

    assert_eq!(job.actions.len(), 7);
    assert_eq!(job.actions[0], Action::Begin);
    assert_eq!(job.actions[1], Action::MoveTo { pos: point(0, 0) });
    assert_eq!(job.actions[2], Action::LineTo { pos: point(1000, 0) });
    assert_eq!(job.actions[3], Action::LineTo { pos: point(1000, 1000) });
    assert_eq!(job.actions[4], Action::MoveTo { pos: point(5000, 5000) });
    assert_eq!(job.actions[5], Action::LineTo { pos: point(6000, 5000) });
    assert_eq!(job.actions[6], Action::End);
}

#[test]
fn compile_no_polylines_gives_only_the_frame() {
    let polys: Vec<Vec<Position<Millimeters>>> = vec![];
    let job = Job::new(&polys);
    assert_eq!(job.actions, vec![Action::Begin, Action::End]);
}

#[test]
fn compile_single_point_polyline_raises_but_never_lowers() {
    let polys = vec![vec![point(42, -7)]];
    let job = Job::new(&polys);
    assert_eq!(
        job.actions,
        vec![Action::Begin, Action::MoveTo { pos: point(42, -7) }, Action::End]
    );
}
