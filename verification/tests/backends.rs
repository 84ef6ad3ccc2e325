use firmware::cutter::{Cutter, MoveResult};
use firmware::gpio::{choose_dir, GPIOCutter, GPIOPinLayout};
use firmware::job::{Action, Job};
use firmware::scripted::ScriptedCutter;
use firmware::turtle::TurtleCutter;
use firmware::units::{Dir, Millimeters, Position, Steps};

fn at(x: i64, y: i64) -> Position<Millimeters> {
    Position { x: Millimeters(x), y: Millimeters(y) }
}

#[test]
fn simulation_starts_at_origin_pen_up_inactive() {
    let t = TurtleCutter::new();
    assert_eq!(t.pos, at(0, 0));
    assert!(!t.pen_down);
    assert!(!t.active);
    assert!(t.trace.is_empty());
}

#[test]
fn simulation_never_stops_and_plays_the_whole_job() {
    let polys = vec![
        vec![at(0, 0), at(1000, 0), at(1000, 1000)],
        vec![at(5000, 5000), at(6000, 5000)],
    ];
    let job = Job::new(&polys);
    let mut turtle = TurtleCutter::new();

    let result = job.run(&mut turtle);

    assert_eq!(result, MoveResult::Done);
    assert_eq!(turtle.trace, job.actions);
    assert_eq!(turtle.pos, at(6000, 5000));
    assert!(turtle.pen_down);
    assert!(!turtle.active);
}

#[test]
fn simulation_raises_and_lowers_the_pen() {
    let mut turtle = TurtleCutter::new();
    turtle.begin();
    assert_eq!(turtle.move_to(at(10, 20)), MoveResult::Done);
    assert!(!turtle.pen_down);
    assert_eq!(turtle.line_to(at(30, 20)), MoveResult::Done);
    assert!(turtle.pen_down);
    assert_eq!(turtle.pos, at(30, 20));
    turtle.end();
    assert_eq!(
        turtle.trace,
        vec![
            Action::Begin,
            Action::MoveTo { pos: at(10, 20) },
            Action::LineTo { pos: at(30, 20) },
            Action::End,
        ]
    );
}

#[test]
fn stopped_travel_aborts_the_rest_and_ends_exactly_once() {
    let polys = vec![vec![at(100, 0), at(200, 0), at(300, 0)]];
    let job = Job::new(&polys);
    // First travel succeeds, second is interrupted.
    let mut cutter = ScriptedCutter::new(vec![MoveResult::Done, MoveResult::Stopped]);

    let result = job.run(&mut cutter);

    assert_eq!(result, MoveResult::Stopped);
    assert_eq!(
        cutter.trace,
        vec![
            Action::Begin,
            Action::MoveTo { pos: at(100, 0) },
            Action::LineTo { pos: at(200, 0) },
            Action::End,
        ]
    );
    let ends = cutter.trace.iter().filter(|a| **a == Action::End).count();
    assert_eq!(ends, 1);
    // The interrupted travel left the tracked position where it was.
    assert_eq!(cutter.pos, at(100, 0));
}

#[test]
fn exhausted_script_means_every_travel_succeeds() {
    let polys = vec![vec![at(1, 1), at(2, 2)]];
    let job = Job::new(&polys);
    let mut cutter = ScriptedCutter::new(vec![]);

    let result = job.run(&mut cutter);

    assert_eq!(result, MoveResult::Done);
    assert_eq!(cutter.trace, job.actions);
    assert_eq!(cutter.pos, at(2, 2));
}

#[test]
fn frame_only_job_still_begins_and_ends() {
    let polys: Vec<Vec<Position<Millimeters>>> = vec![];
    let job = Job::new(&polys);
    let mut turtle = TurtleCutter::new();

    let result = job.run(&mut turtle);

    assert_eq!(result, MoveResult::Done);
    assert_eq!(turtle.trace, vec![Action::Begin, Action::End]);
    assert_eq!(turtle.pos, at(0, 0));
}

#[test]
fn direction_follows_the_sign_of_the_difference() {
    assert_eq!(choose_dir(Steps(0), Steps(5)), Dir::Plus);
    assert_eq!(choose_dir(Steps(5), Steps(0)), Dir::Minus);
    assert_eq!(choose_dir(Steps(-3), Steps(-2)), Dir::Plus);
    assert_eq!(choose_dir(Steps(3), Steps(3)), Dir::Minus);
}

#[test]
fn direction_rule_converges_in_exactly_the_distance() {
    let target = Steps(-2);
    let mut pos = Steps(3);
    let mut count: u32 = 0;
    while pos != target {
        let step = match choose_dir(pos, target) {
            Dir::Minus => -1,
            Dir::Plus => 1,
        };
        pos = Steps(pos.raw_value() + step);
        count += 1;
        assert!(count <= 5, "the stepping rule must not overshoot");
    }
    assert_eq!(count, 5);
}

#[test]
fn hardware_backend_reports_init_error_without_the_peripheral() {
    // This machine has no GPIO peripheral, so claiming the lines must
    // surface a hardware initialization error instead of panicking.
    let layout = GPIOPinLayout {
        x_ena_pin: 21,
        x_dir_pin: 20,
        x_pul_pin: 16,
        x_stp_pin: 12,
        y_ena_pin: 13,
        y_dir_pin: 19,
        y_pul_pin: 26,
        y_stp_pin: 6,
    };
    let result = GPIOCutter::new(layout);
    assert!(result.is_err());
}
