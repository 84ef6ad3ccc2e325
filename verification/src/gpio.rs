use vstd::prelude::*;

use crate::cutter::{Cutter, MoveResult};
use crate::job::Action;
use crate::units::{div_trunc, Dir, Millimeters, Position, Steps};

verus! {

#[verifier::external_type_specification]
#[verifier::external_body]
pub struct ExGpio(rppal::gpio::Gpio);

#[verifier::external_type_specification]
#[verifier::external_body]
pub struct ExPin(rppal::gpio::Pin);

#[verifier::external_type_specification]
#[verifier::external_body]
pub struct ExOutputPin(rppal::gpio::OutputPin);

#[verifier::external_type_specification]
#[verifier::external_body]
pub struct ExInputPin(rppal::gpio::InputPin);

#[verifier::external_type_specification]
#[verifier::external_body]
pub struct ExGpioError(rppal::gpio::Error);

#[verifier::external_type_specification]
#[verifier::external_body]
pub struct ExDelay(rppal::hal::Delay);

/// The logic level an output pin drives on its line: true for high, false
/// for low. `set_low` and `set_high` are the only operations this library
/// performs on an output pin, so the level is wholly determined by the last
/// of them.
pub uninterp spec fn pin_level(pin: rppal::gpio::OutputPin) -> bool;

/// Relies on rppal::gpio::Gpio::new: claims the GPIO peripheral; it fails
/// on a machine without one or without access to it.
#[verifier::external_body]
fn gpio_new() -> (r: Result<rppal::gpio::Gpio, rppal::gpio::Error>) {
    rppal::gpio::Gpio::new()
}

/// Relies on rppal::gpio::Gpio::get: claims the single pin with the given
/// number; it fails when the pin is not available or already in use.
#[verifier::external_body]
fn gpio_get(gpio: &rppal::gpio::Gpio, pin: u8) -> (r: Result<
    rppal::gpio::Pin,
    rppal::gpio::Error,
>) {
    gpio.get(pin)
}

/// Relies on rppal::gpio::Pin::into_output: configures the pin as an
/// output and leaves its logic level unchanged, so nothing is known of the
/// level until the first write.
#[verifier::external_body]
fn pin_into_output(pin: rppal::gpio::Pin) -> (r: rppal::gpio::OutputPin) {
    pin.into_output()
}

/// Relies on rppal::gpio::Pin::into_input_pulldown: configures the pin as
/// an input with the built-in pull-down resistor enabled.
#[verifier::external_body]
fn pin_into_input_pulldown(pin: rppal::gpio::Pin) -> (r: rppal::gpio::InputPin) {
    pin.into_input_pulldown()
}

/// Relies on rppal::gpio::OutputPin::set_low: sets the pin's driven output
/// state to low.
#[verifier::external_body]
fn pin_set_low(pin: &mut rppal::gpio::OutputPin)
    ensures
        !pin_level(*final(pin)),
{
    pin.set_low();
}

/// Relies on rppal::gpio::OutputPin::set_high: sets the pin's driven
/// output state to high.
#[verifier::external_body]
fn pin_set_high(pin: &mut rppal::gpio::OutputPin)
    ensures
        pin_level(*final(pin)),
{
    pin.set_high();
}

/// Relies on rppal::gpio::InputPin::is_low: reads the line's logic level,
/// which depends on the electrical environment alone, so nothing is stated
/// of the result.
#[verifier::external_body]
fn pin_is_low(pin: &rppal::gpio::InputPin) -> (r: bool) {
    pin.is_low()
}

/// Relies on rppal::hal::Delay::new: a handle whose delay methods block
/// the calling thread.
#[verifier::external_body]
fn delay_new() -> (d: rppal::hal::Delay) {
    rppal::hal::Delay::new()
}

/// Relies on embedded_hal::delay::DelayNs::delay_us as rppal::hal::Delay
/// implements it: blocks the calling thread for at least the given number
/// of microseconds.
#[verifier::external_body]
fn delay_us(d: &mut rppal::hal::Delay, us: u32) {
    embedded_hal::delay::DelayNs::delay_us(d, us);
}

/// How long each half of a step pulse is held, in microseconds. The driver
/// hardware needs at least this long to register a transition;
/// under-timing risks missed or double steps, so this is a hard real-time
/// constraint, not a tunable default.
pub const PULSE_WIDTH_US: u32 = 500;

/// The distance one step covers, in thousandths of a millimeter.
pub const MILLIMETERS_PER_STEP: i64 = 40;

/// Which physical lines serve each axis, by BCM pin number: enable,
/// direction, pulse, and end-stop/stall detect.
pub struct GPIOPinLayout {
    pub x_ena_pin: u8,
    pub x_dir_pin: u8,
    pub x_pul_pin: u8,
    pub x_stp_pin: u8,

    pub y_ena_pin: u8,
    pub y_dir_pin: u8,
    pub y_pul_pin: u8,
    pub y_stp_pin: u8,
}

/// Why claiming the I/O lines failed at backend construction. Mirrors the
/// GPIO peripheral's failure cases as plain values.
#[derive(Debug, Clone)]
pub enum HardwareInitError {
    UnknownModel,
    PinUsed(u8),
    PinNotAvailable(u8),
    PermissionDenied(String),
    Io(String),
    ThreadPanic,
}

/// Relies on the variants of rppal::gpio::Error: each is mirrored into the
/// library's own error, one arm each, moving its fields; the wrapped I/O
/// error is carried as its message.
#[verifier::external_body]
fn init_error_of(e: rppal::gpio::Error) -> (r: HardwareInitError) {
    match e {
        rppal::gpio::Error::UnknownModel => HardwareInitError::UnknownModel,
        rppal::gpio::Error::PinUsed(p) => HardwareInitError::PinUsed(p),
        rppal::gpio::Error::PinNotAvailable(p) => HardwareInitError::PinNotAvailable(p),
        rppal::gpio::Error::PermissionDenied(s) => HardwareInitError::PermissionDenied(s),
        rppal::gpio::Error::Io(inner) => HardwareInitError::Io(format!("{}", inner)),
        rppal::gpio::Error::ThreadPanic => HardwareInitError::ThreadPanic,
    }
}

/// The direction line's level for a commanded direction.
pub open spec fn dir_level(d: Dir) -> bool {
    d is Plus
}

/// The enable line is active-low: the level it is driven to is the
/// negation of the requested enabled state.
pub open spec fn ena_level_for(state: bool) -> bool {
    !state
}

/// Selects the direction of travel toward a target: increasing when the
/// difference between target and current is positive, decreasing when it
/// is not.
pub open spec fn dir_toward(current: int, target: int) -> Dir {
    if target - current > 0 {
        Dir::Plus
    } else {
        Dir::Minus
    }
}

/// Where one step in the given direction puts an axis.
pub open spec fn step_from(pos: int, dir: Dir) -> int {
    match dir {
        Dir::Minus => pos - 1,
        Dir::Plus => pos + 1,
    }
}

/// The number of steps between two positions.
pub open spec fn dist(a: int, b: int) -> nat {
    if b >= a {
        (b - a) as nat
    } else {
        (a - b) as nat
    }
}

/// One issued step of the coordinator: which axis moved, and which way.
pub ghost struct AxisStep {
    pub along_x: bool,
    pub dir: Dir,
}

/// The exact step sequence the two-axis loop issues from the given
/// positions to the given targets: each round steps the x axis once if it
/// is off target, then the y axis once if it is off target, until both
/// sit at their targets — the naive interleaving, deliberately not a
/// straight-line interpolation.
pub open spec fn interleaved_steps(xp: int, yp: int, tx: int, ty: int) -> Seq<AxisStep>
    decreases dist(xp, tx) + dist(yp, ty),
{
    if xp == tx && yp == ty {
        Seq::empty()
    } else if xp != tx && yp != ty {
        seq![
            AxisStep { along_x: true, dir: dir_toward(xp, tx) },
            AxisStep { along_x: false, dir: dir_toward(yp, ty) },
        ] + interleaved_steps(
            step_from(xp, dir_toward(xp, tx)),
            step_from(yp, dir_toward(yp, ty)),
            tx,
            ty,
        )
    } else if xp != tx {
        seq![AxisStep { along_x: true, dir: dir_toward(xp, tx) }] + interleaved_steps(
            step_from(xp, dir_toward(xp, tx)),
            yp,
            tx,
            ty,
        )
    } else {
        seq![AxisStep { along_x: false, dir: dir_toward(yp, ty) }] + interleaved_steps(
            xp,
            step_from(yp, dir_toward(yp, ty)),
            tx,
            ty,
        )
    }
}

/// Where an axis stands after `n` single steps, each taken toward the
/// target by the direction rule.
pub open spec fn pos_after(start: int, target: int, n: nat) -> int
    decreases n,
{
    if n == 0 {
        start
    } else {
        let prev = pos_after(start, target, (n - 1) as nat);
        step_from(prev, dir_toward(prev, target))
    }
}

/// Each step taken toward the target while off it brings the remaining
/// distance down by exactly one.
proof fn lemma_stepping_progress(start: int, target: int, n: nat)
    requires
        n <= dist(start, target),
    ensures
        dist(pos_after(start, target, n), target) == dist(start, target) - n,
    decreases n,
{
    if n > 0 {
        lemma_stepping_progress(start, target, (n - 1) as nat);
    }
}

/// Repeatedly stepping an axis toward a target with the direction rule
/// converges: after exactly the distance many steps the position is the
/// target, and after any fewer it is not — so a loop that steps only
/// while off target terminates and never asks for a step once the
/// position equals the target.
pub proof fn lemma_stepping_converges(start: int, target: int)
    ensures
        pos_after(start, target, dist(start, target)) == target,
        forall|m: nat| m < dist(start, target) ==> pos_after(start, target, m) != target,
{
    lemma_stepping_progress(start, target, dist(start, target));
    assert forall|m: nat| m < dist(start, target) implies pos_after(start, target, m)
        != target by {
        lemma_stepping_progress(start, target, m);
    }
}

/// Direction selection is a pure function of the difference between
/// target and current position: two states with the same difference are
/// sent the same way.
pub proof fn lemma_dir_pure_in_difference(c1: int, t1: int, c2: int, t2: int)
    requires
        t1 - c1 == t2 - c2,
    ensures
        dir_toward(c1, t1) == dir_toward(c2, t2),
{
}

/// The observable state of one axis: the tracked position, the last
/// commanded direction, the enabled flag, and the level driven on the
/// enable line.
pub ghost struct AxisModel {
    pub pos: int,
    pub dir: Dir,
    pub enabled: bool,
    pub ena_level: bool,
}

/// What requesting an enabled state does to an axis: it records the flag
/// and drives the enable line, touching nothing else.
pub open spec fn spec_set_enabled(m: AxisModel, state: bool) -> AxisModel {
    AxisModel { enabled: state, ena_level: ena_level_for(state), ..m }
}

/// Requesting the same enabled state twice in a row leaves an axis
/// exactly as one request does: the flag and the enable line's level are
/// functions of the request alone, and nothing else is touched.
pub proof fn lemma_set_enabled_idempotent(m: AxisModel, state: bool)
    ensures
        spec_set_enabled(spec_set_enabled(m, state), state) == spec_set_enabled(m, state),
{
}

/// One axis of the hardware backend: the per-axis stepping engine together
/// with the physical lines it exclusively owns.
pub struct GPIOAxis {
    /// Current position, relative to the power-on origin.
    pub pos: Steps,
    /// The distance one step covers; always positive.
    pub millimeters_per_steps: Millimeters,
    /// The last commanded direction.
    pub dir: Dir,
    /// Whether the motor driver is enabled.
    pub enabled: bool,

    pub ena_pin: rppal::gpio::OutputPin,
    pub dir_pin: rppal::gpio::OutputPin,
    pub pul_pin: rppal::gpio::OutputPin,

    pub stp_pin: rppal::gpio::InputPin,
}

impl GPIOAxis {
    /// The axis's observable state.
    pub open spec fn model(&self) -> AxisModel {
        AxisModel {
            pos: self.pos.0 as int,
            dir: self.dir,
            enabled: self.enabled,
            ena_level: pin_level(self.ena_pin),
        }
    }

    /// Drives the axis's enable line: the motor driver enables on a low
    /// level, so the line is driven to the negation of the requested
    /// state. Position, direction and the other lines are untouched.
    pub fn enabled(&mut self, state: bool)
        ensures
            final(self).model() == spec_set_enabled(old(self).model(), state),
            final(self).millimeters_per_steps == old(self).millimeters_per_steps,
            final(self).dir_pin == old(self).dir_pin,
            final(self).pul_pin == old(self).pul_pin,
            final(self).stp_pin == old(self).stp_pin,
    {
        if state {
            pin_set_low(&mut self.ena_pin);
        } else {
            pin_set_high(&mut self.ena_pin);
        }
        self.enabled = state;
    }

    /// Commands a direction: the direction line is driven only when the
    /// request differs from the last commanded direction, so an unchanged
    /// request leaves the line exactly as it was.
    pub fn dir(&mut self, dir: Dir)
        ensures
            final(self).dir == dir,
            final(self).pos == old(self).pos,
            final(self).enabled == old(self).enabled,
            final(self).millimeters_per_steps == old(self).millimeters_per_steps,
            final(self).ena_pin == old(self).ena_pin,
            final(self).pul_pin == old(self).pul_pin,
            final(self).stp_pin == old(self).stp_pin,
            dir != old(self).dir ==> pin_level(final(self).dir_pin) == dir_level(dir),
            dir == old(self).dir ==> final(self).dir_pin == old(self).dir_pin,
    {
        if dir != self.dir {
            match dir {
                Dir::Minus => pin_set_low(&mut self.dir_pin),
                Dir::Plus => pin_set_high(&mut self.dir_pin),
            }

            self.dir = dir;
        }
    }

    /// One physical step: commands the direction, emits one pulse (low and
    /// high each held for the minimum pulse width), and advances the
    /// position counter by exactly one step in that direction. The
    /// end-stop/stall line is sampled after the pulse, so the position is
    /// advanced even when the call reports `Stopped`; what the sample
    /// yields depends on the electrical environment alone.
    pub fn step(&mut self, dir: Dir) -> (r: MoveResult)
        requires
            dir == Dir::Plus ==> old(self).pos.0 < i64::MAX,
            dir == Dir::Minus ==> old(self).pos.0 > i64::MIN,
        ensures
            final(self).pos.0 as int == step_from(old(self).pos.0 as int, dir),
            final(self).dir == dir,
            final(self).enabled == old(self).enabled,
            final(self).millimeters_per_steps == old(self).millimeters_per_steps,
            final(self).ena_pin == old(self).ena_pin,
            final(self).stp_pin == old(self).stp_pin,
            pin_level(final(self).pul_pin),
            dir != old(self).dir ==> pin_level(final(self).dir_pin) == dir_level(dir),
            dir == old(self).dir ==> final(self).dir_pin == old(self).dir_pin,
    {
        self.dir(dir);

        pin_set_low(&mut self.pul_pin);
        let mut delay = delay_new();
        delay_us(&mut delay, PULSE_WIDTH_US);
        pin_set_high(&mut self.pul_pin);
        delay_us(&mut delay, PULSE_WIDTH_US);

        self.pos = match dir {
            Dir::Minus => Steps(self.pos.0 - 1),
            Dir::Plus => Steps(self.pos.0 + 1),
        };

        if pin_is_low(&self.stp_pin) {
            return MoveResult::Stopped;
        }

        return MoveResult::Done;
    }
}

/// Selects the direction of travel toward a target step position.
pub fn choose_dir(current: Steps, target: Steps) -> (d: Dir)
    ensures
        d == dir_toward(current.0 as int, target.0 as int),
{
    if target.0 > current.0 {
        return Dir::Plus;
    } else {
        return Dir::Minus;
    }
}

/// The hardware backend: two axis stepping engines composed into one
/// cutter, plus a ghost log of the calls issued on it and a ghost trace
/// of every single step the coordinator has taken.
pub struct GPIOCutter {
    pub x_axis: GPIOAxis,
    pub y_axis: GPIOAxis,
    pub calls: Ghost<Seq<Action>>,
    pub steps: Ghost<Seq<AxisStep>>,
}

/// The step sequence a travel from the given axis states to the given
/// target issues: the naive interleaving toward the per-axis quantized
/// step targets.
pub open spec fn travel_steps(x: GPIOAxis, y: GPIOAxis, pos: Position<Millimeters>) -> Seq<
    AxisStep,
> {
    interleaved_steps(
        x.pos.0 as int,
        y.pos.0 as int,
        div_trunc(pos.x.0 as int, x.millimeters_per_steps.0 as int),
        div_trunc(pos.y.0 as int, y.millimeters_per_steps.0 as int),
    )
}

impl GPIOCutter {
    /// Claims every line the layout names and builds the backend: both
    /// axes at the power-on origin, direction decreasing, motors not yet
    /// enabled, with the fixed per-axis scale. Fails with the mirrored
    /// hardware error when the peripheral or any line cannot be claimed.
    pub fn new(layout: GPIOPinLayout) -> (r: Result<GPIOCutter, HardwareInitError>)
        ensures
            r matches Ok(c) ==> {
                &&& c.inv()
                &&& c.log() == Seq::<Action>::empty()
                &&& !c.active()
                &&& c.x_axis.pos == (Steps(0))
                &&& c.y_axis.pos == (Steps(0))
                &&& c.x_axis.dir == Dir::Minus
                &&& c.y_axis.dir == Dir::Minus
                &&& c.x_axis.millimeters_per_steps == (Millimeters(MILLIMETERS_PER_STEP))
                &&& c.y_axis.millimeters_per_steps == (Millimeters(MILLIMETERS_PER_STEP))
                &&& c.steps@ == Seq::<AxisStep>::empty()
            },
    {
        let gpio = match gpio_new() {
            Ok(g) => g,
            Err(e) => {
                return Err(init_error_of(e));
            },
        };

        let x_ena = match gpio_get(&gpio, layout.x_ena_pin) {
            Ok(p) => p,
            Err(e) => {
                return Err(init_error_of(e));
            },
        };
        let x_dir = match gpio_get(&gpio, layout.x_dir_pin) {
            Ok(p) => p,
            Err(e) => {
                return Err(init_error_of(e));
            },
        };
        let x_pul = match gpio_get(&gpio, layout.x_pul_pin) {
            Ok(p) => p,
            Err(e) => {
                return Err(init_error_of(e));
            },
        };
        let x_stp = match gpio_get(&gpio, layout.x_stp_pin) {
            Ok(p) => p,
            Err(e) => {
                return Err(init_error_of(e));
            },
        };
        let y_ena = match gpio_get(&gpio, layout.y_ena_pin) {
            Ok(p) => p,
            Err(e) => {
                return Err(init_error_of(e));
            },
        };
        let y_dir = match gpio_get(&gpio, layout.y_dir_pin) {
            Ok(p) => p,
            Err(e) => {
                return Err(init_error_of(e));
            },
        };
        let y_pul = match gpio_get(&gpio, layout.y_pul_pin) {
            Ok(p) => p,
            Err(e) => {
                return Err(init_error_of(e));
            },
        };
        let y_stp = match gpio_get(&gpio, layout.y_stp_pin) {
            Ok(p) => p,
            Err(e) => {
                return Err(init_error_of(e));
            },
        };

        return Ok(
            GPIOCutter {
                x_axis: GPIOAxis {
                    pos: Steps(0),
                    millimeters_per_steps: Millimeters(MILLIMETERS_PER_STEP),
                    dir: Dir::Minus,
                    enabled: false,
                    ena_pin: pin_into_output(x_ena),
                    dir_pin: pin_into_output(x_dir),
                    pul_pin: pin_into_output(x_pul),
                    stp_pin: pin_into_input_pulldown(x_stp),
                },
                y_axis: GPIOAxis {
                    pos: Steps(0),
                    millimeters_per_steps: Millimeters(MILLIMETERS_PER_STEP),
                    dir: Dir::Minus,
                    enabled: false,
                    ena_pin: pin_into_output(y_ena),
                    dir_pin: pin_into_output(y_dir),
                    pul_pin: pin_into_output(y_pul),
                    stp_pin: pin_into_input_pulldown(y_stp),
                },
                calls: Ghost(Seq::empty()),
                steps: Ghost(Seq::empty()),
            },
        );
    }

    /// The two-axis synchronization loop: converts the millimeter target
    /// into per-axis step targets, then, while either axis is off target,
    /// advances each off-target axis by one step toward its target within
    /// the same iteration. The interleaving is deliberately naive — both
    /// axes drift independently, so only the final position is guaranteed,
    /// not a straight diagonal between intermediate points. The first step
    /// that reports `Stopped` halts all further stepping at once; cleanup
    /// is the caller's responsibility.
    fn travel_to(&mut self, pos: Position<Millimeters>) -> (r: MoveResult)
        requires
            old(self).inv(),
        ensures
            final(self).inv(),
            final(self).calls == old(self).calls,
            final(self).x_axis.enabled == old(self).x_axis.enabled,
            final(self).y_axis.enabled == old(self).y_axis.enabled,
            final(self).x_axis.ena_pin == old(self).x_axis.ena_pin,
            final(self).y_axis.ena_pin == old(self).y_axis.ena_pin,
            final(self).x_axis.millimeters_per_steps == old(self).x_axis.millimeters_per_steps,
            final(self).y_axis.millimeters_per_steps == old(self).y_axis.millimeters_per_steps,
            final(self).x_axis.stp_pin == old(self).x_axis.stp_pin,
            final(self).y_axis.stp_pin == old(self).y_axis.stp_pin,
            r == MoveResult::Done ==> {
                &&& final(self).x_axis.pos.0 as int == div_trunc(
                    pos.x.0 as int,
                    old(self).x_axis.millimeters_per_steps.0 as int,
                )
                &&& final(self).y_axis.pos.0 as int == div_trunc(
                    pos.y.0 as int,
                    old(self).y_axis.millimeters_per_steps.0 as int,
                )
            },
            old(self).x_axis.pos.0 as int == div_trunc(
                pos.x.0 as int,
                old(self).x_axis.millimeters_per_steps.0 as int,
            ) && old(self).y_axis.pos.0 as int == div_trunc(
                pos.y.0 as int,
                old(self).y_axis.millimeters_per_steps.0 as int,
            ) ==> r == MoveResult::Done,
            r == MoveResult::Done ==> final(self).steps@ == old(self).steps@ + travel_steps(
                old(self).x_axis,
                old(self).y_axis,
                pos,
            ),
            r == MoveResult::Stopped ==> exists|k: int|
                1 <= k <= travel_steps(old(self).x_axis, old(self).y_axis, pos).len() && final(self).steps@ == old(
                    self,
                ).steps@ + #[trigger] travel_steps(old(self).x_axis, old(self).y_axis, pos).take(k),
    {
        let final_x = pos.x.to_steps(self.x_axis.millimeters_per_steps);
        let final_y = pos.y.to_steps(self.y_axis.millimeters_per_steps);

        let ghost full = travel_steps(old(self).x_axis, old(self).y_axis, pos);

        // Travel that is already there makes no outside call and is owed
        // success.
        if self.x_axis.pos.0 == final_x.0 && self.y_axis.pos.0 == final_y.0 {
            proof {
                assert(full =~= Seq::<AxisStep>::empty());
                assert(self.steps@ + full =~= self.steps@);
            }
            return MoveResult::Done;
        }

        let ghost mut taken = Seq::<AxisStep>::empty();

        while self.x_axis.pos.0 != final_x.0 || self.y_axis.pos.0 != final_y.0
            invariant
                self.inv(),
                self.calls == old(self).calls,
                self.x_axis.enabled == old(self).x_axis.enabled,
                self.y_axis.enabled == old(self).y_axis.enabled,
                self.x_axis.ena_pin == old(self).x_axis.ena_pin,
                self.y_axis.ena_pin == old(self).y_axis.ena_pin,
                self.x_axis.millimeters_per_steps == old(self).x_axis.millimeters_per_steps,
                self.y_axis.millimeters_per_steps == old(self).y_axis.millimeters_per_steps,
                self.x_axis.stp_pin == old(self).x_axis.stp_pin,
                self.y_axis.stp_pin == old(self).y_axis.stp_pin,
                !(old(self).x_axis.pos.0 == final_x.0 && old(self).y_axis.pos.0 == final_y.0),
                final_x.0 as int == div_trunc(
                    pos.x.0 as int,
                    old(self).x_axis.millimeters_per_steps.0 as int,
                ),
                final_y.0 as int == div_trunc(
                    pos.y.0 as int,
                    old(self).y_axis.millimeters_per_steps.0 as int,
                ),
                self.steps == old(self).steps,
                full == travel_steps(old(self).x_axis, old(self).y_axis, pos),
                full =~= taken + interleaved_steps(
                    self.x_axis.pos.0 as int,
                    self.y_axis.pos.0 as int,
                    final_x.0 as int,
                    final_y.0 as int,
                ),
            decreases
                    dist(self.x_axis.pos.0 as int, final_x.0 as int) + dist(
                        self.y_axis.pos.0 as int,
                        final_y.0 as int,
                    ),
        {
            let ghost cur_x = self.x_axis.pos.0 as int;
            let ghost cur_y = self.y_axis.pos.0 as int;
            let ghost rem = interleaved_steps(cur_x, cur_y, final_x.0 as int, final_y.0 as int);

            if self.x_axis.pos.0 != final_x.0 {
                let x_dir = choose_dir(self.x_axis.pos, final_x);
                let stopped_x = self.x_axis.step(x_dir) == MoveResult::Stopped;

                proof {
                    assert(rem[0] == (AxisStep {
                        along_x: true,
                        dir: dir_toward(cur_x, final_x.0 as int),
                    }));
                    taken = taken.push(rem[0]);
                    assert(taken =~= full.take(taken.len() as int));
                }

                if stopped_x {
                    self.steps = Ghost(self.steps@ + taken);
                    proof {
                        assert(1 <= taken.len() <= full.len());
                    }
                    return MoveResult::Stopped;
                }
            }

            if self.y_axis.pos.0 != final_y.0 {
                let y_dir = choose_dir(self.y_axis.pos, final_y);
                let stopped_y = self.y_axis.step(y_dir) == MoveResult::Stopped;

                proof {
                    let y_step = AxisStep { along_x: false, dir: dir_toward(cur_y, final_y.0 as int) };
                    if cur_x != final_x.0 as int {
                        assert(rem[1] == y_step);
                    } else {
                        assert(rem[0] == y_step);
                    }
                    taken = taken.push(y_step);
                    assert(taken =~= full.take(taken.len() as int));
                }

                if stopped_y {
                    self.steps = Ghost(self.steps@ + taken);
                    proof {
                        assert(1 <= taken.len() <= full.len());
                    }
                    return MoveResult::Stopped;
                }
            }

            proof {
                assert(full =~= taken + interleaved_steps(
                    self.x_axis.pos.0 as int,
                    self.y_axis.pos.0 as int,
                    final_x.0 as int,
                    final_y.0 as int,
                ));
            }
        }

        proof {
            assert(interleaved_steps(
                self.x_axis.pos.0 as int,
                self.y_axis.pos.0 as int,
                final_x.0 as int,
                final_y.0 as int,
            ) =~= Seq::<AxisStep>::empty());
            assert(full =~= taken);
        }
        self.steps = Ghost(self.steps@ + taken);

        return MoveResult::Done;
    }
}

impl Cutter for GPIOCutter {
    /// Both per-axis scales are positive, as the unit conversion requires.
    open spec fn inv(&self) -> bool {
        self.x_axis.millimeters_per_steps.0 > 0 && self.y_axis.millimeters_per_steps.0 > 0
    }

    open spec fn log(&self) -> Seq<Action> {
        self.calls@
    }

    /// Hardware travel can always be interrupted by the end-stop line.
    open spec fn never_stops(&self) -> bool {
        false
    }

    open spec fn active(&self) -> bool {
        self.x_axis.enabled && self.y_axis.enabled
    }

    /// The tracked position matches the target in the backend's own
    /// resolution: each axis sits on the step its target quantizes to.
    open spec fn at_target(&self, pos: Position<Millimeters>) -> bool {
        &&& self.x_axis.pos.0 as int == div_trunc(
            pos.x.0 as int,
            self.x_axis.millimeters_per_steps.0 as int,
        )
        &&& self.y_axis.pos.0 as int == div_trunc(
            pos.y.0 as int,
            self.y_axis.millimeters_per_steps.0 as int,
        )
    }

    /// Activation drives both enable lines to the enabled (low) level and
    /// does nothing else: positions, directions, scales and the remaining
    /// lines are untouched, so no motion occurs.
    fn begin(&mut self)
        ensures
            final(self).x_axis.model() == spec_set_enabled(old(self).x_axis.model(), true),
            final(self).y_axis.model() == spec_set_enabled(old(self).y_axis.model(), true),
            final(self).x_axis.millimeters_per_steps == old(self).x_axis.millimeters_per_steps,
            final(self).y_axis.millimeters_per_steps == old(self).y_axis.millimeters_per_steps,
            final(self).x_axis.dir_pin == old(self).x_axis.dir_pin,
            final(self).y_axis.dir_pin == old(self).y_axis.dir_pin,
            final(self).x_axis.pul_pin == old(self).x_axis.pul_pin,
            final(self).y_axis.pul_pin == old(self).y_axis.pul_pin,
            final(self).x_axis.stp_pin == old(self).x_axis.stp_pin,
            final(self).y_axis.stp_pin == old(self).y_axis.stp_pin,
            final(self).steps == old(self).steps,
    {
        self.x_axis.enabled(true);
        self.y_axis.enabled(true);
        self.calls = Ghost(self.calls@.push(Action::Begin));
    }

    /// Deactivation drives both enable lines to the disabled (high) level
    /// and does nothing else; it is safe after an aborted travel, which is
    /// exactly how a run disables the backend.
    fn end(&mut self)
        ensures
            final(self).x_axis.model() == spec_set_enabled(old(self).x_axis.model(), false),
            final(self).y_axis.model() == spec_set_enabled(old(self).y_axis.model(), false),
            final(self).x_axis.millimeters_per_steps == old(self).x_axis.millimeters_per_steps,
            final(self).y_axis.millimeters_per_steps == old(self).y_axis.millimeters_per_steps,
            final(self).x_axis.dir_pin == old(self).x_axis.dir_pin,
            final(self).y_axis.dir_pin == old(self).y_axis.dir_pin,
            final(self).x_axis.pul_pin == old(self).x_axis.pul_pin,
            final(self).y_axis.pul_pin == old(self).y_axis.pul_pin,
            final(self).x_axis.stp_pin == old(self).x_axis.stp_pin,
            final(self).y_axis.stp_pin == old(self).y_axis.stp_pin,
            final(self).steps == old(self).steps,
    {
        self.x_axis.enabled(false);
        self.y_axis.enabled(false);
        self.calls = Ghost(self.calls@.push(Action::End));
    }

    /// Travel only steps: the enabled flags, enable lines, scales and
    /// end-stop lines are never written here, whatever the result — on
    /// `Stopped` no cleanup happens, disabling being the run's duty. A
    /// target both axes already sit at is owed `Done`, since no end-stop
    /// sample is taken.
    fn move_to(&mut self, pos: Position<Millimeters>) -> (r: MoveResult)
        ensures
            old(self).at_target(pos) ==> r == MoveResult::Done,
            final(self).x_axis.enabled == old(self).x_axis.enabled,
            final(self).y_axis.enabled == old(self).y_axis.enabled,
            final(self).x_axis.ena_pin == old(self).x_axis.ena_pin,
            final(self).y_axis.ena_pin == old(self).y_axis.ena_pin,
            final(self).x_axis.millimeters_per_steps == old(self).x_axis.millimeters_per_steps,
            final(self).y_axis.millimeters_per_steps == old(self).y_axis.millimeters_per_steps,
            final(self).x_axis.stp_pin == old(self).x_axis.stp_pin,
            final(self).y_axis.stp_pin == old(self).y_axis.stp_pin,
            r == MoveResult::Done ==> final(self).steps@ == old(self).steps@ + travel_steps(
                old(self).x_axis,
                old(self).y_axis,
                pos,
            ),
            r == MoveResult::Stopped ==> exists|k: int|
                1 <= k <= travel_steps(old(self).x_axis, old(self).y_axis, pos).len() && final(self).steps@ == old(
                    self,
                ).steps@ + #[trigger] travel_steps(old(self).x_axis, old(self).y_axis, pos).take(k),
    {
        self.calls = Ghost(self.calls@.push(Action::MoveTo { pos }));

        return self.travel_to(pos);
    }

    /// Travel while marking: the marking tool is engaged around the same
    /// coordinator loop by the owning collaborator, so the motion itself
    /// is exactly that of `move_to`, with the same frame.
    fn line_to(&mut self, pos: Position<Millimeters>) -> (r: MoveResult)
        ensures
            old(self).at_target(pos) ==> r == MoveResult::Done,
            final(self).x_axis.enabled == old(self).x_axis.enabled,
            final(self).y_axis.enabled == old(self).y_axis.enabled,
            final(self).x_axis.ena_pin == old(self).x_axis.ena_pin,
            final(self).y_axis.ena_pin == old(self).y_axis.ena_pin,
            final(self).x_axis.millimeters_per_steps == old(self).x_axis.millimeters_per_steps,
            final(self).y_axis.millimeters_per_steps == old(self).y_axis.millimeters_per_steps,
            final(self).x_axis.stp_pin == old(self).x_axis.stp_pin,
            final(self).y_axis.stp_pin == old(self).y_axis.stp_pin,
            r == MoveResult::Done ==> final(self).steps@ == old(self).steps@ + travel_steps(
                old(self).x_axis,
                old(self).y_axis,
                pos,
            ),
            r == MoveResult::Stopped ==> exists|k: int|
                1 <= k <= travel_steps(old(self).x_axis, old(self).y_axis, pos).len() && final(self).steps@ == old(
                    self,
                ).steps@ + #[trigger] travel_steps(old(self).x_axis, old(self).y_axis, pos).take(k),
    {
        self.calls = Ghost(self.calls@.push(Action::LineTo { pos }));

        return self.travel_to(pos);
    }
}

} // verus!
