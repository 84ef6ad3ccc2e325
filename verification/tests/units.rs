use firmware::units::{Millimeters, Steps};

#[test]
fn to_steps_truncates_toward_zero() {
    // 0.04 mm per step, in thousandths of a millimeter.
    let scale = Millimeters(40);
    assert_eq!(Millimeters(1000).to_steps(scale), Steps(25));
    assert_eq!(Millimeters(390).to_steps(scale), Steps(9));
}

#[test]
fn to_steps_negative_input_truncates_toward_zero() {
    let scale = Millimeters(40);
    assert_eq!(Millimeters(-390).to_steps(scale), Steps(-9));
    assert_eq!(Millimeters(-1000).to_steps(scale), Steps(-25));
}

#[test]
fn to_millimeters_is_exact() {
    let scale = Millimeters(40);
    assert_eq!(Steps(25).to_millimeters(scale), Millimeters(1000));
    assert_eq!(Steps(-9).to_millimeters(scale), Millimeters(-360));
    assert_eq!(Steps(0).to_millimeters(scale), Millimeters(0));
}

#[test]
fn round_trip_is_lossy_unless_distance_is_whole_steps() {
    let scale = Millimeters(40);
    // A whole number of steps survives the round trip.
    let exact = Millimeters(1000);
    assert_eq!(exact.to_steps(scale).to_millimeters(scale), Millimeters(1000));
    // Anything else is truncated down to the last whole step.
    let inexact = Millimeters(390);
    assert_eq!(inexact.to_steps(scale).to_millimeters(scale), Millimeters(360));
}

#[test]
fn raw_values_hand_back_the_wrapped_count() {
    assert_eq!(Steps(7).raw_value(), 7);
    assert_eq!(Steps(-3).raw_value(), -3);
    assert_eq!(Millimeters(250).raw_value(), 250);
}
