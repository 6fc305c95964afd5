use mecanum::CalibratorState;
use mecanum::Motion;
use mecanum::calibration_key;
use mecanum::decimal_string;

#[test]
fn decimals_render_without_leading_zeros() {
    assert_eq!(decimal_string(0).as_str(), "0");
    assert_eq!(decimal_string(7).as_str(), "7");
    assert_eq!(decimal_string(1234).as_str(), "1234");
    assert_eq!(decimal_string(u64::MAX).as_str(), "18446744073709551615");
}

#[test]
fn keys_render_duty_with_two_decimals_and_padded_repetition() {
    let st = CalibratorState { motion: Motion::Forward, duty_cycle: 500, repetition: 0 };
    assert_eq!(calibration_key(&st).as_str(), "f_0.50_00");

    let st = CalibratorState { motion: Motion::Backward, duty_cycle: 1000, repetition: 7 };
    assert_eq!(calibration_key(&st).as_str(), "b_1.00_07");

    let st = CalibratorState { motion: Motion::Forward, duty_cycle: 555, repetition: 42 };
    assert_eq!(calibration_key(&st).as_str(), "f_0.56_42");
}

#[test]
fn the_third_permille_digit_rounds_half_up() {
    let st = CalibratorState { motion: Motion::Forward, duty_cycle: 554, repetition: 0 };
    assert_eq!(calibration_key(&st).as_str(), "f_0.55_00");
    let st = CalibratorState { motion: Motion::Forward, duty_cycle: 555, repetition: 0 };
    assert_eq!(calibration_key(&st).as_str(), "f_0.56_00");
}
