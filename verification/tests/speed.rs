use mecanum::Speed;
use mecanum::velocity_mm_s;

#[test]
fn presets_map_to_their_duty_cycles() {
    assert_eq!(Speed::Low.get_duty_cycle(), 300);
    assert_eq!(Speed::Medium.get_duty_cycle(), 600);
    assert_eq!(Speed::High.get_duty_cycle(), 1000);
    assert_eq!(Speed::Manual(450).get_duty_cycle(), 450);
}

#[test]
fn manual_duty_above_full_power_is_invalid() {
    assert!(Speed::Manual(1000).is_valid());
    assert!(!Speed::Manual(1001).is_valid());
    assert!(Speed::Low.is_valid());
}

#[test]
fn velocity_matches_the_calibration_anchors() {
    assert_eq!(Speed::Low.get_velocity(), 329);
    assert_eq!(Speed::Medium.get_velocity(), 575);
    assert_eq!(Speed::High.get_velocity(), 690);
}

#[test]
fn velocity_is_zero_below_the_motion_threshold() {
    assert_eq!(velocity_mm_s(0), 0);
    assert_eq!(velocity_mm_s(100), 0);
    assert_eq!(velocity_mm_s(250), 0);
}

#[test]
fn velocity_interpolates_between_anchors() {
    // Between the anchors at 250 (0 mm/s) and 300 (329 mm/s):
    // 329 * 25 / 50 = 164.
    assert_eq!(velocity_mm_s(275), 164);
    // Between the anchors at 450 (499 mm/s) and 500 (528 mm/s):
    // 499 + 29 * 25 / 50 = 513.
    assert_eq!(velocity_mm_s(475), 513);
}

#[test]
fn velocity_is_monotone_over_the_whole_duty_range() {
    let mut previous = velocity_mm_s(0);
    let mut duty: u16 = 1;
    while duty <= 1000 {
        let v = velocity_mm_s(duty);
        assert!(previous <= v, "velocity decreased at duty {}", duty);
        previous = v;
        duty += 1;
    }
}

#[test]
fn rpm_scales_velocity_by_the_wheel_circumference() {
    // 60 s / 0.25 m circumference = 240 revolutions per meter
    // traveled in one minute; reported in thousandths.
    assert_eq!(Speed::Low.get_rpm(), 240 * 329);
    assert_eq!(Speed::High.get_rpm(), 240 * 690);
}
