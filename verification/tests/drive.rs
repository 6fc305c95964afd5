use mecanum::Drive;
use mecanum::DriveMessage;
use mecanum::DriveResponse;
use mecanum::Error;
use mecanum::ManeuverPlan;
use mecanum::Motion;
use mecanum::PinAction;
use mecanum::PinWrite;
use mecanum::Speed;

const PINS: [(u8, u8, u8); 4] = [(4, 17, 12), (27, 22, 5), (18, 23, 13), (14, 15, 6)];

fn test_drive() -> Drive {
    Drive::new(PINS, 100)
}

#[test]
fn a_new_drive_is_stopped_on_the_given_pins() {
    let drive = test_drive();
    let wheels = drive.wheels();
    assert_eq!(wheels.len(), 4);
    for (i, m) in wheels.iter().enumerate() {
        assert_eq!((m.fwd_pin, m.bwd_pin, m.enable_pin), PINS[i]);
        assert!(!m.fwd_high && !m.bwd_high && !m.enable_high);
        assert_eq!(m.duty_cycle, 0);
    }
    assert_eq!(drive.list_motors(), vec![(4, 17, 12), (27, 22, 5), (18, 23, 13), (14, 15, 6)]);
}

#[test]
fn enable_forward_commands_every_wheel_forward() {
    let mut drive = test_drive();
    let writes = drive.enable(Motion::Forward, Speed::Low);
    let wheels = drive.wheels();
    for m in wheels.iter() {
        assert!(m.fwd_high && !m.bwd_high && m.enable_high);
        assert_eq!(m.duty_cycle, 300);
    }
    // Four writes per wheel, wheels in order; the first wheel's
    // sequence drops the opposite leg before energizing.
    assert_eq!(writes.len(), 16);
    assert_eq!(writes[0], PinWrite { pin: 17, action: PinAction::Low });
    assert_eq!(writes[1], PinWrite { pin: 12, action: PinAction::High });
    assert_eq!(writes[2], PinWrite { pin: 4, action: PinAction::High });
    assert_eq!(writes[3], PinWrite { pin: 12, action: PinAction::Pwm(100, 300) });
}

#[test]
fn enable_right_reverses_the_left_diagonal() {
    let mut drive = test_drive();
    drive.enable(Motion::Right, Speed::Medium);
    let wheels = drive.wheels();
    assert!(wheels[0].bwd_high && !wheels[0].fwd_high);
    assert!(wheels[1].fwd_high && !wheels[1].bwd_high);
    assert!(wheels[2].bwd_high && !wheels[2].fwd_high);
    assert!(wheels[3].fwd_high && !wheels[3].bwd_high);
    for m in wheels.iter() {
        assert_eq!(m.duty_cycle, 600);
    }
}

#[test]
fn disable_stops_every_wheel() {
    let mut drive = test_drive();
    drive.enable(Motion::Forward, Speed::High);
    drive.disable();
    for m in drive.wheels().iter() {
        assert!(!m.fwd_high && !m.bwd_high && !m.enable_high);
        assert_eq!(m.duty_cycle, 0);
    }
}

#[test]
fn stop_on_a_stopped_drive_is_idempotent() {
    let mut drive = test_drive();
    let (first_resp, _, _) = drive.handle(DriveMessage::Disable);
    let after_first = drive.wheels();
    let (second_resp, _, _) = drive.handle(DriveMessage::Disable);
    let after_second = drive.wheels();
    assert_eq!(after_first, after_second);
    assert!(matches!(first_resp, DriveResponse::Accepted(DriveMessage::Disable)));
    assert!(matches!(second_resp, DriveResponse::Accepted(DriveMessage::Disable)));
}

#[test]
fn back_to_back_commands_never_interleave_pin_writes() {
    let m1 = DriveMessage::Enable { motion: Motion::Forward, speed: Speed::Low };
    let m2 = DriveMessage::Enable { motion: Motion::Left, speed: Speed::High };

    let mut batched = test_drive();
    let (_, trace) = batched.process_mailbox(&vec![m1, m2]);

    let mut sequential = test_drive();
    let (_, mut w1, _) = sequential.handle(m1);
    let (_, mut w2, _) = sequential.handle(m2);
    w1.append(&mut w2);

    assert_eq!(trace, w1);
}

#[test]
fn move_plans_enable_now_and_disable_after_the_travel_time() {
    let drive = test_drive();
    // 1000 mm at 329 mm/s: 1000 * 1000 / 329 = 3039 ms.
    let plan = drive.move_distance(Motion::Forward, Speed::Low, 1000);
    assert_eq!(
        plan,
        ManeuverPlan { motion: Motion::Forward, speed: Speed::Low, duration_ms: 3039 }
    );
}

#[test]
fn rotate_plans_the_arc_at_the_robot_radius() {
    let drive = test_drive();
    // 90 degrees: arc 2 * pi * 110 mm / 4 = 172 mm (rounded down),
    // at 329 mm/s: 172 * 1000 / 329 = 522 ms.
    let plan = drive.rotate_angle(Motion::RightRot, Speed::Low, 90000);
    assert_eq!(
        plan,
        ManeuverPlan { motion: Motion::RightRot, speed: Speed::Low, duration_ms: 522 }
    );
}

#[test]
fn handle_move_echoes_the_command_and_returns_the_plan() {
    let mut drive = test_drive();
    let msg = DriveMessage::Move { motion: Motion::Forward, speed: Speed::Low, distance_mm: 1000 };
    let (resp, writes, plan) = drive.handle(msg);
    assert!(matches!(resp, DriveResponse::Accepted(m) if m == msg));
    assert!(writes.is_empty());
    assert_eq!(
        plan,
        Some(ManeuverPlan { motion: Motion::Forward, speed: Speed::Low, duration_ms: 3039 })
    );
}

#[test]
fn handle_rejects_a_rotation_in_a_move_command() {
    let mut drive = test_drive();
    let msg = DriveMessage::Move { motion: Motion::RightRot, speed: Speed::Low, distance_mm: 100 };
    let (resp, writes, plan) = drive.handle(msg);
    assert!(matches!(resp, DriveResponse::Rejected(Error::Protocol(_))));
    assert!(writes.is_empty());
    assert!(plan.is_none());
}

#[test]
fn handle_rejects_a_straight_motion_in_a_rotate_command() {
    let mut drive = test_drive();
    let msg = DriveMessage::Rotate { motion: Motion::Forward, speed: Speed::Low, angle_mdeg: 100 };
    let (resp, _, plan) = drive.handle(msg);
    assert!(matches!(resp, DriveResponse::Rejected(Error::Protocol(_))));
    assert!(plan.is_none());
}

#[test]
fn handle_rejects_a_duty_cycle_above_full_power() {
    let mut drive = test_drive();
    let before = drive.wheels();
    let msg = DriveMessage::Enable { motion: Motion::Forward, speed: Speed::Manual(1500) };
    let (resp, writes, _) = drive.handle(msg);
    assert!(matches!(resp, DriveResponse::Rejected(Error::Protocol(_))));
    assert!(writes.is_empty());
    assert_eq!(drive.wheels(), before);
}

#[test]
fn handle_rejects_a_speed_too_low_to_move() {
    let mut drive = test_drive();
    // Duty cycle 100 permille is below the motion threshold: the
    // calibrated velocity is zero and no travel time exists.
    let msg = DriveMessage::Move { motion: Motion::Forward, speed: Speed::Manual(100), distance_mm: 100 };
    let (resp, _, plan) = drive.handle(msg);
    assert!(matches!(resp, DriveResponse::Rejected(Error::Protocol(_))));
    assert!(plan.is_none());
}

#[test]
fn move_robot_matches_enable() {
    let mut a = test_drive();
    let mut b = test_drive();
    a.move_robot(&Motion::Left, &Speed::Medium);
    b.enable(Motion::Left, Speed::Medium);
    assert_eq!(a.wheels(), b.wheels());
}
