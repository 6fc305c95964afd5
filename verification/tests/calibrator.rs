use mecanum::Calibrator;
use mecanum::CalibratorAction;
use mecanum::CalibratorMessage;
use mecanum::CalibratorParams;
use mecanum::Distance;
use mecanum::DriveMessage;
use mecanum::Error;
use mecanum::HcSr04Measurement;
use mecanum::HcSr04Message;
use mecanum::HcSr04Response;
use mecanum::HcSr04Result;
use mecanum::Motion;
use mecanum::Recipient;
use mecanum::Speed;
use mecanum::response_text;

fn empty_batch() -> HcSr04Response {
    HcSr04Response::Measured(HcSr04Measurement::Multiple(vec![]))
}

#[test]
fn a_sweep_produces_exactly_the_expected_keys_in_order() {
    let params = CalibratorParams::new(500, 700, 100, 5, 2);
    let mut calibrator = Calibrator::new(params);
    let expected = [
        "f_0.50_00", "b_0.50_00", "f_0.50_01", "b_0.50_01",
        "f_0.60_00", "b_0.60_00", "f_0.60_01", "b_0.60_01",
        "f_0.70_00", "b_0.70_00", "f_0.70_01", "b_0.70_01",
    ];
    let mut keys: Vec<String> = Vec::new();
    let mut legs = 0;
    loop {
        match calibrator.handle(&CalibratorMessage::Start(params)) {
            CalibratorAction::StartLeg(_, ranging) => {
                assert_eq!(ranging, HcSr04Message::Multiple(5, Recipient::Calibrator));
            },
            other => panic!("expected a leg, got {:?}", other),
        }
        let outcome = calibrator.on_measurements(&empty_batch());
        assert_eq!(
            outcome.stop,
            DriveMessage::Enable { motion: Motion::Stop, speed: Speed::Low }
        );
        keys.push(outcome.key);
        legs += 1;
        match outcome.restart_after_ms {
            Some(delay) => assert_eq!(delay, 3000),
            None => break,
        }
        assert!(legs < 100, "sweep did not terminate");
    }
    assert_eq!(legs, 12);
    let got: Vec<&str> = keys.iter().map(|k| k.as_str()).collect();
    assert_eq!(got, expected);
}

#[test]
fn each_leg_drives_the_current_motion_at_the_current_duty() {
    let params = CalibratorParams::new(500, 700, 100, 3, 2);
    let mut calibrator = Calibrator::new(params);
    match calibrator.handle(&CalibratorMessage::Start(params)) {
        CalibratorAction::StartLeg(drive, _) => {
            assert_eq!(
                drive,
                DriveMessage::Enable { motion: Motion::Forward, speed: Speed::Manual(500) }
            );
        },
        other => panic!("expected a leg, got {:?}", other),
    }
    calibrator.on_measurements(&empty_batch());
    match calibrator.handle(&CalibratorMessage::Start(params)) {
        CalibratorAction::StartLeg(drive, _) => {
            assert_eq!(
                drive,
                DriveMessage::Enable { motion: Motion::Backward, speed: Speed::Manual(500) }
            );
        },
        other => panic!("expected a leg, got {:?}", other),
    }
}

#[test]
fn stop_halts_the_robot_and_keeps_nothing_scheduled() {
    let params = CalibratorParams::new(500, 700, 100, 3, 2);
    let mut calibrator = Calibrator::new(params);
    let action = calibrator.handle(&CalibratorMessage::Stop);
    assert_eq!(
        action,
        CalibratorAction::Halt(DriveMessage::Enable { motion: Motion::Stop, speed: Speed::Low })
    );
}

#[test]
fn persisted_records_are_timestamp_comma_distance_lines() {
    let batch = HcSr04Response::Measured(HcSr04Measurement::Multiple(vec![
        HcSr04Result { time_ms: 1500, distance: Distance::Finite(321) },
        HcSr04Result { time_ms: 1750, distance: Distance::Infinite },
        HcSr04Result { time_ms: 2000, distance: Distance::Finite(98) },
    ]));
    assert_eq!(response_text(&batch).as_str(), "1500,321\n1750,inf\n2000,98");
}

#[test]
fn a_single_measurement_persists_as_one_line() {
    let single = HcSr04Response::Measured(HcSr04Measurement::Single(HcSr04Result {
        time_ms: 42,
        distance: Distance::Finite(7),
    }));
    assert_eq!(response_text(&single).as_str(), "42,7");
}

#[test]
fn a_failed_batch_persists_the_fault_description() {
    let failed = HcSr04Response::Failed(Error::Gpio("echo pin blocked".to_string()));
    assert_eq!(response_text(&failed).as_str(), "GPIO error: echo pin blocked");
}

#[test]
fn restarting_after_a_stop_begins_a_fresh_sweep() {
    let params = CalibratorParams::new(500, 700, 100, 3, 1);
    let mut calibrator = Calibrator::new(params);
    calibrator.handle(&CalibratorMessage::Start(params));
    calibrator.on_measurements(&empty_batch());
    // The gateway discards the session on Stop and creates a fresh
    // calibrator on the next start.
    calibrator.handle(&CalibratorMessage::Stop);
    let mut fresh = Calibrator::new(params);
    match fresh.handle(&CalibratorMessage::Start(params)) {
        CalibratorAction::StartLeg(drive, _) => {
            assert_eq!(
                drive,
                DriveMessage::Enable { motion: Motion::Forward, speed: Speed::Manual(500) }
            );
        },
        other => panic!("expected a leg, got {:?}", other),
    }
}
