use mecanum::Distance;
use mecanum::DriveMessage;
use mecanum::Error;
use mecanum::HcSr04Measurement;
use mecanum::HcSr04Message;
use mecanum::HcSr04Response;
use mecanum::HcSr04Result;
use mecanum::Motion;
use mecanum::Recipient;
use mecanum::ScanStep;
use mecanum::Scanner;
use mecanum::ScannerAction;
use mecanum::ScannerMessage;
use mecanum::Speed;

fn started_scanner(resolution: usize, now_ms: u64) -> Scanner {
    let mut scanner = Scanner::new(Speed::Low, 0, resolution);
    let action = scanner.handle(
        &ScannerMessage::Start { speed: Speed::Low, slip_permille: 0, resolution },
        now_ms,
    );
    assert_eq!(
        action,
        ScannerAction::BeginScan(DriveMessage::Enable {
            motion: Motion::RightRot,
            speed: Speed::Low,
        })
    );
    scanner
}

#[test]
fn a_start_rotates_right_and_issues_exactly_resolution_requests() {
    let mut scanner = started_scanner(10, 1000);
    let actions = scanner.run_scan();
    assert_eq!(actions.len(), 11);
    for i in 0..10 {
        // The full turn takes 2 * pi * 110 mm at 329 mm/s: 2101 ms,
        // split over 10 samples: 210 ms each.
        assert_eq!(
            actions[i],
            ScanStep::Sample {
                request: HcSr04Message::Single(Recipient::Scanner),
                wait_ms: 210,
            }
        );
    }
    assert_eq!(actions[10], ScanStep::Finished(DriveMessage::Disable));
}

#[test]
fn a_sample_joins_the_profile_under_its_reconstructed_bearing() {
    let mut scanner = started_scanner(10, 1000);
    scanner.run_scan();
    // One interval after the start: one tenth of the revolution,
    // 36 degrees.
    let logged = scanner.on_sample(&HcSr04Response::Measured(HcSr04Measurement::Single(
        HcSr04Result { time_ms: 1210, distance: Distance::Finite(500) },
    )));
    assert!(logged.is_none());
    assert_eq!(scanner.measurements(), &vec![(36000, Distance::Finite(500))]);
}

#[test]
fn a_sample_at_the_start_bears_zero() {
    let mut scanner = started_scanner(10, 1000);
    let logged = scanner.on_sample(&HcSr04Response::Measured(HcSr04Measurement::Single(
        HcSr04Result { time_ms: 1000, distance: Distance::Finite(400) },
    )));
    assert!(logged.is_none());
    assert_eq!(scanner.measurements(), &vec![(0, Distance::Finite(400))]);
}

#[test]
fn a_batched_response_is_ignored_by_the_scanner() {
    let mut scanner = started_scanner(10, 1000);
    let logged = scanner.on_sample(&HcSr04Response::Measured(HcSr04Measurement::Multiple(vec![
        HcSr04Result { time_ms: 1210, distance: Distance::Finite(500) },
    ])));
    assert!(logged.is_none());
    assert!(scanner.measurements().is_empty());
}

#[test]
fn a_failed_measurement_is_logged_and_omitted() {
    let mut scanner = started_scanner(10, 1000);
    let logged = scanner.on_sample(&HcSr04Response::Failed(Error::Gpio(
        "echo pin blocked".to_string(),
    )));
    assert_eq!(logged.unwrap().as_str(), "GPIO error: echo pin blocked");
    assert!(scanner.measurements().is_empty());
}

#[test]
fn an_out_of_contract_start_is_rejected() {
    let mut scanner = Scanner::new(Speed::Low, 0, 10);
    let action = scanner.handle(
        &ScannerMessage::Start { speed: Speed::Low, slip_permille: 0, resolution: 0 },
        1000,
    );
    assert_eq!(action, ScannerAction::Reject);
    let action = scanner.handle(
        &ScannerMessage::Start { speed: Speed::Manual(100), slip_permille: 0, resolution: 10 },
        1000,
    );
    assert_eq!(action, ScannerAction::Reject);
}

#[test]
fn stop_halts_the_robot() {
    let mut scanner = started_scanner(10, 1000);
    let action = scanner.handle(&ScannerMessage::Stop, 2000);
    assert_eq!(
        action,
        ScannerAction::Halt(DriveMessage::Enable { motion: Motion::Stop, speed: Speed::Low })
    );
}

#[test]
fn the_slip_factor_stretches_the_sample_interval() {
    // A 20 percent slip stretches the full turn from 2101 ms to
    // 2521 ms: 252 ms per sample over 10 samples.
    let mut scanner = Scanner::new(Speed::Low, 200, 10);
    let action = scanner.handle(
        &ScannerMessage::Start { speed: Speed::Low, slip_permille: 200, resolution: 10 },
        0,
    );
    assert!(matches!(action, ScannerAction::BeginScan(_)));
    let actions = scanner.run_scan();
    assert_eq!(
        actions[0],
        ScanStep::Sample { request: HcSr04Message::Single(Recipient::Scanner), wait_ms: 252 }
    );
}
