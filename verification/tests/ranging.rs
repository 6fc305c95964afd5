use mecanum::Distance;
use mecanum::Error;
use mecanum::HcSr04;
use mecanum::HcSr04Measurement;
use mecanum::HcSr04Message;
use mecanum::HcSr04Response;
use mecanum::HcSr04Result;
use mecanum::MeasureAttempt;
use mecanum::PollResult;
use mecanum::Recipient;
use mecanum::collect_measurements;
use mecanum::mean_distance;

fn sensor() -> HcSr04 {
    // 25.00 degrees Celsius.
    HcSr04::new(26, 20, 2500)
}

fn clean_attempt(time_ms: u64, rise: PollResult, fall: PollResult, elapsed_us: u64) -> MeasureAttempt {
    MeasureAttempt {
        echo_was_high: false,
        clear_poll: PollResult::Low,
        time_ms,
        rise_poll: rise,
        fall_poll: fall,
        elapsed_us,
    }
}

#[test]
fn parameters_follow_the_temperature() {
    // 331.3 m/s + 25 * 0.606 m/s = 346.45 m/s; the falling-edge
    // timeout is 2.5 round trips at 4 m: 10^10 / 346450 = 28864 us.
    let (sound, timeout) = HcSr04::calculate_parameters(2500);
    assert_eq!(sound, 346450);
    assert_eq!(timeout, 28864);
}

#[test]
fn parameters_below_zero_degrees() {
    let (sound, _) = HcSr04::calculate_parameters(-1000);
    assert_eq!(sound, 325240);
}

#[test]
fn no_rising_edge_measures_infinite_without_failing() {
    let s = sensor();
    let r = s
        .measure_outcome(&clean_attempt(77, PollResult::TimedOut, PollResult::TimedOut, 0))
        .unwrap();
    assert_eq!(r, HcSr04Result { time_ms: 77, distance: Distance::Infinite });
}

#[test]
fn no_falling_edge_measures_infinite_without_failing() {
    let s = sensor();
    let r = s
        .measure_outcome(&clean_attempt(78, PollResult::High, PollResult::TimedOut, 0))
        .unwrap();
    assert_eq!(r, HcSr04Result { time_ms: 78, distance: Distance::Infinite });
}

#[test]
fn a_complete_pulse_measures_half_the_round_trip() {
    let s = sensor();
    // 346450 mm/s over 10000 us, halved: 1732 mm.
    let r = s
        .measure_outcome(&clean_attempt(79, PollResult::High, PollResult::Low, 10000))
        .unwrap();
    assert_eq!(r, HcSr04Result { time_ms: 79, distance: Distance::Finite(1732) });
}

#[test]
fn a_blocked_echo_line_is_a_hardware_fault() {
    let s = sensor();
    let attempt = MeasureAttempt {
        echo_was_high: true,
        clear_poll: PollResult::TimedOut,
        time_ms: 80,
        rise_poll: PollResult::TimedOut,
        fall_poll: PollResult::TimedOut,
        elapsed_us: 0,
    };
    match s.measure_outcome(&attempt) {
        Err(Error::Gpio(detail)) => assert_eq!(detail.as_str(), "echo pin blocked"),
        other => panic!("expected a GPIO fault, got {:?}", other),
    }
}

#[test]
fn a_cleared_echo_line_continues_normally() {
    let s = sensor();
    let attempt = MeasureAttempt {
        echo_was_high: true,
        clear_poll: PollResult::Low,
        time_ms: 81,
        rise_poll: PollResult::High,
        fall_poll: PollResult::Low,
        elapsed_us: 2000,
    };
    // 346450 * 2000 / 2000000 = 346 mm.
    let r = s.measure_outcome(&attempt).unwrap();
    assert_eq!(r.distance, Distance::Finite(346));
}

#[test]
fn collected_measurements_keep_their_order() {
    let a = HcSr04Result { time_ms: 1, distance: Distance::Finite(10) };
    let b = HcSr04Result { time_ms: 2, distance: Distance::Infinite };
    let c = HcSr04Result { time_ms: 3, distance: Distance::Finite(30) };
    let collected = collect_measurements(&vec![Ok(a), Ok(b), Ok(c)]).unwrap();
    assert_eq!(collected, vec![a, b, c]);
}

#[test]
fn the_first_fault_aborts_a_batch() {
    let a = HcSr04Result { time_ms: 1, distance: Distance::Finite(10) };
    let outcomes = vec![
        Ok(a),
        Err(Error::Gpio("echo pin blocked".to_string())),
        Err(Error::Io("late".to_string())),
    ];
    match collect_measurements(&outcomes) {
        Err(Error::Gpio(detail)) => assert_eq!(detail.as_str(), "echo pin blocked"),
        other => panic!("expected the first fault, got {:?}", other),
    }
}

#[test]
fn the_mean_of_an_empty_batch_is_infinite() {
    assert_eq!(mean_distance(&vec![]), Distance::Infinite);
}

#[test]
fn one_infinite_sample_makes_the_mean_infinite() {
    let rs = vec![
        HcSr04Result { time_ms: 1, distance: Distance::Finite(100) },
        HcSr04Result { time_ms: 2, distance: Distance::Infinite },
    ];
    assert_eq!(mean_distance(&rs), Distance::Infinite);
}

#[test]
fn the_mean_of_finite_samples_is_their_integer_mean() {
    let rs = vec![
        HcSr04Result { time_ms: 1, distance: Distance::Finite(1000) },
        HcSr04Result { time_ms: 2, distance: Distance::Finite(2000) },
        HcSr04Result { time_ms: 3, distance: Distance::Finite(3001) },
    ];
    assert_eq!(mean_distance(&rs), Distance::Finite(2000));
}

#[test]
fn a_single_command_answers_its_recipient_with_one_measurement() {
    let s = sensor();
    let m = HcSr04Result { time_ms: 5, distance: Distance::Finite(123) };
    let (resp, recipient) = s.handle(&HcSr04Message::Single(Recipient::WebSocket), &vec![Ok(m)]);
    assert_eq!(recipient, Recipient::WebSocket);
    match resp {
        HcSr04Response::Measured(HcSr04Measurement::Single(got)) => assert_eq!(got, m),
        other => panic!("expected a single measurement, got {:?}", other),
    }
}

#[test]
fn a_batched_command_answers_with_the_ordered_batch_or_the_fault() {
    let s = sensor();
    let a = HcSr04Result { time_ms: 1, distance: Distance::Finite(10) };
    let b = HcSr04Result { time_ms: 2, distance: Distance::Finite(20) };
    let (resp, recipient) = s.handle(
        &HcSr04Message::Multiple(2, Recipient::Calibrator),
        &vec![Ok(a), Ok(b)],
    );
    assert_eq!(recipient, Recipient::Calibrator);
    match resp {
        HcSr04Response::Measured(HcSr04Measurement::Multiple(got)) => {
            assert_eq!(got, vec![a, b])
        },
        other => panic!("expected a batch, got {:?}", other),
    }

    let (resp, recipient) = s.handle(
        &HcSr04Message::Multiple(2, Recipient::Scanner),
        &vec![Ok(a), Err(Error::Gpio("echo pin blocked".to_string()))],
    );
    assert_eq!(recipient, Recipient::Scanner);
    assert!(matches!(resp, HcSr04Response::Failed(Error::Gpio(_))));
}

#[test]
fn an_empty_batch_collects_to_an_empty_batch() {
    let collected = collect_measurements(&vec![]).unwrap();
    assert!(collected.is_empty());
}

#[test]
fn a_single_command_reports_its_fault() {
    let s = sensor();
    let (resp, recipient) = s.handle(
        &HcSr04Message::Single(Recipient::WebSocket),
        &vec![Err(Error::Gpio("echo pin blocked".to_string()))],
    );
    assert_eq!(recipient, Recipient::WebSocket);
    assert!(matches!(resp, HcSr04Response::Failed(Error::Gpio(_))));
}
