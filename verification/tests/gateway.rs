use mecanum::CalibratorMessage;
use mecanum::CalibratorParams;
use mecanum::Distance;
use mecanum::DriveMessage;
use mecanum::DriveResponse;
use mecanum::Error;
use mecanum::GatewayRoute;
use mecanum::HcSr04Measurement;
use mecanum::HcSr04Message;
use mecanum::HcSr04Response;
use mecanum::HcSr04Result;
use mecanum::HeartbeatAction;
use mecanum::Motion;
use mecanum::Recipient;
use mecanum::ScannerMessage;
use mecanum::SocketMessage;
use mecanum::Speed;
use mecanum::WebSocket;
use mecanum::drive_description;
use mecanum::measure_response_json;
use mecanum::move_response_json;
use mecanum::ranging_response_text;

#[test]
fn a_silent_client_is_disconnected_after_the_timeout() {
    let ws = WebSocket::new(1000);
    assert_eq!(ws.heartbeat_tick(11000), HeartbeatAction::Ping);
    assert_eq!(ws.heartbeat_tick(11001), HeartbeatAction::Disconnect);
    assert_eq!(ws.heartbeat_tick(500), HeartbeatAction::Ping);
}

#[test]
fn a_heartbeat_restarts_the_liveness_deadline() {
    let mut ws = WebSocket::new(1000);
    ws.on_heartbeat(8000);
    assert_eq!(ws.heartbeat_tick(15000), HeartbeatAction::Ping);
    assert_eq!(ws.heartbeat_tick(18001), HeartbeatAction::Disconnect);
}

#[test]
fn drive_commands_route_to_the_drive_actor() {
    let mut ws = WebSocket::new(0);
    let msg = DriveMessage::Enable { motion: Motion::Forward, speed: Speed::Low };
    assert_eq!(ws.route(&SocketMessage::Move(msg)), GatewayRoute::ToDrive(msg));
}

#[test]
fn measure_distance_routes_to_the_rangefinder() {
    let mut ws = WebSocket::new(0);
    assert_eq!(
        ws.route(&SocketMessage::MeasureDistance),
        GatewayRoute::ToRanging(HcSr04Message::Single(Recipient::WebSocket))
    );
}

#[test]
fn the_calibrator_is_created_lazily_and_discarded_on_stop() {
    let mut ws = WebSocket::new(0);
    let params = CalibratorParams::new(500, 700, 100, 5, 2);
    let start = SocketMessage::CalibrateMovement(CalibratorMessage::Start(params));
    let stop = SocketMessage::CalibrateMovement(CalibratorMessage::Stop);

    assert_eq!(
        ws.route(&start),
        GatewayRoute::ToCalibrator { create: true, msg: CalibratorMessage::Start(params) }
    );
    assert_eq!(
        ws.route(&start),
        GatewayRoute::ToCalibrator { create: false, msg: CalibratorMessage::Start(params) }
    );
    assert_eq!(
        ws.route(&stop),
        GatewayRoute::ToCalibrator { create: false, msg: CalibratorMessage::Stop }
    );
    assert_eq!(ws.route(&stop), GatewayRoute::NoSession);
}

#[test]
fn the_scanner_is_created_lazily_and_discarded_on_stop() {
    let mut ws = WebSocket::new(0);
    let start_msg = ScannerMessage::Start { speed: Speed::Low, slip_permille: 0, resolution: 10 };
    let start = SocketMessage::ScanDistance(start_msg);
    let stop = SocketMessage::ScanDistance(ScannerMessage::Stop);

    assert_eq!(ws.route(&start), GatewayRoute::ToScanner { create: true, msg: start_msg });
    assert_eq!(ws.route(&start), GatewayRoute::ToScanner { create: false, msg: start_msg });
    assert_eq!(
        ws.route(&stop),
        GatewayRoute::ToScanner { create: false, msg: ScannerMessage::Stop }
    );
    assert_eq!(ws.route(&stop), GatewayRoute::NoSession);
}

#[test]
fn the_two_sessions_are_independent() {
    let mut ws = WebSocket::new(0);
    let params = CalibratorParams::new(500, 700, 100, 5, 2);
    ws.route(&SocketMessage::CalibrateMovement(CalibratorMessage::Start(params)));
    // Stopping a scanner that was never created touches no session.
    assert_eq!(
        ws.route(&SocketMessage::ScanDistance(ScannerMessage::Stop)),
        GatewayRoute::NoSession
    );
    // The calibrator is still there.
    assert_eq!(
        ws.route(&SocketMessage::CalibrateMovement(CalibratorMessage::Stop)),
        GatewayRoute::ToCalibrator { create: false, msg: CalibratorMessage::Stop }
    );
}

#[test]
fn drive_echoes_render_human_readably() {
    let enable = DriveResponse::Accepted(DriveMessage::Enable {
        motion: Motion::Forward,
        speed: Speed::Low,
    });
    assert_eq!(drive_description(&enable).as_str(), "Moving Forward with Low speed");

    let disable = DriveResponse::Accepted(DriveMessage::Disable);
    assert_eq!(drive_description(&disable).as_str(), "Stopped");

    let mv = DriveResponse::Accepted(DriveMessage::Move {
        motion: Motion::Left,
        speed: Speed::Manual(450),
        distance_mm: 1000,
    });
    assert_eq!(
        drive_description(&mv).as_str(),
        "Moving Left 1000 mm with Manual(450) speed"
    );

    let rot = DriveResponse::Accepted(DriveMessage::Rotate {
        motion: Motion::RightRot,
        speed: Speed::High,
        angle_mdeg: 90000,
    });
    assert_eq!(
        drive_description(&rot).as_str(),
        "Rotating RightRot 90000 mdeg with High speed"
    );

    let err = DriveResponse::Rejected(Error::Gpio("pin busy".to_string()));
    assert_eq!(drive_description(&err).as_str(), "Drive error: GPIO error: pin busy");
}

#[test]
fn move_responses_serialize_as_tagged_json() {
    let resp = DriveResponse::Accepted(DriveMessage::Enable {
        motion: Motion::Forward,
        speed: Speed::Low,
    });
    assert_eq!(
        move_response_json(&resp).as_str(),
        "{\"variant\":\"Move\",\"description\":\"Moving Forward with Low speed\"}"
    );
}

#[test]
fn quotes_in_an_error_detail_are_escaped_on_the_wire() {
    let resp = DriveResponse::Rejected(Error::Gpio("pin \"4\" busy".to_string()));
    assert_eq!(
        move_response_json(&resp).as_str(),
        "{\"variant\":\"Move\",\"description\":\"Drive error: GPIO error: pin \\\"4\\\" busy\"}"
    );
}

#[test]
fn a_single_measurement_reports_its_own_distance() {
    let m = HcSr04Measurement::Single(HcSr04Result {
        time_ms: 3,
        distance: Distance::Finite(1732),
    });
    assert_eq!(
        measure_response_json(&m).as_str(),
        "{\"variant\":\"MeasureDistance\",\"measurement\":1732}"
    );
}

#[test]
fn a_batched_measurement_reports_the_mean() {
    let m = HcSr04Measurement::Multiple(vec![
        HcSr04Result { time_ms: 1, distance: Distance::Finite(1000) },
        HcSr04Result { time_ms: 2, distance: Distance::Finite(2000) },
    ]);
    assert_eq!(
        measure_response_json(&m).as_str(),
        "{\"variant\":\"MeasureDistance\",\"measurement\":1500}"
    );
}

#[test]
fn an_infinite_distance_reports_the_marked_numeric_value() {
    let m = HcSr04Measurement::Single(HcSr04Result {
        time_ms: 3,
        distance: Distance::Infinite,
    });
    assert_eq!(
        measure_response_json(&m).as_str(),
        "{\"variant\":\"MeasureDistance\",\"measurement\":18446744073709551615}"
    );
}

#[test]
fn a_ranging_fault_renders_as_plain_error_text() {
    let resp = HcSr04Response::Failed(Error::Gpio("echo pin blocked".to_string()));
    assert_eq!(
        ranging_response_text(&resp).as_str(),
        "HcSr04 error: GPIO error: echo pin blocked"
    );
}

#[test]
fn control_characters_in_an_error_detail_are_escaped_on_the_wire() {
    let resp = DriveResponse::Rejected(Error::Io("line one\nline two\ttab".to_string()));
    assert_eq!(
        move_response_json(&resp).as_str(),
        "{\"variant\":\"Move\",\"description\":\"Drive error: IO error: line one\\nline two\\ttab\"}"
    );
}
