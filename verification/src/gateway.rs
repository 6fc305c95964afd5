//! Per-connection protocol gateway.
//!
//! The gateway routes the inbound command union to the drive, the
//! rangefinder and the two orchestrators, creating a calibrator or
//! scanner lazily on first use, and renders every asynchronous
//! device response as the outbound wire text. It also keeps the
//! connection liveness deadline: a ping goes out on a fixed
//! interval, and a client silent past the timeout is disconnected.
//! The transport itself — frames, sockets, JSON parsing into the
//! command union — lives outside; only the decisions live here.
use crate::calibrator::CalibratorMessage;
use crate::drive::DriveMessage;
use crate::drive::DriveResponse;
use crate::motion::Motion;
use crate::ranging::Distance;
use crate::ranging::HcSr04Measurement;
use crate::ranging::HcSr04Message;
use crate::ranging::HcSr04Response;
use crate::ranging::Recipient;
use crate::ranging::mean_distance;
use crate::ranging::spec_mean_distance;
use crate::scanner::ScannerMessage;
use crate::speed::Speed;
use crate::textfmt::append_decimal;
use crate::textfmt::append_json_escaped;
use crate::textfmt::spec_decimal;
use crate::textfmt::spec_json_escaped;
use vstd::prelude::*;

verus! {

/// How often heartbeat pings are sent, in milliseconds.
pub const HEARTBEAT_INTERVAL_MS: u64 = 5000;

/// How long before lack of client response causes a timeout, in
/// milliseconds.
pub const CLIENT_TIMEOUT_MS: u64 = 10000;

/// The inbound command union a connection accepts.
#[derive(Clone, Copy, Debug, PartialEq, Eq, Structural)]
pub enum SocketMessage {
    /// A drive command, routed to the drive actor.
    Move(DriveMessage),
    /// One distance measurement, answered to this connection.
    MeasureDistance,
    /// A calibration command, routed to this connection's
    /// calibrator.
    CalibrateMovement(CalibratorMessage),
    /// A scan command, routed to this connection's scanner.
    ScanDistance(ScannerMessage),
}

/// What the liveness check decides on each interval.
#[derive(Clone, Copy, Debug, PartialEq, Eq, Structural)]
pub enum HeartbeatAction {
    /// The client has been silent past the timeout: tear the
    /// connection down.
    Disconnect,
    /// Send a ping and keep waiting.
    Ping,
}

/// Where one inbound command goes.
#[derive(Clone, Copy, Debug, PartialEq, Eq, Structural)]
pub enum GatewayRoute {
    /// Forward to the process-wide drive actor.
    ToDrive(DriveMessage),
    /// Forward to the process-wide rangefinder actor.
    ToRanging(HcSr04Message),
    /// Forward to this connection's calibrator; `create` asks for a
    /// fresh actor first.
    ToCalibrator { create: bool, msg: CalibratorMessage },
    /// Forward to this connection's scanner; `create` asks for a
    /// fresh actor first.
    ToScanner { create: bool, msg: ScannerMessage },
    /// A stop for a session that does not exist: nothing to do.
    NoSession,
}

/// One client connection: the liveness deadline and which
/// per-connection orchestrators exist. Device actors are reached by
/// messages only.
pub struct WebSocket {
    /// Wall-clock time of the last sign of life from the client, in
    /// milliseconds.
    last_heartbeat_ms: u64,
    /// Whether this connection's calibrator has been created.
    calibrator_exists: bool,
    /// Whether this connection's scanner has been created.
    scanner_exists: bool,
}

impl WebSocket {
    /// Wall-clock time of the last sign of life from the client.
    pub closed spec fn spec_last_heartbeat_ms(self) -> u64 {
        self.last_heartbeat_ms
    }

    /// Whether this connection's calibrator has been created.
    pub closed spec fn spec_has_calibrator(self) -> bool {
        self.calibrator_exists
    }

    /// Whether this connection's scanner has been created.
    pub closed spec fn spec_has_scanner(self) -> bool {
        self.scanner_exists
    }

    /// Creates the gateway state of a fresh connection: alive now,
    /// no orchestrators yet.
    pub fn new(now_ms: u64) -> (r: WebSocket)
        ensures
            r.spec_last_heartbeat_ms() == now_ms,
            !r.spec_has_calibrator(),
            !r.spec_has_scanner(),
    {
        WebSocket { last_heartbeat_ms: now_ms, calibrator_exists: false, scanner_exists: false }
    }

    /// Notes a sign of life from the client (a ping or pong
    /// arrived): the liveness deadline restarts.
    pub fn on_heartbeat(&mut self, now_ms: u64)
        ensures
            final(self).spec_last_heartbeat_ms() == now_ms,
            final(self).spec_has_calibrator() == old(self).spec_has_calibrator(),
            final(self).spec_has_scanner() == old(self).spec_has_scanner(),
    {
        self.last_heartbeat_ms = now_ms;
    }

    /// The liveness decision on each heartbeat interval: disconnect
    /// exactly when the client has been silent longer than the
    /// timeout, otherwise ping.
    pub fn heartbeat_tick(&self, now_ms: u64) -> (r: HeartbeatAction)
        ensures
            r == if now_ms > self.spec_last_heartbeat_ms() && now_ms
                - self.spec_last_heartbeat_ms() > CLIENT_TIMEOUT_MS {
                HeartbeatAction::Disconnect
            } else {
                HeartbeatAction::Ping
            },
    {
        if now_ms > self.last_heartbeat_ms && now_ms - self.last_heartbeat_ms > CLIENT_TIMEOUT_MS {
            HeartbeatAction::Disconnect
        } else {
            HeartbeatAction::Ping
        }
    }

    /// Routes one inbound command: drive and ranging commands go to
    /// the process-wide actors; calibration and scan commands go to
    /// this connection's orchestrator, created lazily on the first
    /// start; a stop for an orchestrator that was never created does
    /// nothing. The connection stays open whatever arrives.
    pub fn route(&mut self, msg: &SocketMessage) -> (r: GatewayRoute)
        ensures
            final(self).spec_last_heartbeat_ms() == old(self).spec_last_heartbeat_ms(),
            match msg {
                SocketMessage::Move(m) => r == GatewayRoute::ToDrive(*m) && *final(self) == *old(self),
                SocketMessage::MeasureDistance => r == GatewayRoute::ToRanging(
                    HcSr04Message::Single(Recipient::WebSocket),
                ) && *final(self) == *old(self),
                SocketMessage::CalibrateMovement(m) => match m {
                    CalibratorMessage::Start(_) => r == (GatewayRoute::ToCalibrator {
                        create: !old(self).spec_has_calibrator(),
                        msg: *m,
                    }) && final(self).spec_has_calibrator() && final(self).spec_has_scanner()
                        == old(self).spec_has_scanner(),
                    CalibratorMessage::Stop => {
                        if old(self).spec_has_calibrator() {
                            r == (GatewayRoute::ToCalibrator { create: false, msg: *m }) && !final(self).spec_has_calibrator() && final(self).spec_has_scanner() == old(self).spec_has_scanner()
                        } else {
                            r == GatewayRoute::NoSession && *final(self) == *old(self)
                        }
                    },
                },
                SocketMessage::ScanDistance(m) => match m {
                    ScannerMessage::Start { .. } => r == (GatewayRoute::ToScanner {
                        create: !old(self).spec_has_scanner(),
                        msg: *m,
                    }) && final(self).spec_has_scanner() && final(self).spec_has_calibrator()
                        == old(self).spec_has_calibrator(),
                    ScannerMessage::Stop => {
                        if old(self).spec_has_scanner() {
                            r == (GatewayRoute::ToScanner { create: false, msg: *m }) && !final(self).spec_has_scanner() && final(self).spec_has_calibrator() == old(self).spec_has_calibrator()
                        } else {
                            r == GatewayRoute::NoSession && *final(self) == *old(self)
                        }
                    },
                },
            },
    {
        match msg {
            SocketMessage::Move(m) => GatewayRoute::ToDrive(*m),
            SocketMessage::MeasureDistance => GatewayRoute::ToRanging(
                HcSr04Message::Single(Recipient::WebSocket),
            ),
            SocketMessage::CalibrateMovement(m) => match m {
                CalibratorMessage::Start(_) => {
                    let create = !self.calibrator_exists;
                    self.calibrator_exists = true;
                    GatewayRoute::ToCalibrator { create, msg: *m }
                },
                CalibratorMessage::Stop => {
                    if self.calibrator_exists {
                        self.calibrator_exists = false;
                        GatewayRoute::ToCalibrator { create: false, msg: *m }
                    } else {
                        GatewayRoute::NoSession
                    }
                },
            },
            SocketMessage::ScanDistance(m) => match m {
                ScannerMessage::Start { .. } => {
                    let create = !self.scanner_exists;
                    self.scanner_exists = true;
                    GatewayRoute::ToScanner { create, msg: *m }
                },
                ScannerMessage::Stop => {
                    if self.scanner_exists {
                        self.scanner_exists = false;
                        GatewayRoute::ToScanner { create: false, msg: *m }
                    } else {
                        GatewayRoute::NoSession
                    }
                },
            },
        }
    }
}

/// The display name of a motion in client-visible messages.
pub open spec fn spec_motion_name(m: Motion) -> Seq<char> {
    match m {
        Motion::Forward => "Forward"@,
        Motion::ForwardRight => "ForwardRight"@,
        Motion::Right => "Right"@,
        Motion::BackwardRight => "BackwardRight"@,
        Motion::Backward => "Backward"@,
        Motion::BackwardLeft => "BackwardLeft"@,
        Motion::Left => "Left"@,
        Motion::ForwardLeft => "ForwardLeft"@,
        Motion::RightRot => "RightRot"@,
        Motion::LeftRot => "LeftRot"@,
        Motion::Stop => "Stop"@,
    }
}

/// The display name of a motion.
pub fn motion_name(m: &Motion) -> (r: &'static str)
    ensures
        r@ == spec_motion_name(*m),
{
    match m {
        Motion::Forward => "Forward",
        Motion::ForwardRight => "ForwardRight",
        Motion::Right => "Right",
        Motion::BackwardRight => "BackwardRight",
        Motion::Backward => "Backward",
        Motion::BackwardLeft => "BackwardLeft",
        Motion::Left => "Left",
        Motion::ForwardLeft => "ForwardLeft",
        Motion::RightRot => "RightRot",
        Motion::LeftRot => "LeftRot",
        Motion::Stop => "Stop",
    }
}

/// The display text of a speed in client-visible messages: the
/// preset name, or `Manual(` with the duty cycle in permille.
pub open spec fn spec_speed_text(s: Speed) -> Seq<char> {
    match s {
        Speed::Low => "Low"@,
        Speed::Medium => "Medium"@,
        Speed::High => "High"@,
        Speed::Manual(v) => "Manual("@ + spec_decimal(v as int) + ")"@,
    }
}

/// Appends the display text of a speed to `out`.
fn append_speed_text(out: &mut String, s: &Speed)
    ensures
        final(out)@ == old(out)@ + spec_speed_text(*s),
{
    match s {
        Speed::Low => {
            out.append("Low");
        },
        Speed::Medium => {
            out.append("Medium");
        },
        Speed::High => {
            out.append("High");
        },
        Speed::Manual(v) => {
            out.append("Manual(");
            append_decimal(out, *v as u64);
            out.append(")");
            proof {
                assert(final(out)@ =~= old(out)@ + spec_speed_text(*s));
            }
        },
    }
}

/// The human-readable echo of a handled drive command: what the
/// robot is now doing, or the error that rejected the command.
pub open spec fn spec_drive_description(resp: DriveResponse) -> Seq<char> {
    match resp {
        DriveResponse::Accepted(m) => match m {
            DriveMessage::Enable { motion, speed } => "Moving "@ + spec_motion_name(motion)
                + " with "@ + spec_speed_text(speed) + " speed"@,
            DriveMessage::Disable => "Stopped"@,
            DriveMessage::Move { motion, speed, distance_mm } => "Moving "@ + spec_motion_name(
                motion,
            ) + " "@ + spec_decimal(distance_mm as int) + " mm with "@ + spec_speed_text(speed)
                + " speed"@,
            DriveMessage::Rotate { motion, speed, angle_mdeg } => "Rotating "@ + spec_motion_name(
                motion,
            ) + " "@ + spec_decimal(angle_mdeg as int) + " mdeg with "@ + spec_speed_text(speed)
                + " speed"@,
        },
        DriveResponse::Rejected(e) => "Drive error: "@ + e.spec_description(),
    }
}

/// Renders the human-readable echo of a handled drive command.
pub fn drive_description(resp: &DriveResponse) -> (r: String)
    ensures
        r@ == spec_drive_description(*resp),
{
    let mut out = String::new();
    match resp {
        DriveResponse::Accepted(m) => match m {
            DriveMessage::Enable { motion, speed } => {
                out.append("Moving ");
                out.append(motion_name(motion));
                out.append(" with ");
                append_speed_text(&mut out, speed);
                out.append(" speed");
            },
            DriveMessage::Disable => {
                out.append("Stopped");
            },
            DriveMessage::Move { motion, speed, distance_mm } => {
                out.append("Moving ");
                out.append(motion_name(motion));
                out.append(" ");
                append_decimal(&mut out, *distance_mm);
                out.append(" mm with ");
                append_speed_text(&mut out, speed);
                out.append(" speed");
            },
            DriveMessage::Rotate { motion, speed, angle_mdeg } => {
                out.append("Rotating ");
                out.append(motion_name(motion));
                out.append(" ");
                append_decimal(&mut out, *angle_mdeg);
                out.append(" mdeg with ");
                append_speed_text(&mut out, speed);
                out.append(" speed");
            },
        },
        DriveResponse::Rejected(e) => {
            out.append("Drive error: ");
            let d = e.description();
            out.append(d.as_str());
        },
    }
    proof {
        assert(out@ =~= spec_drive_description(*resp));
    }
    out
}

/// The outbound wire text of a drive response: the tagged JSON
/// object carrying the description, with the description escaped.
pub open spec fn spec_move_response_json(resp: DriveResponse) -> Seq<char> {
    "{\"variant\":\"Move\",\"description\":\""@ + spec_json_escaped(spec_drive_description(resp))
        + "\"}"@
}

/// Renders the outbound wire text of a drive response.
pub fn move_response_json(resp: &DriveResponse) -> (r: String)
    ensures
        r@ == spec_move_response_json(*resp),
{
    let mut out = String::from_str("{\"variant\":\"Move\",\"description\":\"");
    let description = drive_description(resp);
    append_json_escaped(&mut out, description.as_str());
    out.append("\"}");
    proof {
        assert(out@ =~= spec_move_response_json(*resp));
    }
    out
}

/// The single value a measurement response reports: the one
/// measured distance, or the mean of the batch.
pub open spec fn spec_measurement_value(m: HcSr04Measurement) -> Distance {
    match m {
        HcSr04Measurement::Single(r) => r.distance,
        HcSr04Measurement::Multiple(rs) => spec_mean_distance(rs@),
    }
}

/// A reported distance on the wire, in millimeters: the
/// infinite-distance sentinel serializes as the largest machine
/// word, a marked numeric value rather than an error.
pub open spec fn spec_distance_value_text(d: Distance) -> Seq<char> {
    match d {
        Distance::Finite(mm) => spec_decimal(mm as int),
        Distance::Infinite => spec_decimal(0xffff_ffff_ffff_ffff),
    }
}

/// The outbound wire text of a successful measurement response: the
/// tagged JSON object carrying the reported value.
pub open spec fn spec_measure_response_json(m: HcSr04Measurement) -> Seq<char> {
    "{\"variant\":\"MeasureDistance\",\"measurement\":"@ + spec_distance_value_text(
        spec_measurement_value(m),
    ) + "}"@
}

/// Renders the outbound wire text of a successful measurement
/// response.
pub fn measure_response_json(m: &HcSr04Measurement) -> (r: String)
    ensures
        r@ == spec_measure_response_json(*m),
{
    let value = match m {
        HcSr04Measurement::Single(res) => res.distance,
        HcSr04Measurement::Multiple(rs) => mean_distance(rs),
    };
    let mut out = String::from_str("{\"variant\":\"MeasureDistance\",\"measurement\":");
    match value {
        Distance::Finite(mm) => {
            append_decimal(&mut out, mm);
        },
        Distance::Infinite => {
            append_decimal(&mut out, 0xffff_ffff_ffff_ffff);
        },
    }
    out.append("}");
    proof {
        assert(out@ =~= spec_measure_response_json(*m));
    }
    out
}

/// The outbound text of any ranging response: the measurement JSON,
/// or the fault rendered as plain text.
pub open spec fn spec_ranging_response_text(resp: HcSr04Response) -> Seq<char> {
    match resp {
        HcSr04Response::Measured(m) => spec_measure_response_json(m),
        HcSr04Response::Failed(e) => "HcSr04 error: "@ + e.spec_description(),
    }
}

/// Renders the outbound text of any ranging response.
pub fn ranging_response_text(resp: &HcSr04Response) -> (r: String)
    ensures
        r@ == spec_ranging_response_text(*resp),
{
    match resp {
        HcSr04Response::Measured(m) => measure_response_json(m),
        HcSr04Response::Failed(e) => {
            let mut out = String::from_str("HcSr04 error: ");
            let d = e.description();
            out.append(d.as_str());
            out
        },
    }
}

} // verus!
