//! Core logic of a four-wheel mecanum-drive robot controller.
//!
//! The crate turns directional/speed commands into per-motor PWM duty
//! cycles, models ultrasonic distance ranging with bounded-timeout
//! semantics, and composes these primitives into a rotational distance
//! scan and a motion-calibration sweep, all coordinated through
//! mailbox-serialized actors whose decision logic lives here.
//!
//! All quantities are fixed-point integers:
//! duty cycles in permille (0..=1000), distances in millimeters,
//! velocities in millimeters per second, angles in millidegrees,
//! times in milliseconds, pulse widths in microseconds.
mod calibrator;
mod drive;
mod error;
mod gateway;
mod motion;
mod motor;
mod ranging;
mod scanner;
mod speed;
mod textfmt;

pub use gateway::CLIENT_TIMEOUT_MS;
pub use gateway::GatewayRoute;
pub use gateway::HEARTBEAT_INTERVAL_MS;
pub use gateway::HeartbeatAction;
pub use gateway::SocketMessage;
pub use gateway::WebSocket;
pub use gateway::drive_description;
pub use gateway::measure_response_json;
pub use gateway::motion_name;
pub use gateway::move_response_json;
pub use gateway::ranging_response_text;
pub use gateway::spec_distance_value_text;
pub use gateway::spec_drive_description;
pub use gateway::spec_measure_response_json;
pub use gateway::spec_measurement_value;
pub use gateway::spec_motion_name;
pub use gateway::spec_move_response_json;
pub use gateway::spec_ranging_response_text;
pub use gateway::spec_speed_text;
pub use motion::DriveParams;
pub use motion::Motion;
pub use motion::spec_wheel_duties;
pub use motion::wheel_duties;
pub use motion::wheel_sign;
pub use motor::Motor;
pub use motor::PinAction;
pub use motor::PinWrite;
pub use textfmt::append_decimal;
pub use textfmt::append_duty_two_decimals;
pub use textfmt::append_two_digits;
pub use textfmt::decimal_string;
pub use textfmt::digit_char;
pub use textfmt::spec_decimal;
pub use textfmt::spec_duty_two_decimals;
pub use textfmt::append_json_escaped;
pub use textfmt::hex_char;
pub use textfmt::spec_json_escaped;
pub use textfmt::spec_json_escaped_char;
pub use textfmt::spec_two_digits;
pub use ranging::Distance;
pub use ranging::HcSr04;
pub use ranging::HcSr04Measurement;
pub use ranging::HcSr04Message;
pub use ranging::HcSr04Response;
pub use ranging::HcSr04Result;
pub use ranging::Recipient;
pub use ranging::MAX_RANGE_MM;
pub use ranging::MeasureAttempt;
pub use ranging::PollResult;
pub use ranging::SOUND_SPEED_0C_MM_S;
pub use ranging::SOUND_SPEED_INCR_MM_S;
pub use ranging::collect_measurements;
pub use ranging::mean_distance;
pub use ranging::spec_distance_sum;
pub use ranging::spec_mean_distance;
pub use ranging::spec_echo_timeout_us;
pub use ranging::spec_pulse_distance_mm;
pub use ranging::spec_sound_speed_mm_s;
pub use calibrator::Calibrator;
pub use calibrator::CalibratorAction;
pub use calibrator::CalibratorMessage;
pub use calibrator::CalibratorParams;
pub use calibrator::CalibratorState;
pub use calibrator::INTER_LEG_DELAY_MS;
pub use calibrator::LegOutcome;
pub use calibrator::calibration_key;
pub use calibrator::response_text;
pub use calibrator::spec_advance;
pub use calibrator::spec_calibration_key;
pub use calibrator::spec_csv_line;
pub use calibrator::spec_csv_lines;
pub use calibrator::spec_done;
pub use calibrator::spec_response_text;
pub use drive::Drive;
pub use drive::DriveMessage;
pub use drive::DriveResponse;
pub use drive::ManeuverPlan;
pub use drive::MAX_MOVE_DISTANCE_MM;
pub use drive::MAX_ROTATE_ANGLE_MDEG;
pub use drive::PI_MICRO;
pub use drive::ROBOT_RADIUS_MM;
pub use drive::WHEEL_CIRCUMFERENCE_MM;
pub use drive::channel_after;
pub use drive::channel_writes;
pub use drive::lemma_mailbox_serializes_pin_writes;
pub use drive::lemma_mailbox_snoc;
pub use drive::lemma_stop_idempotent;
pub use drive::mailbox_wheels_after;
pub use drive::mailbox_writes;
pub use drive::msg_duties;
pub use drive::msg_immediate;
pub use drive::msg_wheels_after;
pub use drive::msg_writes;
pub use drive::spec_move_duration_ms;
pub use drive::spec_rotate_distance_mm;
pub use drive::wheels_after;
pub use drive::wheels_writes;
pub use drive::wheels_writes_upto;
pub use error::Error;
pub use scanner::ScanStep;
pub use scanner::Scanner;
pub use scanner::ScannerAction;
pub use scanner::ScannerMessage;
pub use scanner::lemma_bearing_exact_cadence;
pub use scanner::spec_bearing_mdeg;
pub use scanner::spec_elapsed_ms;
pub use scanner::spec_sample_interval_ms;
pub use speed::Speed;
pub use speed::lemma_velocity_monotone;
pub use speed::spec_velocity;
pub use speed::velocity_anchor;
pub use speed::velocity_mm_s;
