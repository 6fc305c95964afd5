//! Motion control of the four-wheel mecanum drive.
//!
//! `Drive` owns the four motor channels in wheel order front-left,
//! front-right, rear-right, rear-left, and maps a `(Motion, Speed)`
//! pair to four signed duty cycles through the kinematic table. Timed
//! maneuvers (move a distance, rotate an angle) are planned here as a
//! duration and a pair of enable/disable commands; the hardware layer
//! schedules the delayed disable without blocking the mailbox.
use crate::error::Error;
use crate::motion::Motion;
use crate::motion::spec_wheel_duties;
use crate::motion::wheel_duties;
use crate::motor::Motor;
use crate::motor::PinWrite;
use crate::speed::Speed;
use crate::speed::spec_velocity;
use vstd::prelude::*;

verus! {

/// Robot turning radius, in millimeters.
pub const ROBOT_RADIUS_MM: u64 = 110;

/// Wheel circumference, in millimeters.
pub const WHEEL_CIRCUMFERENCE_MM: u64 = 250;

/// The circle constant scaled by one million.
pub const PI_MICRO: u64 = 3141593;

/// Longest distance a single `Move` command accepts, in millimeters.
pub const MAX_MOVE_DISTANCE_MM: u64 = 1000000000;

/// Largest angle a single `Rotate` command accepts, in millidegrees.
pub const MAX_ROTATE_ANGLE_MDEG: u64 = 100000000;

/// A motor channel after being commanded with signed duty cycle `s`
/// (permille): positive drives forward, negative backward, zero stops
/// and floats. Pin numbers are untouched.
pub open spec fn channel_after(m: Motor, s: int) -> Motor {
    if s > 0 {
        Motor { fwd_high: true, bwd_high: false, enable_high: true, duty_cycle: s as u16, ..m }
    } else if s < 0 {
        Motor { fwd_high: false, bwd_high: true, enable_high: true, duty_cycle: (-s) as u16, ..m }
    } else {
        Motor { fwd_high: false, bwd_high: false, enable_high: false, duty_cycle: 0, ..m }
    }
}

/// The pin writes commanding signed duty cycle `s` on channel `m`.
pub open spec fn channel_writes(m: Motor, s: int, freq: u32) -> Seq<PinWrite> {
    if s > 0 {
        m.spec_fwd_writes(freq, s as u16)
    } else if s < 0 {
        m.spec_bwd_writes(freq, (-s) as u16)
    } else {
        m.spec_stop_writes()
    }
}

/// All four motor channels after being commanded with the signed
/// duty cycles `duties`.
pub open spec fn wheels_after(ms: Seq<Motor>, duties: Seq<int>) -> Seq<Motor> {
    Seq::new(ms.len(), |i: int| channel_after(ms[i], duties[i]))
}

/// The pin writes of commanding the first `n` channels, in channel
/// order: all writes of one channel precede all writes of the next.
pub open spec fn wheels_writes_upto(ms: Seq<Motor>, duties: Seq<int>, freq: u32, n: int) -> Seq<
    PinWrite,
>
    decreases n,
{
    if n <= 0 {
        Seq::empty()
    } else {
        wheels_writes_upto(ms, duties, freq, n - 1) + channel_writes(ms[n - 1], duties[n - 1], freq)
    }
}

/// The pin writes of commanding all four channels.
pub open spec fn wheels_writes(ms: Seq<Motor>, duties: Seq<int>, freq: u32) -> Seq<PinWrite> {
    wheels_writes_upto(ms, duties, freq, 4)
}

/// Commands a `Drive` accepts through its mailbox.
///
/// Distances are in millimeters, angles in millidegrees.
#[derive(Clone, Copy, Debug, PartialEq, Eq, Structural)]
pub enum DriveMessage {
    /// Start a motion at a speed and keep it until further command.
    Enable { motion: Motion, speed: Speed },
    /// Stop all four channels.
    Disable,
    /// Drive a distance, then stop: timed, open-loop, approximate.
    Move { motion: Motion, speed: Speed, distance_mm: u64 },
    /// Rotate an angle in place, then stop: timed, open-loop,
    /// approximate.
    Rotate { motion: Motion, speed: Speed, angle_mdeg: u64 },
}

/// A planned timed maneuver: enable `motion` at `speed` now, disable
/// after `duration_ms` milliseconds. The scheduling layer runs the
/// delay without blocking the mailbox.
#[derive(Clone, Copy, Debug, PartialEq, Eq, Structural)]
pub struct ManeuverPlan {
    /// The motion to enable.
    pub motion: Motion,
    /// The speed to enable it at.
    pub speed: Speed,
    /// How long to keep it enabled, in milliseconds.
    pub duration_ms: u64,
}

/// The one response every handled drive command produces: an echo of
/// the command, or the error that rejected it.
#[derive(Debug)]
pub enum DriveResponse {
    /// The command was executed or planned; it is echoed back.
    Accepted(DriveMessage),
    /// The command was rejected with the carried error.
    Rejected(Error),
}

/// Time to travel `distance_mm` millimeters at `velocity_mm_s`
/// millimeters per second, in milliseconds.
pub open spec fn spec_move_duration_ms(distance_mm: int, velocity_mm_s: int) -> int
    recommends
        velocity_mm_s > 0,
{
    distance_mm * 1000 / velocity_mm_s
}

/// Arc length driven when the robot turns `angle_mdeg` millidegrees
/// in place, in millimeters: the fraction of the circle of the robot
/// radius.
pub open spec fn spec_rotate_distance_mm(angle_mdeg: int) -> int {
    2 * (PI_MICRO as int) * (ROBOT_RADIUS_MM as int) * angle_mdeg / (360 * 1000 * 1000000int)
}

impl DriveMessage {
    /// Whether the command is within contract: valid duty cycle, a
    /// motion the command kind accepts, a speed the robot moves at,
    /// and magnitudes in range.
    pub open spec fn spec_valid(self) -> bool {
        match self {
            DriveMessage::Enable { motion, speed } => speed.wf(),
            DriveMessage::Disable => true,
            DriveMessage::Move { motion, speed, distance_mm } => speed.wf()
                && !motion.spec_is_rotation() && spec_velocity(speed.spec_duty_cycle()) > 0
                && distance_mm <= MAX_MOVE_DISTANCE_MM,
            DriveMessage::Rotate { motion, speed, angle_mdeg } => speed.wf()
                && motion.spec_is_rotation() && spec_velocity(speed.spec_duty_cycle()) > 0
                && angle_mdeg <= MAX_ROTATE_ANGLE_MDEG,
        }
    }
}

/// Whether the command writes pins in its own mailbox turn: `Enable`
/// with a valid speed does, `Disable` does, the timed maneuvers only
/// schedule.
pub open spec fn msg_immediate(msg: DriveMessage) -> bool {
    match msg {
        DriveMessage::Enable { motion, speed } => speed.wf(),
        DriveMessage::Disable => true,
        _ => false,
    }
}

/// The signed per-wheel duty cycles an immediate command writes:
/// `Disable` is `Enable(Stop, Low)`.
pub open spec fn msg_duties(msg: DriveMessage) -> Seq<int> {
    match msg {
        DriveMessage::Enable { motion, speed } => spec_wheel_duties(
            motion,
            speed.spec_duty_cycle(),
        ),
        _ => spec_wheel_duties(Motion::Stop, 300),
    }
}

/// The four motor channels after one command's mailbox turn.
pub open spec fn msg_wheels_after(ms: Seq<Motor>, msg: DriveMessage) -> Seq<Motor> {
    if msg_immediate(msg) {
        wheels_after(ms, msg_duties(msg))
    } else {
        ms
    }
}

/// The pin writes of one command's mailbox turn.
pub open spec fn msg_writes(ms: Seq<Motor>, msg: DriveMessage, freq: u32) -> Seq<PinWrite> {
    if msg_immediate(msg) {
        wheels_writes(ms, msg_duties(msg), freq)
    } else {
        Seq::empty()
    }
}

/// The four motor channels after a whole queue of commands, in
/// arrival order.
pub open spec fn mailbox_wheels_after(ms: Seq<Motor>, msgs: Seq<DriveMessage>) -> Seq<Motor>
    decreases msgs.len(),
{
    if msgs.len() == 0 {
        ms
    } else {
        mailbox_wheels_after(msg_wheels_after(ms, msgs[0]), msgs.drop_first())
    }
}

/// The flat hardware trace of a whole queue of commands: each
/// command's writes stand contiguous, in arrival order.
pub open spec fn mailbox_writes(ms: Seq<Motor>, msgs: Seq<DriveMessage>, freq: u32) -> Seq<
    PinWrite,
>
    decreases msgs.len(),
{
    if msgs.len() == 0 {
        Seq::empty()
    } else {
        msg_writes(ms, msgs[0], freq) + mailbox_writes(
            msg_wheels_after(ms, msgs[0]),
            msgs.drop_first(),
            freq,
        )
    }
}

/// Appending one command to a queue appends its writes to the trace
/// and applies its transition last.
pub proof fn lemma_mailbox_snoc(
    ms: Seq<Motor>,
    msgs: Seq<DriveMessage>,
    msg: DriveMessage,
    freq: u32,
)
    ensures
        mailbox_wheels_after(ms, msgs.push(msg)) == msg_wheels_after(
            mailbox_wheels_after(ms, msgs),
            msg,
        ),
        mailbox_writes(ms, msgs.push(msg), freq) == mailbox_writes(ms, msgs, freq) + msg_writes(
            mailbox_wheels_after(ms, msgs),
            msg,
            freq,
        ),
    decreases msgs.len(),
{
    if msgs.len() == 0 {
        assert(msgs.push(msg)[0] == msg);
        assert(msgs.push(msg).drop_first() =~= Seq::<DriveMessage>::empty());
        assert(msgs.push(msg).drop_first() == Seq::<DriveMessage>::empty());
        assert(mailbox_wheels_after(ms, msgs.push(msg)) == mailbox_wheels_after(
            msg_wheels_after(ms, msg),
            Seq::<DriveMessage>::empty(),
        ));
        assert(mailbox_wheels_after(ms, msgs) == ms);
        assert(mailbox_writes(msg_wheels_after(ms, msg), Seq::<DriveMessage>::empty(), freq)
            == Seq::<PinWrite>::empty());
        assert(mailbox_writes(ms, msgs.push(msg), freq) =~= msg_writes(ms, msg, freq));
        assert(mailbox_writes(ms, msgs, freq) == Seq::<PinWrite>::empty());
        assert(mailbox_writes(ms, msgs, freq) + msg_writes(ms, msg, freq) =~= msg_writes(
            ms,
            msg,
            freq,
        ));
    } else {
        let head = msgs[0];
        let tail = msgs.drop_first();
        assert(msgs.push(msg)[0] == head);
        assert(msgs.push(msg).drop_first() =~= tail.push(msg));
        assert(msgs.push(msg).drop_first() == tail.push(msg));
        lemma_mailbox_snoc(msg_wheels_after(ms, head), tail, msg, freq);
        assert(mailbox_wheels_after(ms, msgs.push(msg)) == mailbox_wheels_after(
            msg_wheels_after(ms, head),
            tail.push(msg),
        ));
        assert(mailbox_wheels_after(ms, msgs) == mailbox_wheels_after(
            msg_wheels_after(ms, head),
            tail,
        ));
        assert(mailbox_writes(ms, msgs.push(msg), freq) == msg_writes(ms, head, freq)
            + mailbox_writes(msg_wheels_after(ms, head), tail.push(msg), freq));
        assert(mailbox_writes(ms, msgs, freq) == msg_writes(ms, head, freq) + mailbox_writes(
            msg_wheels_after(ms, head),
            tail,
            freq,
        ));
        assert(msg_writes(ms, head, freq) + (mailbox_writes(msg_wheels_after(ms, head), tail, freq)
            + msg_writes(mailbox_wheels_after(msg_wheels_after(ms, head), tail), msg, freq))
            =~= (msg_writes(ms, head, freq) + mailbox_writes(msg_wheels_after(ms, head), tail, freq))
            + msg_writes(mailbox_wheels_after(msg_wheels_after(ms, head), tail), msg, freq));
    }
}

/// Two commands handled back-to-back through one mailbox never
/// interleave their pin writes: the trace of the pair is the trace of
/// the first, whole, then the trace of the second against the state
/// the first left.
pub proof fn lemma_mailbox_serializes_pin_writes(
    ms: Seq<Motor>,
    m1: DriveMessage,
    m2: DriveMessage,
    freq: u32,
)
    ensures
        mailbox_writes(ms, seq![m1, m2], freq) == msg_writes(ms, m1, freq) + msg_writes(
            msg_wheels_after(ms, m1),
            m2,
            freq,
        ),
{
    assert(seq![m1, m2].drop_first() =~= seq![m2]);
    assert(seq![m2].drop_first() =~= Seq::<DriveMessage>::empty());
    assert(mailbox_writes(msg_wheels_after(msg_wheels_after(ms, m1), m2), Seq::empty(), freq)
        == Seq::<PinWrite>::empty());
    assert(mailbox_writes(msg_wheels_after(ms, m1), seq![m2], freq) =~= msg_writes(
        msg_wheels_after(ms, m1),
        m2,
        freq,
    ));
}

/// Stopping an already stopped drive leaves every channel exactly as
/// it was: the command is idempotent on the commanded state.
pub proof fn lemma_stop_idempotent(ms: Seq<Motor>)
    requires
        ms.len() == 4,
        forall|i: int| 0 <= i < 4 ==> ms[i].is_stopped(),
    ensures
        msg_wheels_after(ms, DriveMessage::Disable) =~= ms,
{
    let duties = msg_duties(DriveMessage::Disable);
    assert forall|i: int| 0 <= i < 4 implies msg_wheels_after(ms, DriveMessage::Disable)[i]
        == ms[i] by {
        assert(duties[i] == 0);
        assert(ms[i].is_stopped());
        assert(channel_after(ms[i], 0) == ms[i]);
    }
}

/// Allows control of the motion of a 4-wheeled mecanum robot.
///
/// Wheel layout, seen from above with forward up: 0 front-left,
/// 1 front-right, 2 rear-right, 3 rear-left.
pub struct Drive {
    /// The four motor channels, in wheel order.
    motors: Vec<Motor>,
    /// PWM frequency commanded on every channel, in hertz.
    pwm_frequency: u32,
}

impl Drive {
    /// The four motor channels, in wheel order.
    pub closed spec fn spec_wheels(self) -> Seq<Motor> {
        self.motors@
    }

    /// The PWM frequency commanded on every channel, in hertz.
    pub closed spec fn spec_pwm_frequency(self) -> u32 {
        self.pwm_frequency
    }

    /// The drive invariant: exactly four well-formed motor channels.
    pub open spec fn wf(self) -> bool {
        &&& self.spec_wheels().len() == 4
        &&& forall|i: int| 0 <= i < 4 ==> self.spec_wheels()[i].wf()
    }

    /// Whether every channel is stopped: all pins low, zero duty.
    pub open spec fn spec_all_stopped(self) -> bool {
        forall|i: int| 0 <= i < 4 ==> self.spec_wheels()[i].is_stopped()
    }

    /// Creates a new `Drive` instance over four motor channels given
    /// as (forward, backward, enable) pin triples in wheel order, all
    /// pins initially low.
    pub fn new(motor_pins: [(u8, u8, u8); 4], pwm_frequency: u32) -> (r: Drive)
        ensures
            r.wf(),
            r.spec_all_stopped(),
            r.spec_pwm_frequency() == pwm_frequency,
            forall|i: int|
                0 <= i < 4 ==> (r.spec_wheels()[i].fwd_pin == motor_pins@[i].0
                    && r.spec_wheels()[i].bwd_pin == motor_pins@[i].1
                    && r.spec_wheels()[i].enable_pin == motor_pins@[i].2),
    {
        let mut motors: Vec<Motor> = Vec::new();
        motors.push(Motor::new(motor_pins[0].0, motor_pins[0].1, motor_pins[0].2));
        motors.push(Motor::new(motor_pins[1].0, motor_pins[1].1, motor_pins[1].2));
        motors.push(Motor::new(motor_pins[2].0, motor_pins[2].1, motor_pins[2].2));
        motors.push(Motor::new(motor_pins[3].0, motor_pins[3].1, motor_pins[3].2));
        Drive { motors, pwm_frequency }
    }

    /// Commands all four channels with the signed duty cycles in
    /// `motor_speeds` (permille; positive forward, negative backward,
    /// zero stop), returning the pin writes in channel order.
    pub fn enable_motors(&mut self, motor_speeds: &Vec<i16>) -> (writes: Vec<PinWrite>)
        requires
            old(self).wf(),
            motor_speeds@.len() == 4,
            forall|i: int| 0 <= i < 4 ==> -1000 <= #[trigger] motor_speeds@[i] <= 1000,
        ensures
            final(self).wf(),
            final(self).spec_pwm_frequency() == old(self).spec_pwm_frequency(),
            final(self).spec_wheels() =~= wheels_after(
                old(self).spec_wheels(),
                motor_speeds@.map_values(|s: i16| s as int),
            ),
            writes@ == wheels_writes(
                old(self).spec_wheels(),
                motor_speeds@.map_values(|s: i16| s as int),
                old(self).spec_pwm_frequency(),
            ),
    {
        let ghost orig = self.motors@;
        let ghost duties = motor_speeds@.map_values(|s: i16| s as int);
        let mut writes: Vec<PinWrite> = Vec::new();
        let mut i: usize = 0;
        while i < 4
            invariant
                self.motors@.len() == 4,
                motor_speeds@.len() == 4,
                duties == motor_speeds@.map_values(|s: i16| s as int),
                forall|j: int| 0 <= j < 4 ==> -1000 <= #[trigger] motor_speeds@[j] <= 1000,
                i <= 4,
                self.pwm_frequency == old(self).spec_pwm_frequency(),
                orig == old(self).spec_wheels(),
                forall|j: int| 0 <= j < 4 ==> orig[j].wf(),
                forall|j: int| i <= j < 4 ==> self.motors@[j] == orig[j],
                forall|j: int| 0 <= j < i ==> self.motors@[j] == channel_after(orig[j], duties[j]),
                forall|j: int| 0 <= j < 4 ==> self.motors@[j].wf(),
                writes@ == wheels_writes_upto(orig, duties, self.pwm_frequency, i as int),
            decreases 4 - i,
        {
            let s = motor_speeds[i];
            let mut m = self.motors[i];
            let mut w: Vec<PinWrite>;
            if s > 0 {
                w = m.enable_fwd(self.pwm_frequency, s as u16);
            } else if s < 0 {
                w = m.enable_bwd(self.pwm_frequency, (-s) as u16);
            } else {
                w = m.stop();
            }
            self.motors[i] = m;
            writes.append(&mut w);
            proof {
                assert(self.motors@[i as int] == channel_after(orig[i as int], duties[i as int]));
                assert(writes@ == wheels_writes_upto(
                    orig,
                    duties,
                    self.pwm_frequency,
                    i as int + 1,
                ));
            }
            i = i + 1;
        }
        writes
    }

    /// Starts the given `motion` at duty cycle `duty_cycle` permille:
    /// every channel is commanded with exactly the signed duty the
    /// kinematic table prescribes. For `Motion::Stop` all four
    /// channels stop regardless of the duty cycle.
    pub fn enable_with_duty_cycle(&mut self, motion: Motion, duty_cycle: u16) -> (writes: Vec<
        PinWrite,
    >)
        requires
            old(self).wf(),
            duty_cycle <= 1000,
        ensures
            final(self).wf(),
            final(self).spec_pwm_frequency() == old(self).spec_pwm_frequency(),
            final(self).spec_wheels() =~= wheels_after(
                old(self).spec_wheels(),
                spec_wheel_duties(motion, duty_cycle as int),
            ),
            writes@ == wheels_writes(
                old(self).spec_wheels(),
                spec_wheel_duties(motion, duty_cycle as int),
                old(self).spec_pwm_frequency(),
            ),
            forall|i: int|
                0 <= i < 4 ==> final(self).spec_wheels()[i] == channel_after(
                    old(self).spec_wheels()[i],
                    spec_wheel_duties(motion, duty_cycle as int)[i],
                ),
            motion == Motion::Stop ==> final(self).spec_all_stopped(),
    {
        let motor_speeds = wheel_duties(motion, duty_cycle);
        proof {
            assert(motor_speeds@.map_values(|s: i16| s as int) =~= spec_wheel_duties(
                motion,
                duty_cycle as int,
            ));
        }
        self.enable_motors(&motor_speeds)
    }

    /// Starts the given `motion` at the duty cycle `speed` stands
    /// for.
    pub fn enable(&mut self, motion: Motion, speed: Speed) -> (writes: Vec<PinWrite>)
        requires
            old(self).wf(),
            speed.wf(),
        ensures
            final(self).wf(),
            final(self).spec_pwm_frequency() == old(self).spec_pwm_frequency(),
            final(self).spec_wheels() =~= wheels_after(
                old(self).spec_wheels(),
                spec_wheel_duties(motion, speed.spec_duty_cycle()),
            ),
            writes@ == wheels_writes(
                old(self).spec_wheels(),
                spec_wheel_duties(motion, speed.spec_duty_cycle()),
                old(self).spec_pwm_frequency(),
            ),
            motion == Motion::Stop ==> final(self).spec_all_stopped(),
    {
        let duty_cycle = speed.get_duty_cycle();
        self.enable_with_duty_cycle(motion, duty_cycle)
    }

    /// Stops the robot: `enable(Stop, Low)`, leaving every channel
    /// stopped and floating.
    pub fn disable(&mut self) -> (writes: Vec<PinWrite>)
        requires
            old(self).wf(),
        ensures
            final(self).wf(),
            final(self).spec_pwm_frequency() == old(self).spec_pwm_frequency(),
            final(self).spec_all_stopped(),
            final(self).spec_wheels() =~= wheels_after(
                old(self).spec_wheels(),
                spec_wheel_duties(Motion::Stop, 300),
            ),
            writes@ == wheels_writes(
                old(self).spec_wheels(),
                spec_wheel_duties(Motion::Stop, 300),
                old(self).spec_pwm_frequency(),
            ),
    {
        self.enable(Motion::Stop, Speed::Low)
    }

    /// Starts the given `motion` at the given `speed`: the legacy
    /// immediate-motion entry point.
    pub fn move_robot(&mut self, motion: &Motion, speed: &Speed) -> (writes: Vec<PinWrite>)
        requires
            old(self).wf(),
            speed.wf(),
        ensures
            final(self).wf(),
            final(self).spec_wheels() =~= wheels_after(
                old(self).spec_wheels(),
                spec_wheel_duties(*motion, speed.spec_duty_cycle()),
            ),
    {
        self.enable(*motion, *speed)
    }

    /// Plans moving the robot with `motion` a specified `distance`
    /// (millimeters) at `speed`. Wildly inaccurate: based only on the
    /// calibrated straight-line velocity, ignoring acceleration. The
    /// plan enables the motion now and disables it after the computed
    /// duration; the rotational motions are out of contract here.
    pub fn move_distance(&self, motion: Motion, speed: Speed, distance_mm: u64) -> (plan:
        ManeuverPlan)
        requires
            speed.wf(),
            !motion.spec_is_rotation(),
            spec_velocity(speed.spec_duty_cycle()) > 0,
            distance_mm <= MAX_MOVE_DISTANCE_MM,
        ensures
            plan.motion == motion,
            plan.speed == speed,
            plan.duration_ms == spec_move_duration_ms(
                distance_mm as int,
                spec_velocity(speed.spec_duty_cycle()),
            ),
    {
        let v = speed.get_velocity();
        let duration_ms = distance_mm * 1000 / (v as u64);
        ManeuverPlan { motion, speed, duration_ms }
    }

    /// Plans rotating the robot with `motion` a specified `angle`
    /// (millidegrees) at `speed`: the arc length at the robot radius
    /// is driven for the computed duration. Only the two rotational
    /// motions are in contract.
    pub fn rotate_angle(&self, motion: Motion, speed: Speed, angle_mdeg: u64) -> (plan:
        ManeuverPlan)
        requires
            speed.wf(),
            motion.spec_is_rotation(),
            spec_velocity(speed.spec_duty_cycle()) > 0,
            angle_mdeg <= MAX_ROTATE_ANGLE_MDEG,
        ensures
            plan.motion == motion,
            plan.speed == speed,
            plan.duration_ms == spec_move_duration_ms(
                spec_rotate_distance_mm(angle_mdeg as int),
                spec_velocity(speed.spec_duty_cycle()),
            ),
    {
        let v = speed.get_velocity();
        proof {
            assert(2 * PI_MICRO * ROBOT_RADIUS_MM == 691150460int);
            assert(691150460 * (angle_mdeg as int) <= 691150460 * 100000000int)
                by (nonlinear_arith)
                requires
                    angle_mdeg <= 100000000,
            ;
        }
        let arc_numerator = 2 * PI_MICRO * ROBOT_RADIUS_MM * angle_mdeg;
        let distance_mm = arc_numerator / (360 * 1000 * 1000000);
        proof {
            assert(arc_numerator <= 69115046000000000u64);
            vstd::arithmetic::div_mod::lemma_div_is_ordered(
                arc_numerator as int,
                69115046000000000int,
                360 * 1000 * 1000000int,
            );
            assert(69115046000000000int / 360000000000int == 191986int);
            assert(distance_mm <= 191986u64);
        }
        let duration_ms = distance_mm * 1000 / (v as u64);
        ManeuverPlan { motion, speed, duration_ms }
    }

    /// Handles one mailbox command: immediately commands the wheels
    /// for `Enable` and `Disable`, plans a timed maneuver for `Move`
    /// and `Rotate`, and answers every command with exactly one
    /// response — an echo of the command, or the error that rejected
    /// it. Out-of-contract commands are rejected, never silently
    /// reinterpreted.
    pub fn handle(&mut self, msg: DriveMessage) -> (r: (DriveResponse, Vec<PinWrite>, Option<
        ManeuverPlan,
    >))
        requires
            old(self).wf(),
        ensures
            final(self).wf(),
            final(self).spec_pwm_frequency() == old(self).spec_pwm_frequency(),
            final(self).spec_wheels() =~= msg_wheels_after(old(self).spec_wheels(), msg),
            r.1@ == msg_writes(
                old(self).spec_wheels(),
                msg,
                old(self).spec_pwm_frequency(),
            ),
            msg.spec_valid() ==> r.0 == DriveResponse::Accepted(msg),
            !msg.spec_valid() ==> (r.0 matches DriveResponse::Rejected(e) && e is Protocol),
            match msg {
                DriveMessage::Move { motion, speed, distance_mm } => if msg.spec_valid() {
                    r.2 == Some(
                        ManeuverPlan {
                            motion,
                            speed,
                            duration_ms: spec_move_duration_ms(
                                distance_mm as int,
                                spec_velocity(speed.spec_duty_cycle()),
                            ) as u64,
                        },
                    )
                } else {
                    r.2 is None
                },
                DriveMessage::Rotate { motion, speed, angle_mdeg } => if msg.spec_valid() {
                    r.2 == Some(
                        ManeuverPlan {
                            motion,
                            speed,
                            duration_ms: spec_move_duration_ms(
                                spec_rotate_distance_mm(angle_mdeg as int),
                                spec_velocity(speed.spec_duty_cycle()),
                            ) as u64,
                        },
                    )
                } else {
                    r.2 is None
                },
                _ => r.2 is None,
            },
            msg is Disable ==> final(self).spec_all_stopped(),
            msg is Disable && old(self).spec_all_stopped() ==> final(self).spec_wheels()
                =~= old(self).spec_wheels(),
    {
        match msg {
            DriveMessage::Enable { motion, speed } => {
                if speed.is_valid() {
                    let writes = self.enable(motion, speed);
                    (DriveResponse::Accepted(msg), writes, None)
                } else {
                    let e = Error::Protocol(String::from_str("duty cycle above full power"));
                    (DriveResponse::Rejected(e), Vec::new(), None)
                }
            },
            DriveMessage::Disable => {
                let writes = self.disable();
                proof {
                    if old(self).spec_all_stopped() {
                        assert forall|i: int| 0 <= i < 4 implies final(self).spec_wheels()[i]
                            == old(self).spec_wheels()[i] by {
                            assert(old(self).spec_wheels()[i].is_stopped());
                        }
                    }
                }
                (DriveResponse::Accepted(msg), writes, None)
            },
            DriveMessage::Move { motion, speed, distance_mm } => {
                if !speed.is_valid() {
                    let e = Error::Protocol(String::from_str("duty cycle above full power"));
                    (DriveResponse::Rejected(e), Vec::new(), None)
                } else if motion.is_rotation() {
                    let e = Error::Protocol(
                        String::from_str("invalid motion for moving a distance"),
                    );
                    (DriveResponse::Rejected(e), Vec::new(), None)
                } else if speed.get_velocity() == 0 {
                    let e = Error::Protocol(String::from_str("speed too low to move"));
                    (DriveResponse::Rejected(e), Vec::new(), None)
                } else if distance_mm > MAX_MOVE_DISTANCE_MM {
                    let e = Error::Protocol(String::from_str("distance out of range"));
                    (DriveResponse::Rejected(e), Vec::new(), None)
                } else {
                    let plan = self.move_distance(motion, speed, distance_mm);
                    (DriveResponse::Accepted(msg), Vec::new(), Some(plan))
                }
            },
            DriveMessage::Rotate { motion, speed, angle_mdeg } => {
                if !speed.is_valid() {
                    let e = Error::Protocol(String::from_str("duty cycle above full power"));
                    (DriveResponse::Rejected(e), Vec::new(), None)
                } else if !motion.is_rotation() {
                    let e = Error::Protocol(
                        String::from_str("invalid motion for rotating an angle"),
                    );
                    (DriveResponse::Rejected(e), Vec::new(), None)
                } else if speed.get_velocity() == 0 {
                    let e = Error::Protocol(String::from_str("speed too low to rotate"));
                    (DriveResponse::Rejected(e), Vec::new(), None)
                } else if angle_mdeg > MAX_ROTATE_ANGLE_MDEG {
                    let e = Error::Protocol(String::from_str("angle out of range"));
                    (DriveResponse::Rejected(e), Vec::new(), None)
                } else {
                    let plan = self.rotate_angle(motion, speed, angle_mdeg);
                    (DriveResponse::Accepted(msg), Vec::new(), Some(plan))
                }
            },
        }
    }

    /// Processes a whole batch of queued commands in arrival order,
    /// as the single-consumer mailbox does: one response per command,
    /// and a flat hardware trace in which the pin writes of each
    /// command stay contiguous.
    pub fn process_mailbox(&mut self, msgs: &Vec<DriveMessage>) -> (r: (Vec<DriveResponse>, Vec<
        PinWrite,
    >))
        requires
            old(self).wf(),
        ensures
            final(self).wf(),
            final(self).spec_pwm_frequency() == old(self).spec_pwm_frequency(),
            final(self).spec_wheels() =~= mailbox_wheels_after(old(self).spec_wheels(), msgs@),
            r.1@ == mailbox_writes(
                old(self).spec_wheels(),
                msgs@,
                old(self).spec_pwm_frequency(),
            ),
            r.0@.len() == msgs@.len(),
    {
        let ghost orig = self.spec_wheels();
        let ghost freq = self.spec_pwm_frequency();
        let mut responses: Vec<DriveResponse> = Vec::new();
        let mut trace: Vec<PinWrite> = Vec::new();
        let mut i: usize = 0;
        while i < msgs.len()
            invariant
                self.wf(),
                i <= msgs@.len(),
                self.spec_pwm_frequency() == freq,
                self.spec_wheels() =~= mailbox_wheels_after(orig, msgs@.take(i as int)),
                trace@ == mailbox_writes(orig, msgs@.take(i as int), freq),
                responses@.len() == i,
            decreases msgs@.len() - i,
        {
            let ghost prefix = msgs@.take(i as int);
            let ghost pre_wheels = self.spec_wheels();
            let msg = msgs[i];
            let (resp, mut writes, _plan) = self.handle(msg);
            responses.push(resp);
            trace.append(&mut writes);
            proof {
                lemma_mailbox_snoc(orig, prefix, msg, freq);
                assert(msgs@.take(i as int + 1) =~= prefix.push(msg));
                assert(self.spec_wheels() =~= msg_wheels_after(pre_wheels, msg));
                assert(mailbox_wheels_after(orig, prefix.push(msg)) =~= msg_wheels_after(
                    mailbox_wheels_after(orig, prefix),
                    msg,
                ));
            }
            i = i + 1;
        }
        proof {
            assert(msgs@.take(msgs@.len() as int) =~= msgs@);
        }
        (responses, trace)
    }

    /// A snapshot of the four motor channels, in wheel order.
    pub fn wheels(&self) -> (r: Vec<Motor>)
        requires
            self.wf(),
        ensures
            r@ == self.spec_wheels(),
    {
        let mut r: Vec<Motor> = Vec::new();
        let mut i: usize = 0;
        while i < 4
            invariant
                self.wf(),
                i <= 4,
                r@.len() == i,
                forall|j: int| 0 <= j < i ==> r@[j] == self.spec_wheels()[j],
            decreases 4 - i,
        {
            r.push(self.motors[i]);
            i = i + 1;
        }
        proof {
            assert(r@ =~= self.spec_wheels());
        }
        r
    }

    /// The (forward, backward, enable) pin triples of the four motor
    /// channels, in wheel order, for listing.
    pub fn list_motors(&self) -> (r: Vec<(u8, u8, u8)>)
        requires
            self.wf(),
        ensures
            r@.len() == 4,
            forall|i: int|
                0 <= i < 4 ==> r@[i] == (
                    self.spec_wheels()[i].fwd_pin,
                    self.spec_wheels()[i].bwd_pin,
                    self.spec_wheels()[i].enable_pin,
                ),
    {
        let mut r: Vec<(u8, u8, u8)> = Vec::new();
        let mut i: usize = 0;
        while i < 4
            invariant
                self.wf(),
                i <= 4,
                r@.len() == i,
                forall|j: int|
                    0 <= j < i ==> r@[j] == (
                        self.spec_wheels()[j].fwd_pin,
                        self.spec_wheels()[j].bwd_pin,
                        self.spec_wheels()[j].enable_pin,
                    ),
            decreases 4 - i,
        {
            r.push(self.motors[i].pins());
            i = i + 1;
        }
        r
    }
}

} // verus!
