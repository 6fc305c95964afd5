//! Ultrasonic distance ranging with bounded-timeout semantics.
//!
//! The sensor measures the high-duration of an echo pulse; the
//! duration is proportional to the round-trip distance. The hardware
//! layer performs the edge-interrupt waits and hands the raw
//! observations of one measurement attempt to this module, which
//! decides the outcome: a distance, the infinite-distance sentinel
//! for a timeout, or a hardware fault for a blocked echo line.
//!
//! A timeout is a valid result, not an error: `Distance::Infinite`
//! means "echo not detected within the bounded wait".
use crate::error::Error;
use vstd::prelude::*;

verus! {

/// Speed of sound at zero degrees Celsius, in millimeters per second.
pub const SOUND_SPEED_0C_MM_S: u64 = 331300;

/// Speed-of-sound increase per degree Celsius, in millimeters per
/// second.
pub const SOUND_SPEED_INCR_MM_S: u64 = 606;

/// Configured maximum range of the sensor, in millimeters.
pub const MAX_RANGE_MM: u64 = 4000;

/// What one edge-interrupt wait on the echo pin observed: the pin
/// level at the interrupt, or no interrupt within the timeout.
#[derive(Clone, Copy, Debug, PartialEq, Eq, Structural)]
pub enum PollResult {
    /// The pin was seen high.
    High,
    /// The pin was seen low.
    Low,
    /// No edge came within the bounded wait.
    TimedOut,
}

/// A measured distance: finite in millimeters, or the sentinel for
/// "no echo within timeout", which is a valid result.
#[derive(Clone, Copy, Debug, PartialEq, Eq, Structural)]
pub enum Distance {
    /// Distance in millimeters.
    Finite(u64),
    /// Echo not detected or not finished within the bounded wait.
    Infinite,
}

/// One measurement: the wall-clock timestamp at trigger time, in
/// milliseconds, and the measured distance.
#[derive(Clone, Copy, Debug, PartialEq, Eq, Structural)]
pub struct HcSr04Result {
    /// Wall-clock time at trigger, in milliseconds.
    pub time_ms: u64,
    /// The measured distance.
    pub distance: Distance,
}

/// The raw observations of one measurement attempt, as the hardware
/// layer gathered them in order: the echo level before triggering,
/// the recovery wait if it was high, the trigger timestamp, the two
/// edge waits and the measured pulse width.
#[derive(Clone, Copy, Debug)]
pub struct MeasureAttempt {
    /// Whether the echo line was still asserted from a prior cycle.
    pub echo_was_high: bool,
    /// What the bounded recovery wait observed; meaningful only when
    /// `echo_was_high`.
    pub clear_poll: PollResult,
    /// Wall-clock time at trigger, in milliseconds.
    pub time_ms: u64,
    /// What the wait for the echo rising edge observed.
    pub rise_poll: PollResult,
    /// What the wait for the echo falling edge observed; meaningful
    /// only when the rising edge was seen.
    pub fall_poll: PollResult,
    /// High-duration of the echo pulse, in microseconds; meaningful
    /// only when both edges were seen.
    pub elapsed_us: u64,
}

/// The speed of sound at `temperature_centi` hundredths of a degree
/// Celsius, in millimeters per second: the zero-degree speed plus
/// the per-degree increase, computed exactly in micrometers per
/// second and then brought to millimeters.
pub open spec fn spec_sound_speed_mm_s(temperature_centi: int) -> int {
    (331300000 + 6060 * temperature_centi) / 1000
}

/// The falling-edge timeout derived from the maximum range: two and a
/// half times the round trip at maximum range, in microseconds.
pub open spec fn spec_echo_timeout_us(sound_speed_mm_s: int) -> int
    recommends
        sound_speed_mm_s > 0,
{
    MAX_RANGE_MM * 2500000 / sound_speed_mm_s
}

/// Round-trip pulse width turned into one-way distance: speed of
/// sound times the pulse width, halved, in millimeters.
pub open spec fn spec_pulse_distance_mm(sound_speed_mm_s: int, elapsed_us: int) -> int {
    sound_speed_mm_s * elapsed_us / 2000000
}

/// Ultrasonic rangefinder: trigger and echo pins, the
/// temperature-derived speed of sound, and the max-range-derived
/// falling-edge timeout.
pub struct HcSr04 {
    /// BCM number of the trigger pin.
    trig_pin: u8,
    /// BCM number of the echo pin.
    echo_pin: u8,
    /// Temperature-compensated speed of sound, in millimeters per
    /// second.
    sound_speed_mm_s: u32,
    /// Falling-edge timeout, in microseconds.
    timeout_us: u64,
}

impl HcSr04 {
    /// BCM number of the trigger pin.
    pub closed spec fn spec_trig_pin(self) -> u8 {
        self.trig_pin
    }

    /// BCM number of the echo pin.
    pub closed spec fn spec_echo_pin(self) -> u8 {
        self.echo_pin
    }

    /// The carried speed of sound, in millimeters per second.
    pub closed spec fn spec_sound_speed(self) -> u32 {
        self.sound_speed_mm_s
    }

    /// The carried falling-edge timeout, in microseconds.
    pub closed spec fn spec_timeout_us(self) -> u64 {
        self.timeout_us
    }

    /// The rangefinder invariant: a positive, physically bounded
    /// speed of sound.
    pub open spec fn wf(self) -> bool {
        0 < self.spec_sound_speed() <= 1000000
    }

    /// Derives the speed of sound and the falling-edge timeout from
    /// the air temperature, given in hundredths of a degree Celsius.
    /// The temperature range keeps the speed of sound positive and
    /// the arithmetic in range.
    pub fn calculate_parameters(temperature_centi: i32) -> (r: (u32, u64))
        requires
            -40000 <= temperature_centi <= 100000,
        ensures
            r.0 == spec_sound_speed_mm_s(temperature_centi as int),
            0 < r.0 <= 1000000,
            r.1 == spec_echo_timeout_us(r.0 as int),
    {
        let shifted = (temperature_centi + 40000) as u64;
        let sound_um_s = 88900000 + 6060 * shifted;
        let sound_speed = (sound_um_s / 1000) as u32;
        proof {
            assert(sound_um_s == 331300000 + 6060 * (temperature_centi as int));
        }
        let timeout_us = 4000 * 2500000 / (sound_speed as u64);
        (sound_speed, timeout_us)
    }

    /// Creates a new `HcSr04` instance for the given trigger and echo
    /// pins, with the speed of sound compensated for the air
    /// temperature in hundredths of a degree Celsius.
    pub fn new(trig_pin: u8, echo_pin: u8, temperature_centi: i32) -> (r: HcSr04)
        requires
            -40000 <= temperature_centi <= 100000,
        ensures
            r.wf(),
            r.spec_trig_pin() == trig_pin,
            r.spec_echo_pin() == echo_pin,
            r.spec_sound_speed() == spec_sound_speed_mm_s(temperature_centi as int),
            r.spec_timeout_us() == spec_echo_timeout_us(r.spec_sound_speed() as int),
    {
        let (sound_speed_mm_s, timeout_us) = Self::calculate_parameters(temperature_centi);
        HcSr04 { trig_pin, echo_pin, sound_speed_mm_s, timeout_us }
    }

    /// Decides the outcome of one measurement attempt from the raw
    /// observations, exactly as the ranging state machine
    /// prescribes: a blocked echo line is a hardware fault; a missing
    /// rising or falling edge is the valid infinite-distance result;
    /// a complete pulse of width `t` measures `sound_speed * t / 2`.
    pub fn measure_outcome(&self, attempt: &MeasureAttempt) -> (r: Result<HcSr04Result, Error>)
        requires
            self.wf(),
            attempt.elapsed_us <= 1000000000000,
        ensures
            attempt.echo_was_high && attempt.clear_poll != PollResult::Low ==> (
            r matches Err(e) && e is Gpio),
            (!attempt.echo_was_high || attempt.clear_poll == PollResult::Low)
                && attempt.rise_poll != PollResult::High ==> r == Result::<
                HcSr04Result,
                Error,
            >::Ok(HcSr04Result { time_ms: attempt.time_ms, distance: Distance::Infinite }),
            (!attempt.echo_was_high || attempt.clear_poll == PollResult::Low)
                && attempt.rise_poll == PollResult::High && attempt.fall_poll != PollResult::Low
                ==> r == Result::<HcSr04Result, Error>::Ok(
                HcSr04Result { time_ms: attempt.time_ms, distance: Distance::Infinite },
            ),
            (!attempt.echo_was_high || attempt.clear_poll == PollResult::Low)
                && attempt.rise_poll == PollResult::High && attempt.fall_poll == PollResult::Low
                ==> r == Result::<HcSr04Result, Error>::Ok(
                HcSr04Result {
                    time_ms: attempt.time_ms,
                    distance: Distance::Finite(
                        spec_pulse_distance_mm(
                            self.spec_sound_speed() as int,
                            attempt.elapsed_us as int,
                        ) as u64,
                    ),
                },
            ),
    {
        if attempt.echo_was_high && !matches!(attempt.clear_poll, PollResult::Low) {
            return Err(Error::Gpio(String::from_str("echo pin blocked")));
        }
        if !matches!(attempt.rise_poll, PollResult::High) {
            return Ok(HcSr04Result { time_ms: attempt.time_ms, distance: Distance::Infinite });
        }
        if !matches!(attempt.fall_poll, PollResult::Low) {
            return Ok(HcSr04Result { time_ms: attempt.time_ms, distance: Distance::Infinite });
        }
        proof {
            assert((self.sound_speed_mm_s as int) * (attempt.elapsed_us as int) <= 1000000
                * 1000000000000int) by (nonlinear_arith)
                requires
                    0 <= self.sound_speed_mm_s <= 1000000,
                    0 <= attempt.elapsed_us <= 1000000000000,
            ;
        }
        let distance_mm = (self.sound_speed_mm_s as u64) * attempt.elapsed_us / 2000000;
        Ok(HcSr04Result { time_ms: attempt.time_ms, distance: Distance::Finite(distance_mm) })
    }
}

/// Who asked for a measurement and gets the response.
#[derive(Clone, Copy, Debug, PartialEq, Eq, Structural)]
pub enum Recipient {
    /// The per-connection protocol gateway.
    WebSocket,
    /// The calibration orchestrator.
    Calibrator,
    /// The distance-scan orchestrator.
    Scanner,
}

/// Commands the rangefinder accepts through its mailbox: one
/// measurement, or an ordered batch.
#[derive(Clone, Copy, Debug, PartialEq, Eq, Structural)]
pub enum HcSr04Message {
    /// One measurement, answered to the recipient.
    Single(Recipient),
    /// A batch of sequential measurements, answered to the recipient.
    Multiple(usize, Recipient),
}

impl HcSr04Message {
    /// How many measurement attempts the command asks for.
    pub open spec fn spec_count(self) -> int {
        match self {
            HcSr04Message::Single(_) => 1,
            HcSr04Message::Multiple(n, _) => n as int,
        }
    }

    /// Who gets the response.
    pub open spec fn spec_recipient(self) -> Recipient {
        match self {
            HcSr04Message::Single(r) => r,
            HcSr04Message::Multiple(_, r) => r,
        }
    }
}

/// A successful measurement payload: one result, or the ordered
/// batch.
#[derive(Clone, Debug, PartialEq, Eq)]
pub enum HcSr04Measurement {
    Single(HcSr04Result),
    Multiple(Vec<HcSr04Result>),
}

/// What the rangefinder answers: measurements, or the hardware fault
/// that aborted them. A timeout is never a fault: it arrives as an
/// infinite-distance measurement.
#[derive(Debug)]
pub enum HcSr04Response {
    /// The requested measurements.
    Measured(HcSr04Measurement),
    /// The hardware fault that aborted the request.
    Failed(Error),
}

impl HcSr04 {
    /// Answers one mailbox command from the outcomes of the
    /// measurement attempts the hardware layer performed for it, in
    /// order: the measurements on success, the first fault
    /// otherwise, addressed to the command's recipient.
    pub fn handle(&self, msg: &HcSr04Message, outcomes: &Vec<Result<HcSr04Result, Error>>) -> (r:
        (HcSr04Response, Recipient))
        requires
            outcomes@.len() == msg.spec_count(),
        ensures
            r.1 == msg.spec_recipient(),
            msg is Single && outcomes@[0] is Ok ==> r.0 == HcSr04Response::Measured(
                HcSr04Measurement::Single(outcomes@[0]->Ok_0),
            ),
            msg is Single && outcomes@[0] is Err ==> (r.0 matches HcSr04Response::Failed(e) && e
                == outcomes@[0]->Err_0),
            msg is Multiple && (forall|i: int| 0 <= i < outcomes@.len() ==> outcomes@[i] is Ok)
                ==> (r.0 matches HcSr04Response::Measured(m) && m matches
                HcSr04Measurement::Multiple(v) && v@.len() == outcomes@.len() && forall|i: int|
                0 <= i < outcomes@.len() ==> v@[i] == outcomes@[i]->Ok_0),
            msg is Multiple && (exists|i: int| 0 <= i < outcomes@.len() && outcomes@[i] is Err)
                ==> (r.0 matches HcSr04Response::Failed(e) && exists|j: int|
                0 <= j < outcomes@.len() && outcomes@[j] is Err && (forall|k: int|
                    0 <= k < j ==> outcomes@[k] is Ok) && e == outcomes@[j]->Err_0),
    {
        match msg {
            HcSr04Message::Single(recipient) => {
                let resp = match &outcomes[0] {
                    Ok(m) => HcSr04Response::Measured(HcSr04Measurement::Single(*m)),
                    Err(e) => HcSr04Response::Failed(e.duplicate()),
                };
                (resp, *recipient)
            },
            HcSr04Message::Multiple(_, recipient) => {
                let resp = match collect_measurements(outcomes) {
                    Ok(v) => HcSr04Response::Measured(HcSr04Measurement::Multiple(v)),
                    Err(e) => HcSr04Response::Failed(e),
                };
                (resp, *recipient)
            },
        }
    }
}

/// The sum of a batch of finite measured distances, in millimeters.
pub open spec fn spec_distance_sum(rs: Seq<HcSr04Result>) -> int
    decreases rs.len(),
{
    if rs.len() == 0 {
        0
    } else {
        spec_distance_sum(rs.drop_last()) + (match rs.last().distance {
            Distance::Finite(d) => d as int,
            Distance::Infinite => 0,
        })
    }
}

/// A prefix of a batch never sums to more than the whole batch.
proof fn lemma_distance_sum_prefix(rs: Seq<HcSr04Result>, n: int)
    requires
        0 <= n <= rs.len(),
    ensures
        spec_distance_sum(rs.take(n)) <= spec_distance_sum(rs),
    decreases rs.len() - n,
{
    if n < rs.len() {
        lemma_distance_sum_prefix(rs, n + 1);
        assert(rs.take(n + 1).drop_last() =~= rs.take(n));
        assert(rs.take(n + 1).last() == rs[n]);
        assert(spec_distance_sum(rs.take(n)) <= spec_distance_sum(rs.take(n + 1)));
    } else {
        assert(rs.take(n) =~= rs);
    }
}

/// Orders the outcomes of sequential measurement attempts into one
/// batch result: all measurements in attempt order, or the first
/// fault. Sequential attempts never overlap echoes, so order is
/// preserved as observed.
pub fn collect_measurements(outcomes: &Vec<Result<HcSr04Result, Error>>) -> (r: Result<
    Vec<HcSr04Result>,
    Error,
>)
    ensures
        (forall|i: int| 0 <= i < outcomes@.len() ==> outcomes@[i] is Ok) ==> (r matches Ok(v)
            && v@.len() == outcomes@.len() && forall|i: int|
            0 <= i < outcomes@.len() ==> v@[i] == outcomes@[i]->Ok_0),
        r is Err ==> exists|j: int|
            0 <= j < outcomes@.len() && outcomes@[j] is Err && (forall|k: int|
                0 <= k < j ==> outcomes@[k] is Ok) && r->Err_0 == outcomes@[j]->Err_0,
        (exists|i: int| 0 <= i < outcomes@.len() && outcomes@[i] is Err) ==> r is Err,
        r matches Ok(v) ==> v@.len() <= outcomes@.len(),
{
    let n = outcomes.len();
    let mut measurements: Vec<HcSr04Result> = Vec::new();
    let mut i: usize = 0;
    while i < n
        invariant
            n == outcomes@.len(),
            i <= n,
            measurements@.len() == i,
            forall|k: int| 0 <= k < i ==> outcomes@[k] is Ok,
            forall|k: int| 0 <= k < i ==> measurements@[k] == outcomes@[k]->Ok_0,
        decreases n - i,
    {
        match &outcomes[i] {
            Ok(m) => {
                measurements.push(*m);
            },
            Err(e) => {
                proof {
                    assert(!(forall|k: int| 0 <= k < outcomes@.len() ==> outcomes@[k] is Ok))
                        by {
                        assert(outcomes@[i as int] is Err);
                    }
                    assert((i as int) < outcomes@.len() && outcomes@[i as int] is Err && (
                    forall|k: int| 0 <= k < i as int ==> outcomes@[k] is Ok));
                }
                return Err(e.duplicate());
            },
        }
        i = i + 1;
    }
    Ok(measurements)
}

/// The mean of a batch of measured distances, as the client-facing
/// report uses it: infinite if the batch is empty, if any sample is
/// infinite, or if the sum leaves the machine word; else the integer
/// mean of the finite distances.
pub open spec fn spec_mean_distance(rs: Seq<HcSr04Result>) -> Distance {
    if rs.len() == 0 {
        Distance::Infinite
    } else if exists|i: int| 0 <= i < rs.len() && #[trigger] rs[i].distance is Infinite {
        Distance::Infinite
    } else if spec_distance_sum(rs) > u64::MAX {
        Distance::Infinite
    } else {
        Distance::Finite((spec_distance_sum(rs) / rs.len() as int) as u64)
    }
}

/// The mean of a batch of measured distances.
pub fn mean_distance(results: &Vec<HcSr04Result>) -> (r: Distance)
    ensures
        r == spec_mean_distance(results@),
{
    let n = results.len();
    if n == 0 {
        return Distance::Infinite;
    }
    let mut sum: u64 = 0;
    let mut i: usize = 0;
    while i < n
        invariant
            n == results@.len(),
            i <= n,
            forall|k: int| 0 <= k < i ==> #[trigger] results@[k].distance is Finite,
            sum == spec_distance_sum(results@.take(i as int)),
        decreases n - i,
    {
        let d = match results[i].distance {
            Distance::Finite(d) => d,
            Distance::Infinite => {
                return Distance::Infinite;
            },
        };
        proof {
            assert(results@.take(i as int + 1).drop_last() =~= results@.take(i as int));
            assert(results@.take(i as int + 1).last() == results@[i as int]);
        }
        if sum > u64::MAX - d {
            proof {
                if forall|k: int|
                    0 <= k < results@.len() ==> !(#[trigger] results@[k].distance is Infinite) {
                    lemma_distance_sum_prefix(results@, i as int + 1);
                    assert(spec_distance_sum(results@) > u64::MAX);
                }
            }
            return Distance::Infinite;
        }
        sum = sum + d;
        i = i + 1;
    }
    proof {
        assert(results@.take(n as int) =~= results@);
    }
    Distance::Finite(sum / (n as u64))
}

} // verus!
