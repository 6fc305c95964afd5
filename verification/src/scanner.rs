//! Rotational distance scan: an angular distance profile.
//!
//! The scanner rotates the robot in place and requests one ranging
//! measurement every fixed interval, `resolution` times per started
//! scan, then disables the drive. Each returned sample is given a
//! bearing reconstructed from the elapsed wall-clock fraction of a
//! full revolution — an explicit approximation: no odometry is read,
//! and motor startup lag is not corrected for.
use crate::drive::DriveMessage;
use crate::drive::PI_MICRO;
use crate::drive::ROBOT_RADIUS_MM;
use crate::motion::Motion;
use crate::ranging::Distance;
use crate::ranging::HcSr04Measurement;
use crate::ranging::HcSr04Message;
use crate::ranging::HcSr04Response;
use crate::ranging::Recipient;
use crate::speed::Speed;
use crate::speed::spec_velocity;
use vstd::arithmetic::div_mod::lemma_div_by_multiple;
use vstd::arithmetic::div_mod::lemma_div_denominator;
use vstd::prelude::*;

verus! {

/// Time between two sample requests, in milliseconds: the time one
/// full revolution takes at the calibrated velocity — the turning
/// circle stretched by the slip factor — split over `resolution`
/// samples.
pub open spec fn spec_sample_interval_ms(slip_permille: int, velocity_mm_s: int, resolution: int)
    -> int
    recommends
        velocity_mm_s > 0,
        resolution > 0,
{
    2 * (PI_MICRO as int) * (ROBOT_RADIUS_MM as int) * (1000 + slip_permille) / (1000000
        * velocity_mm_s * resolution)
}

/// The milliseconds elapsed from the scan start to a sample, clamped
/// below at zero and above at the bound that keeps the bearing
/// arithmetic in range.
pub open spec fn spec_elapsed_ms(sample_time_ms: int, start_time_ms: int) -> int {
    if sample_time_ms <= start_time_ms {
        0
    } else if sample_time_ms - start_time_ms > 1000000000000 {
        1000000000000
    } else {
        sample_time_ms - start_time_ms
    }
}

/// The bearing of a sample, in millidegrees: the elapsed fraction of
/// a full revolution of `resolution * interval` milliseconds. Zero
/// when that revolution time is zero.
pub open spec fn spec_bearing_mdeg(elapsed_ms: int, resolution: int, interval_ms: int) -> int
    recommends
        elapsed_ms >= 0,
{
    if resolution * interval_ms <= 0 {
        0
    } else {
        360000 * elapsed_ms / (resolution * interval_ms)
    }
}

/// When the sampling cadence is exact — sample `i` lands at exactly
/// `i` intervals after the start — the reconstructed bearing is
/// exactly `i` times the sample spacing of a full turn:
/// `i * 360000 / resolution` millidegrees.
pub proof fn lemma_bearing_exact_cadence(i: int, resolution: int, interval_ms: int)
    requires
        0 <= i,
        1 <= resolution,
        1 <= interval_ms,
    ensures
        spec_bearing_mdeg(i * interval_ms, resolution, interval_ms) == 360000 * i / resolution,
{
    let t = interval_ms;
    let n = resolution;
    assert(n * t >= 1) by (nonlinear_arith)
        requires
            n >= 1,
            t >= 1,
    ;
    assert(360000 * (i * t) == (360000 * i) * t) by (nonlinear_arith);
    assert(n * t == t * n) by (nonlinear_arith);
    lemma_div_denominator(360000 * i * t, t, n);
    assert(((360000 * i) * t) / t == 360000 * i) by {
        lemma_div_by_multiple(360000 * i, t);
    }
    assert(360000 * (i * t) / (n * t) == ((360000 * i) * t) / (t * n));
}

/// Commands a `Scanner` accepts through its mailbox.
#[derive(Clone, Copy, Debug, PartialEq, Eq, Structural)]
pub enum ScannerMessage {
    /// Begin a scan: rotate at `speed`, correct the turning circle
    /// by `slip_permille`, take `resolution` samples per revolution.
    Start { speed: Speed, slip_permille: u32, resolution: usize },
    /// End the session; the robot is stopped.
    Stop,
}

/// What a handled scanner command asks the rest of the system to do.
#[derive(Clone, Copy, Debug, PartialEq, Eq, Structural)]
pub enum ScannerAction {
    /// Start rotating; the sampling loop follows.
    BeginScan(DriveMessage),
    /// The session ends: stop the robot.
    Halt(DriveMessage),
    /// The command was out of contract and is rejected.
    Reject,
}

/// One turn of the sampling loop: request a measurement and wait, or
/// finish and stop the drive.
#[derive(Clone, Copy, Debug, PartialEq, Eq, Structural)]
pub enum ScanStep {
    /// Request one measurement addressed back to the scanner, then
    /// wait `wait_ms` before the next turn.
    Sample { request: HcSr04Message, wait_ms: u64 },
    /// All samples are requested: disable the drive.
    Finished(DriveMessage),
}

/// The scan orchestrator: rotation parameters, the running session,
/// and the accumulated angular distance profile. The drive and
/// rangefinder are reached by messages only; this actor never
/// touches hardware.
pub struct Scanner {
    /// Rotation speed of the running or last scan.
    speed: Speed,
    /// Slip correction of the turning circle, in permille.
    slip_permille: u32,
    /// Samples per revolution.
    resolution: usize,
    /// Wall-clock start of the running scan, in milliseconds.
    start_time_ms: Option<u64>,
    /// Time between two sample requests, in milliseconds.
    time_between_measurements_ms: u64,
    /// Sample requests still to issue in the running scan.
    remaining: usize,
    /// The accumulated profile: bearing in millidegrees, distance.
    measurements: Vec<(u64, Distance)>,
}

impl Scanner {
    /// Rotation speed of the running or last scan.
    pub closed spec fn spec_speed(self) -> Speed {
        self.speed
    }

    /// Slip correction, in permille.
    pub closed spec fn spec_slip_permille(self) -> u32 {
        self.slip_permille
    }

    /// Samples per revolution.
    pub closed spec fn spec_resolution(self) -> usize {
        self.resolution
    }

    /// Wall-clock start of the running scan, in milliseconds.
    pub closed spec fn spec_start_time_ms(self) -> Option<u64> {
        self.start_time_ms
    }

    /// Time between two sample requests, in milliseconds.
    pub closed spec fn spec_interval_ms(self) -> u64 {
        self.time_between_measurements_ms
    }

    /// Sample requests still to issue in the running scan.
    pub closed spec fn spec_remaining(self) -> usize {
        self.remaining
    }

    /// The accumulated profile.
    pub closed spec fn spec_measurements(self) -> Seq<(u64, Distance)> {
        self.measurements@
    }

    /// Parameters a scan can run with: a well-formed speed the robot
    /// moves at, and counters within arithmetic range.
    pub open spec fn spec_params_valid(speed: Speed, slip_permille: u32, resolution: usize) -> bool {
        &&& speed.wf()
        &&& spec_velocity(speed.spec_duty_cycle()) > 0
        &&& slip_permille <= 10000
        &&& 1 <= resolution <= 1000000
    }

    /// The scanner invariant.
    pub open spec fn wf(self) -> bool {
        &&& Self::spec_params_valid(self.spec_speed(), self.spec_slip_permille(), self.spec_resolution())
        &&& self.spec_remaining() <= self.spec_resolution()
        &&& self.spec_interval_ms() <= 10000000
    }

    /// Creates a new `Scanner` with no scan running: the sample
    /// interval is derived from the parameters, the profile is
    /// empty.
    pub fn new(speed: Speed, slip_permille: u32, resolution: usize) -> (r: Scanner)
        requires
            Self::spec_params_valid(speed, slip_permille, resolution),
        ensures
            r.wf(),
            r.spec_speed() == speed,
            r.spec_slip_permille() == slip_permille,
            r.spec_resolution() == resolution,
            r.spec_start_time_ms() is None,
            r.spec_remaining() == 0,
            r.spec_measurements() == Seq::<(u64, Distance)>::empty(),
            r.spec_interval_ms() == spec_sample_interval_ms(
                slip_permille as int,
                spec_velocity(speed.spec_duty_cycle()),
                resolution as int,
            ),
    {
        let time_between_measurements_ms = Self::sample_interval_ms(
            speed,
            slip_permille,
            resolution,
        );
        Scanner {
            speed,
            slip_permille,
            resolution,
            start_time_ms: None,
            time_between_measurements_ms,
            remaining: 0,
            measurements: Vec::new(),
        }
    }

    /// Computes the sample interval for the given parameters, in
    /// milliseconds.
    fn sample_interval_ms(speed: Speed, slip_permille: u32, resolution: usize) -> (r: u64)
        requires
            Self::spec_params_valid(speed, slip_permille, resolution),
        ensures
            r == spec_sample_interval_ms(
                slip_permille as int,
                spec_velocity(speed.spec_duty_cycle()),
                resolution as int,
            ),
            r <= 10000000,
    {
        let velocity = speed.get_velocity();
        let numerator = 2 * PI_MICRO * ROBOT_RADIUS_MM * (1000 + slip_permille as u64);
        proof {
            assert(2 * PI_MICRO * ROBOT_RADIUS_MM == 691150460int);
            assert(1000000int * (velocity as int) * (resolution as int) <= 1000000 * 690
                * 1000000int) by (nonlinear_arith)
                requires
                    0 < velocity <= 690,
                    0 < resolution <= 1000000,
            ;
            assert(1000000int * (velocity as int) * (resolution as int) >= 1) by (nonlinear_arith)
                requires
                    0 < velocity,
                    0 < resolution,
            ;
        }
        let denominator = 1000000 * (velocity as u64) * (resolution as u64);
        let r = numerator / denominator;
        proof {
            assert(1000000int * (velocity as int) * (resolution as int) >= 1000000int)
                by (nonlinear_arith)
                requires
                    0 < velocity,
                    0 < resolution,
            ;
            vstd::arithmetic::div_mod::lemma_div_is_ordered(
                numerator as int,
                7602655060000int,
                denominator as int,
            );
            vstd::arithmetic::div_mod::lemma_div_is_ordered_by_denominator(
                7602655060000int,
                1000000int,
                denominator as int,
            );
            assert(7602655060000int / 1000000int == 7602655int);
        }
        r
    }

    /// Handles one mailbox command. A well-formed `Start` re-arms
    /// the session — parameters, freshly computed interval, start
    /// time `now_ms`, all `resolution` samples still to request —
    /// and starts the rotation; an out-of-contract `Start` is
    /// rejected unchanged. `Stop` ends the session; the robot is
    /// stopped.
    pub fn handle(&mut self, msg: &ScannerMessage, now_ms: u64) -> (r: ScannerAction)
        requires
            old(self).wf(),
        ensures
            final(self).wf(),
            final(self).spec_measurements() == old(self).spec_measurements(),
            match msg {
                ScannerMessage::Start { speed, slip_permille, resolution } => {
                    if Self::spec_params_valid(*speed, *slip_permille, *resolution) {
                        &&& r == ScannerAction::BeginScan(
                            DriveMessage::Enable { motion: Motion::RightRot, speed: *speed },
                        )
                        &&& final(self).spec_speed() == *speed
                        &&& final(self).spec_slip_permille() == *slip_permille
                        &&& final(self).spec_resolution() == *resolution
                        &&& final(self).spec_start_time_ms() == Some(now_ms)
                        &&& final(self).spec_remaining() == *resolution
                        &&& final(self).spec_interval_ms() == spec_sample_interval_ms(
                            *slip_permille as int,
                            spec_velocity(speed.spec_duty_cycle()),
                            *resolution as int,
                        )
                    } else {
                        r == ScannerAction::Reject && *final(self) == *old(self)
                    }
                },
                ScannerMessage::Stop => r == ScannerAction::Halt(
                    DriveMessage::Enable { motion: Motion::Stop, speed: Speed::Low },
                ) && *final(self) == *old(self),
            },
    {
        match msg {
            ScannerMessage::Start { speed, slip_permille, resolution } => {
                let velocity_positive = speed.is_valid() && speed.get_velocity() > 0;
                if velocity_positive && *slip_permille <= 10000 && 1 <= *resolution && *resolution
                    <= 1000000 {
                    self.speed = *speed;
                    self.slip_permille = *slip_permille;
                    self.resolution = *resolution;
                    self.time_between_measurements_ms = Self::sample_interval_ms(
                        *speed,
                        *slip_permille,
                        *resolution,
                    );
                    self.start_time_ms = Some(now_ms);
                    self.remaining = *resolution;
                    ScannerAction::BeginScan(
                        DriveMessage::Enable { motion: Motion::RightRot, speed: *speed },
                    )
                } else {
                    ScannerAction::Reject
                }
            },
            ScannerMessage::Stop => {
                ScannerAction::Halt(
                    DriveMessage::Enable { motion: Motion::Stop, speed: Speed::Low },
                )
            },
        }
    }

    /// One turn of the sampling loop: while samples remain, request
    /// one measurement addressed back to the scanner and wait one
    /// interval; when none remain, disable the drive.
    pub fn scan_step(&mut self) -> (r: ScanStep)
        requires
            old(self).wf(),
        ensures
            final(self).wf(),
            final(self).spec_measurements() == old(self).spec_measurements(),
            final(self).spec_interval_ms() == old(self).spec_interval_ms(),
            final(self).spec_resolution() == old(self).spec_resolution(),
            final(self).spec_start_time_ms() == old(self).spec_start_time_ms(),
            old(self).spec_remaining() > 0 ==> (r == ScanStep::Sample {
                request: HcSr04Message::Single(Recipient::Scanner),
                wait_ms: old(self).spec_interval_ms(),
            } && final(self).spec_remaining() == old(self).spec_remaining() - 1),
            old(self).spec_remaining() == 0 ==> (r == ScanStep::Finished(DriveMessage::Disable)
                && *final(self) == *old(self)),
    {
        if self.remaining > 0 {
            self.remaining = self.remaining - 1;
            ScanStep::Sample {
                request: HcSr04Message::Single(Recipient::Scanner),
                wait_ms: self.time_between_measurements_ms,
            }
        } else {
            ScanStep::Finished(DriveMessage::Disable)
        }
    }

    /// Runs the whole sampling loop of a started scan: exactly
    /// `remaining` sample requests — one per interval — and then the
    /// drive disable, in order. For a scan just started with
    /// `resolution` samples, that is exactly `resolution` ranging
    /// requests per `Start` before the automatic disable.
    pub fn run_scan(&mut self) -> (actions: Vec<ScanStep>)
        requires
            old(self).wf(),
        ensures
            final(self).wf(),
            final(self).spec_measurements() == old(self).spec_measurements(),
            final(self).spec_interval_ms() == old(self).spec_interval_ms(),
            final(self).spec_resolution() == old(self).spec_resolution(),
            final(self).spec_start_time_ms() == old(self).spec_start_time_ms(),
            final(self).spec_remaining() == 0,
            actions@.len() == old(self).spec_remaining() + 1,
            forall|i: int|
                0 <= i < old(self).spec_remaining() ==> actions@[i] == (ScanStep::Sample {
                    request: HcSr04Message::Single(Recipient::Scanner),
                    wait_ms: old(self).spec_interval_ms(),
                }),
            actions@[old(self).spec_remaining() as int] == ScanStep::Finished(
                DriveMessage::Disable,
            ),
    {
        let mut actions: Vec<ScanStep> = Vec::new();
        let total = self.remaining;
        let mut issued: usize = 0;
        while issued < total
            invariant
                old(self).wf(),
                self.wf(),
                issued <= total,
                total == old(self).spec_remaining(),
                self.spec_remaining() == total - issued,
                self.spec_interval_ms() == old(self).spec_interval_ms(),
                self.spec_resolution() == old(self).spec_resolution(),
                self.spec_start_time_ms() == old(self).spec_start_time_ms(),
                self.spec_measurements() == old(self).spec_measurements(),
                actions@.len() == issued,
                forall|i: int|
                    0 <= i < issued ==> actions@[i] == (ScanStep::Sample {
                        request: HcSr04Message::Single(Recipient::Scanner),
                        wait_ms: old(self).spec_interval_ms(),
                    }),
            decreases total - issued,
        {
            let step = self.scan_step();
            actions.push(step);
            issued = issued + 1;
        }
        let last = self.scan_step();
        actions.push(last);
        actions
    }

    /// Handles one ranging response during a scan: a single
    /// measurement joins the profile under the bearing reconstructed
    /// from its timestamp; a batched response is ignored (its
    /// semantics here are undefined); a fault is reported back for
    /// logging and the sample is omitted.
    pub fn on_sample(&mut self, response: &HcSr04Response) -> (logged: Option<String>)
        requires
            old(self).wf(),
            response matches HcSr04Response::Measured(HcSr04Measurement::Single(_)) ==> old(self)
                .spec_start_time_ms() is Some,
        ensures
            final(self).wf(),
            final(self).spec_interval_ms() == old(self).spec_interval_ms(),
            final(self).spec_resolution() == old(self).spec_resolution(),
            final(self).spec_start_time_ms() == old(self).spec_start_time_ms(),
            final(self).spec_remaining() == old(self).spec_remaining(),
            match response {
                HcSr04Response::Measured(HcSr04Measurement::Single(res)) => {
                    &&& final(self).spec_measurements() == old(self).spec_measurements().push(
                        (
                            spec_bearing_mdeg(
                                spec_elapsed_ms(
                                    res.time_ms as int,
                                    old(self).spec_start_time_ms()->Some_0 as int,
                                ),
                                old(self).spec_resolution() as int,
                                old(self).spec_interval_ms() as int,
                            ) as u64,
                            res.distance,
                        ),
                    )
                    &&& logged is None
                },
                HcSr04Response::Measured(HcSr04Measurement::Multiple(_)) => final(self)
                    .spec_measurements() == old(self).spec_measurements() && logged is None,
                HcSr04Response::Failed(e) => final(self).spec_measurements()
                    == old(self).spec_measurements() && (logged matches Some(s) && s@
                    == e.spec_description()),
            },
    {
        match response {
            HcSr04Response::Measured(HcSr04Measurement::Single(res)) => {
                let start = match self.start_time_ms {
                    Some(s) => s,
                    None => 0,  // excluded by the precondition
                };
                let dt: u64 = if res.time_ms <= start {
                    0
                } else if res.time_ms - start > 1000000000000 {
                    1000000000000
                } else {
                    res.time_ms - start
                };
                proof {
                    assert((self.resolution as int) * (self.time_between_measurements_ms as int)
                        <= 1000000 * 10000000int) by (nonlinear_arith)
                        requires
                            0 < self.resolution <= 1000000,
                            0 <= self.time_between_measurements_ms <= 10000000u64,
                    ;
                }
                let denominator = (self.resolution as u64) * self.time_between_measurements_ms;
                let angle: u64 = if denominator == 0 {
                    0
                } else {
                    let wide = (360000u128 * dt as u128) / (denominator as u128);
                    proof {
                        assert(360000 * (dt as int) / (denominator as int) <= 360000
                            * 1000000000000int) by {
                            vstd::arithmetic::div_mod::lemma_div_is_ordered(
                                360000 * (dt as int),
                                360000 * 1000000000000int,
                                denominator as int,
                            );
                            vstd::arithmetic::div_mod::lemma_div_is_ordered_by_denominator(
                                360000 * 1000000000000int,
                                1,
                                denominator as int,
                            );
                        }
                    }
                    wide as u64
                };
                self.measurements.push((angle, res.distance));
                None
            },
            HcSr04Response::Measured(HcSr04Measurement::Multiple(_)) => None,
            HcSr04Response::Failed(e) => Some(e.description()),
        }
    }

    /// The accumulated angular distance profile: bearing in
    /// millidegrees and measured distance, in arrival order.
    pub fn measurements(&self) -> (r: &Vec<(u64, Distance)>)
        ensures
            r@ == self.spec_measurements(),
    {
        &self.measurements
    }
}

} // verus!
