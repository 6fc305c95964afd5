//! Motion calibration: velocity versus duty cycle, measured
//! empirically.
//!
//! The calibrator sweeps a duty-cycle range, alternately driving the
//! robot forward and backward at each duty cycle, collecting a batch
//! of ranging measurements per leg and persisting each batch under a
//! key naming the motion, the duty cycle and the repetition. The
//! state machine advances strictly: the motion alternates
//! forward/backward, the repetition index increments only after a
//! backward leg, the duty cycle steps up only after the last
//! repetition, and the sweep silently stops scheduling once the duty
//! cycle exceeds its maximum.
use crate::drive::DriveMessage;
use crate::error::Error;
use crate::motion::Motion;
use crate::ranging::HcSr04Measurement;
use crate::ranging::HcSr04Message;
use crate::ranging::HcSr04Response;
use crate::ranging::HcSr04Result;
use crate::ranging::Recipient;
use crate::speed::Speed;
use crate::textfmt::append_decimal;
use crate::textfmt::append_duty_two_decimals;
use crate::textfmt::append_two_digits;
use crate::textfmt::spec_decimal;
use crate::textfmt::spec_duty_two_decimals;
use crate::textfmt::spec_two_digits;
use vstd::prelude::*;

verus! {

/// Pause between two calibration legs, in milliseconds, letting the
/// robot come fully to rest before the next leg.
pub const INTER_LEG_DELAY_MS: u64 = 3000;

/// The sweep parameters: duty-cycle range and step (permille), batch
/// size per leg, and repetitions per duty cycle.
#[derive(Clone, Copy, Debug, PartialEq, Eq, Structural)]
pub struct CalibratorParams {
    /// First duty cycle of the sweep, in permille.
    pub min_duty_cycle: u16,
    /// The sweep stops once the duty cycle exceeds this, in permille.
    pub max_duty_cycle: u16,
    /// Duty-cycle increment between sweep steps, in permille.
    pub step: u16,
    /// Ranging measurements collected per leg.
    pub measurements_per_repetition: usize,
    /// Forward/backward repetitions per duty cycle.
    pub repetitions: usize,
}

impl CalibratorParams {
    /// Bounds under which the sweep arithmetic stays in range.
    pub open spec fn wf(self) -> bool {
        &&& self.min_duty_cycle <= 1000
        &&& self.max_duty_cycle <= 1000
        &&& self.step <= 1000
        &&& self.repetitions <= 1000000
        &&& self.measurements_per_repetition <= 1000000
    }

    /// Creates sweep parameters.
    pub fn new(
        min_duty_cycle: u16,
        max_duty_cycle: u16,
        step: u16,
        measurements_per_repetition: usize,
        repetitions: usize,
    ) -> (r: CalibratorParams)
        ensures
            r == (CalibratorParams {
                min_duty_cycle,
                max_duty_cycle,
                step,
                measurements_per_repetition,
                repetitions,
            }),
    {
        CalibratorParams {
            min_duty_cycle,
            max_duty_cycle,
            step,
            measurements_per_repetition,
            repetitions,
        }
    }
}

/// Where the sweep currently stands: the leg about to run (or
/// running).
#[derive(Clone, Copy, Debug, PartialEq, Eq, Structural)]
pub struct CalibratorState {
    /// Motion of the current leg: strictly alternating
    /// forward/backward.
    pub motion: Motion,
    /// Duty cycle of the current leg, in permille.
    pub duty_cycle: u16,
    /// Repetition index of the current leg.
    pub repetition: usize,
}

impl CalibratorState {
    /// The state invariant: the motion is one of the two alternation
    /// states, and the counters are in range.
    pub open spec fn wf(self) -> bool {
        &&& (self.motion == Motion::Forward || self.motion == Motion::Backward)
        &&& self.repetition <= 1000000
    }

    /// The starting state of a sweep: forward, at the minimum duty
    /// cycle, repetition zero.
    pub fn new(min_duty_cycle: u16) -> (r: CalibratorState)
        ensures
            r == (CalibratorState {
                motion: Motion::Forward,
                duty_cycle: min_duty_cycle,
                repetition: 0,
            }),
            r.wf(),
    {
        CalibratorState { motion: Motion::Forward, duty_cycle: min_duty_cycle, repetition: 0 }
    }
}

/// The state after one completed leg: the motion flips; after a
/// backward leg the repetition index increments; once it reaches the
/// configured repetitions it resets and the duty cycle steps up
/// (saturating at the machine bound).
pub open spec fn spec_advance(st: CalibratorState, params: CalibratorParams) -> CalibratorState {
    let flipped = if st.motion == Motion::Forward {
        CalibratorState { motion: Motion::Backward, ..st }
    } else {
        CalibratorState { motion: Motion::Forward, repetition: (st.repetition + 1) as usize, ..st }
    };
    if flipped.repetition >= params.repetitions {
        CalibratorState {
            repetition: 0,
            duty_cycle: if st.duty_cycle + params.step > u16::MAX {
                u16::MAX
            } else {
                (st.duty_cycle + params.step) as u16
            },
            ..flipped
        }
    } else {
        flipped
    }
}

/// Whether the sweep is over: the duty cycle has left the configured
/// range, and no further leg is scheduled.
pub open spec fn spec_done(st: CalibratorState, params: CalibratorParams) -> bool {
    st.duty_cycle > params.max_duty_cycle
}

/// The key one leg's batch is persisted under:
/// motion alias, duty cycle with two decimals, two-digit repetition,
/// joined with underscores.
pub open spec fn spec_calibration_key(st: CalibratorState) -> Seq<char> {
    st.motion.spec_alias() + seq!['_'] + spec_duty_two_decimals(st.duty_cycle as int) + seq!['_']
        + spec_two_digits(st.repetition as int)
}

/// One persisted record line: trigger timestamp in milliseconds and
/// the distance, comma-separated. An infinite distance records the
/// sentinel text `inf`.
pub open spec fn spec_csv_line(r: HcSr04Result) -> Seq<char> {
    spec_decimal(r.time_ms as int) + seq![','] + (match r.distance {
        crate::ranging::Distance::Finite(mm) => spec_decimal(mm as int),
        crate::ranging::Distance::Infinite => seq!['i', 'n', 'f'],
    })
}

/// A batch of record lines joined with newlines.
pub open spec fn spec_csv_lines(rs: Seq<HcSr04Result>) -> Seq<char>
    decreases rs.len(),
{
    if rs.len() == 0 {
        Seq::empty()
    } else if rs.len() == 1 {
        spec_csv_line(rs[0])
    } else {
        spec_csv_line(rs[0]) + seq!['\n'] + spec_csv_lines(rs.drop_first())
    }
}

/// The text persisted for one ranging response: the record lines of
/// the measurements, or the description of the fault.
pub open spec fn spec_response_text(resp: HcSr04Response) -> Seq<char> {
    match resp {
        HcSr04Response::Measured(HcSr04Measurement::Single(r)) => spec_csv_line(r),
        HcSr04Response::Measured(HcSr04Measurement::Multiple(rs)) => spec_csv_lines(rs@),
        HcSr04Response::Failed(e) => e.spec_description(),
    }
}

/// Appends one record line to `out`.
fn append_csv_line(out: &mut String, r: &HcSr04Result)
    ensures
        final(out)@ == old(out)@ + spec_csv_line(*r),
{
    append_decimal(out, r.time_ms);
    proof { reveal_strlit(","); }
    out.append(",");
    match r.distance {
        crate::ranging::Distance::Finite(mm) => {
            append_decimal(out, mm);
        },
        crate::ranging::Distance::Infinite => {
            proof { reveal_strlit("inf"); }
            out.append("inf");
            proof {
                assert("inf"@ =~= seq!['i', 'n', 'f']);
            }
        },
    }
    proof {
        assert(final(out)@ =~= old(out)@ + spec_csv_line(*r));
    }
}

/// Appends the record lines of `rs[i..]`, newline-separated, to
/// `out`.
fn append_csv_lines_from(out: &mut String, rs: &Vec<HcSr04Result>, i: usize)
    requires
        i <= rs@.len(),
    ensures
        final(out)@ == old(out)@ + spec_csv_lines(rs@.subrange(i as int, rs@.len() as int)),
    decreases rs@.len() - i,
{
    if i < rs.len() {
        append_csv_line(out, &rs[i]);
        proof {
            assert(rs@.subrange(i as int, rs@.len() as int)[0] == rs@[i as int]);
        }
        if i + 1 < rs.len() {
            proof { reveal_strlit("\n"); }
            out.append("\n");
        }
        append_csv_lines_from(out, rs, i + 1);
        proof {
            let whole = rs@.subrange(i as int, rs@.len() as int);
            let rest = rs@.subrange(i as int + 1, rs@.len() as int);
            assert(whole.drop_first() =~= rest);
            assert(final(out)@ =~= old(out)@ + spec_csv_lines(whole));
        }
    } else {
        proof {
            assert(rs@.subrange(i as int, rs@.len() as int) =~= Seq::<HcSr04Result>::empty());
            assert(final(out)@ =~= old(out)@ + spec_csv_lines(
                rs@.subrange(i as int, rs@.len() as int),
            ));
        }
    }
}

/// Renders the text persisted for one ranging response.
pub fn response_text(resp: &HcSr04Response) -> (r: String)
    ensures
        r@ == spec_response_text(*resp),
{
    match resp {
        HcSr04Response::Measured(HcSr04Measurement::Single(m)) => {
            let mut out = String::new();
            append_csv_line(&mut out, m);
            proof {
                assert(Seq::<char>::empty() + spec_csv_line(*m) =~= spec_csv_line(*m));
            }
            out
        },
        HcSr04Response::Measured(HcSr04Measurement::Multiple(ms)) => {
            let mut out = String::new();
            append_csv_lines_from(&mut out, ms, 0);
            proof {
                assert(ms@.subrange(0, ms@.len() as int) =~= ms@);
                assert(Seq::<char>::empty() + spec_csv_lines(ms@) =~= spec_csv_lines(ms@));
            }
            out
        },
        HcSr04Response::Failed(e) => e.description(),
    }
}

/// Renders the key one leg's batch is persisted under.
pub fn calibration_key(st: &CalibratorState) -> (r: String)
    ensures
        r@ == spec_calibration_key(*st),
{
    let mut out = String::from_str(st.motion.alias());
    proof { reveal_strlit("_"); }
    out.append("_");
    append_duty_two_decimals(&mut out, st.duty_cycle);
    out.append("_");
    append_two_digits(&mut out, st.repetition as u64);
    proof {
        assert(out@ =~= spec_calibration_key(*st));
    }
    out
}

/// Commands a `Calibrator` accepts through its mailbox.
#[derive(Clone, Copy, Debug, PartialEq, Eq, Structural)]
pub enum CalibratorMessage {
    /// Arm (or re-arm) the sweep with these parameters and run the
    /// current leg.
    Start(CalibratorParams),
    /// Discard the session; the robot is stopped.
    Stop,
}

/// What a handled calibrator command asks the rest of the system to
/// do.
#[derive(Clone, Copy, Debug, PartialEq, Eq, Structural)]
pub enum CalibratorAction {
    /// Run the current leg: command the drive, then request the
    /// batch of measurements addressed back to the calibrator.
    StartLeg(DriveMessage, HcSr04Message),
    /// The session ends: stop the robot.
    Halt(DriveMessage),
}

/// What follows a persisted leg: the drive is stopped, the batch is
/// persisted under the key, and — unless the sweep is over — the
/// next leg is scheduled after the inter-leg delay.
pub struct LegOutcome {
    /// Stop command for the drive: the robot brakes between legs.
    pub stop: DriveMessage,
    /// The key the batch is persisted under.
    pub key: String,
    /// The persisted text: record lines, or the fault description.
    pub contents: String,
    /// Milliseconds to wait before re-arming, or nothing when the
    /// sweep is over.
    pub restart_after_ms: Option<u64>,
}

/// The calibration orchestrator: the sweep parameters and the state
/// of the current leg. The drive and rangefinder are reached by
/// messages only; this actor never touches hardware.
pub struct Calibrator {
    /// The sweep parameters.
    params: CalibratorParams,
    /// The current leg.
    state: CalibratorState,
}

impl Calibrator {
    /// The sweep parameters.
    pub closed spec fn spec_params(self) -> CalibratorParams {
        self.params
    }

    /// The current leg.
    pub closed spec fn spec_state(self) -> CalibratorState {
        self.state
    }

    /// The calibrator invariant.
    pub open spec fn wf(self) -> bool {
        &&& self.spec_params().wf()
        &&& self.spec_state().wf()
    }

    /// Creates a new `Calibrator` with a fresh session: forward at
    /// the minimum duty cycle, repetition zero.
    pub fn new(params: CalibratorParams) -> (r: Calibrator)
        requires
            params.wf(),
        ensures
            r.wf(),
            r.spec_params() == params,
            r.spec_state() == (CalibratorState {
                motion: Motion::Forward,
                duty_cycle: params.min_duty_cycle,
                repetition: 0,
            }),
    {
        let state = CalibratorState::new(params.min_duty_cycle);
        Calibrator { params, state }
    }

    /// The sweep parameters the session currently runs with.
    pub fn params(&self) -> (r: CalibratorParams)
        ensures
            r == self.spec_params(),
    {
        self.params
    }

    /// Handles one mailbox command. `Start` re-arms the session with
    /// the new parameters and runs the current leg: drive at the
    /// leg's motion and duty cycle, then collect the configured
    /// batch of measurements addressed back here. `Stop` ends the
    /// session; the robot is stopped.
    pub fn handle(&mut self, msg: &CalibratorMessage) -> (r: CalibratorAction)
        requires
            old(self).wf(),
            msg matches CalibratorMessage::Start(p) ==> p.wf(),
        ensures
            final(self).wf(),
            final(self).spec_state() == old(self).spec_state(),
            match msg {
                CalibratorMessage::Start(params) => final(self).spec_params() == params && r
                    == CalibratorAction::StartLeg(
                    DriveMessage::Enable {
                        motion: old(self).spec_state().motion,
                        speed: Speed::Manual(old(self).spec_state().duty_cycle),
                    },
                    HcSr04Message::Multiple(
                        params.measurements_per_repetition,
                        Recipient::Calibrator,
                    ),
                ),
                CalibratorMessage::Stop => final(self).spec_params() == old(self).spec_params()
                    && r == CalibratorAction::Halt(
                    DriveMessage::Enable { motion: Motion::Stop, speed: Speed::Low },
                ),
            },
    {
        match msg {
            CalibratorMessage::Start(params) => {
                self.params = *params;
                CalibratorAction::StartLeg(
                    DriveMessage::Enable {
                        motion: self.state.motion,
                        speed: Speed::Manual(self.state.duty_cycle),
                    },
                    HcSr04Message::Multiple(
                        self.params.measurements_per_repetition,
                        Recipient::Calibrator,
                    ),
                )
            },
            CalibratorMessage::Stop => {
                CalibratorAction::Halt(
                    DriveMessage::Enable { motion: Motion::Stop, speed: Speed::Low },
                )
            },
        }
    }

    /// Handles the batch of measurements that ends the current leg:
    /// the robot is stopped, the batch is rendered and keyed for the
    /// persistent sink, and the state machine advances — motion
    /// alternating, repetition and duty cycle exactly as the sweep
    /// invariant prescribes. Unless the advanced duty cycle has left
    /// the range, the next leg is scheduled after the inter-leg
    /// delay.
    pub fn on_measurements(&mut self, response: &HcSr04Response) -> (r: LegOutcome)
        requires
            old(self).wf(),
        ensures
            final(self).wf(),
            final(self).spec_params() == old(self).spec_params(),
            r.stop == (DriveMessage::Enable { motion: Motion::Stop, speed: Speed::Low }),
            r.key@ == spec_calibration_key(old(self).spec_state()),
            r.contents@ == spec_response_text(*response),
            final(self).spec_state() == spec_advance(
                old(self).spec_state(),
                old(self).spec_params(),
            ),
            if spec_done(final(self).spec_state(), old(self).spec_params()) {
                r.restart_after_ms is None
            } else {
                r.restart_after_ms == Some(INTER_LEG_DELAY_MS)
            },
    {
        let key = calibration_key(&self.state);
        let contents = response_text(response);
        let flipped_motion: Motion;
        let mut repetition = self.state.repetition;
        match self.state.motion {
            Motion::Forward => {
                flipped_motion = Motion::Backward;
            },
            _ => {
                flipped_motion = Motion::Forward;
                repetition = repetition + 1;
            },
        }
        self.state.motion = flipped_motion;
        self.state.repetition = repetition;
        if repetition >= self.params.repetitions {
            self.state.repetition = 0;
            if self.state.duty_cycle > u16::MAX - self.params.step {
                self.state.duty_cycle = u16::MAX;
            } else {
                self.state.duty_cycle = self.state.duty_cycle + self.params.step;
            }
        }
        let restart_after_ms = if self.state.duty_cycle > self.params.max_duty_cycle {
            None
        } else {
            Some(INTER_LEG_DELAY_MS)
        };
        LegOutcome {
            stop: DriveMessage::Enable { motion: Motion::Stop, speed: Speed::Low },
            key,
            contents,
            restart_after_ms,
        }
    }
}

} // verus!
