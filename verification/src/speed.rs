//! Speed presets and their conversion to duty cycle, velocity and rpm.
//!
//! The velocity of the robot as a function of PWM duty cycle is an
//! empirical fit, not physics: the library carries it as a fixed
//! calibration table of velocity anchors every 50 permille of duty
//! cycle, interpolated linearly between anchors. Below the duty cycle
//! at which the robot starts to move at all, the table is zero.
use vstd::arithmetic::div_mod::lemma_div_is_ordered;
use vstd::arithmetic::div_mod::lemma_div_by_multiple;
use vstd::arithmetic::mul::lemma_mul_inequality;
use vstd::prelude::*;

verus! {

/// Provides simple API for speed control.
///
/// `Manual` carries a PWM duty cycle in permille (thousandths),
/// so `Manual(300)` is the same duty cycle as `Low`.
#[derive(Clone, Copy, Debug, PartialEq, Eq, Structural)]
pub enum Speed {
    Low,
    Medium,
    High,
    Manual(u16),
}

/// Velocity calibration anchor `i`, in millimeters per second, for
/// duty cycle `50 * i` permille. The first anchors are zero: at low
/// duty cycles the robot does not move.
pub open spec fn velocity_anchor(i: int) -> int {
    if i <= 5 {
        0
    } else if i == 6 {
        329
    } else if i == 7 {
        412
    } else if i == 8 {
        462
    } else if i == 9 {
        499
    } else if i == 10 {
        528
    } else if i == 11 {
        553
    } else if i == 12 {
        575
    } else if i == 13 {
        594
    } else if i == 14 {
        612
    } else if i == 15 {
        627
    } else if i == 16 {
        642
    } else if i == 17 {
        655
    } else if i == 18 {
        668
    } else if i == 19 {
        679
    } else {
        690
    }
}

/// Approximate robot velocity at duty cycle `duty` permille, in
/// millimeters per second: linear interpolation between the two
/// nearest calibration anchors.
pub open spec fn spec_velocity(duty: int) -> int
    recommends
        0 <= duty <= 1000,
{
    let i = duty / 50;
    let r = duty % 50;
    if i >= 20 {
        velocity_anchor(20)
    } else {
        velocity_anchor(i) + (velocity_anchor(i + 1) - velocity_anchor(i)) * r / 50
    }
}

/// Each calibration anchor is at most the next one.
proof fn lemma_anchor_step(i: int)
    requires
        0 <= i < 20,
    ensures
        velocity_anchor(i) <= velocity_anchor(i + 1),
{
}

/// The calibration anchors are non-decreasing.
proof fn lemma_anchor_monotone(i: int, j: int)
    requires
        0 <= i <= j <= 20,
    ensures
        velocity_anchor(i) <= velocity_anchor(j),
    decreases j - i,
{
    if i < j {
        lemma_anchor_step(j - 1);
        lemma_anchor_monotone(i, j - 1);
    }
}

/// Within its segment, the interpolated velocity lies between the two
/// anchors that bound the segment.
proof fn lemma_velocity_in_segment(duty: int)
    requires
        0 <= duty < 1000,
    ensures
        velocity_anchor(duty / 50) <= spec_velocity(duty),
        spec_velocity(duty) <= velocity_anchor(duty / 50 + 1),
{
    let i = duty / 50;
    let r = duty % 50;
    let delta = velocity_anchor(i + 1) - velocity_anchor(i);
    assert(0 <= i < 20);
    assert(0 <= r < 50);
    lemma_anchor_step(i);
    assert(delta >= 0);
    assert(delta * 0 == 0);
    lemma_mul_inequality(0, r, delta);
    lemma_div_is_ordered(0, delta * r, 50);
    assert(delta * r / 50 >= 0);
    lemma_mul_inequality(r, 50, delta);
    lemma_div_is_ordered(r * delta, 50 * delta, 50);
    lemma_div_by_multiple(delta, 50);
    assert(delta * 50 / 50 == delta);
    assert(r * delta == delta * r) by (nonlinear_arith);
    assert(50 * delta == delta * 50) by (nonlinear_arith);
    assert(delta * r / 50 <= delta);
}

/// The interpolated velocity is monotone inside one segment.
proof fn lemma_velocity_segment_monotone(d1: int, d2: int)
    requires
        0 <= d1 <= d2 < 1000,
        d1 / 50 == d2 / 50,
    ensures
        spec_velocity(d1) <= spec_velocity(d2),
{
    let i = d1 / 50;
    let r1 = d1 % 50;
    let r2 = d2 % 50;
    let delta = velocity_anchor(i + 1) - velocity_anchor(i);
    assert(0 <= i < 20);
    lemma_anchor_step(i);
    assert(r1 <= r2);
    lemma_mul_inequality(r1, r2, delta);
    assert(r1 * delta == delta * r1) by (nonlinear_arith);
    assert(r2 * delta == delta * r2) by (nonlinear_arith);
    lemma_div_is_ordered(delta * r1, delta * r2, 50);
}

/// The velocity the calibration table derives from the duty cycle is
/// monotonically non-decreasing in the duty cycle.
pub proof fn lemma_velocity_monotone(d1: int, d2: int)
    requires
        0 <= d1 <= d2 <= 1000,
    ensures
        spec_velocity(d1) <= spec_velocity(d2),
    decreases d2 - d1,
{
    if d1 < d2 {
        if d2 == 1000 {
            if d1 < 1000 {
                lemma_velocity_in_segment(d1);
                lemma_anchor_monotone(d1 / 50 + 1, 20);
            }
        } else if d1 / 50 == d2 / 50 {
            lemma_velocity_segment_monotone(d1, d2);
        } else {
            lemma_velocity_in_segment(d1);
            lemma_velocity_in_segment(d2);
            lemma_div_is_ordered(d1, d2, 50);
            lemma_anchor_monotone(d1 / 50 + 1, d2 / 50);
        }
    }
}

/// Looks up velocity calibration anchor `i`, in millimeters per
/// second.
fn velocity_anchor_value(i: u16) -> (v: u16)
    requires
        i <= 20,
    ensures
        v == velocity_anchor(i as int),
        v <= 690,
{
    if i <= 5 {
        0
    } else if i == 6 {
        329
    } else if i == 7 {
        412
    } else if i == 8 {
        462
    } else if i == 9 {
        499
    } else if i == 10 {
        528
    } else if i == 11 {
        553
    } else if i == 12 {
        575
    } else if i == 13 {
        594
    } else if i == 14 {
        612
    } else if i == 15 {
        627
    } else if i == 16 {
        642
    } else if i == 17 {
        655
    } else if i == 18 {
        668
    } else if i == 19 {
        679
    } else {
        690
    }
}

/// Approximate robot velocity at duty cycle `duty` permille, in
/// millimeters per second, from the calibration table.
pub fn velocity_mm_s(duty: u16) -> (v: u16)
    requires
        duty <= 1000,
    ensures
        v == spec_velocity(duty as int),
        v <= 690,
{
    let i = duty / 50;
    let r = duty % 50;
    let a = velocity_anchor_value(i);
    if i >= 20 {
        a
    } else {
        let b = velocity_anchor_value(i + 1);
        proof {
            lemma_anchor_step(i as int);
        }
        let delta = b - a;
        proof {
            assert(delta * r <= 690 * 50) by (nonlinear_arith)
                requires
                    0 <= delta <= 690,
                    0 <= r < 50,
            ;
        }
        let q = delta as u32 * r as u32 / 50;
        proof {
            lemma_velocity_in_segment(duty as int);
        }
        a + (q as u16)
    }
}

impl Speed {
    /// The duty cycle a `Speed` stands for, in permille of full power.
    pub open spec fn spec_duty_cycle(self) -> int {
        match self {
            Speed::Low => 300,
            Speed::Medium => 600,
            Speed::High => 1000,
            Speed::Manual(v) => v as int,
        }
    }

    /// Whether the carried duty cycle is within the PWM range.
    pub open spec fn wf(self) -> bool {
        0 <= self.spec_duty_cycle() <= 1000
    }

    /// Whether the carried duty cycle is a valid PWM fraction:
    /// presets always are, `Manual` only up to full power.
    pub fn is_valid(&self) -> (r: bool)
        ensures
            r == self.wf(),
    {
        match self {
            Speed::Manual(v) => *v <= 1000,
            _ => true,
        }
    }

    /// Converts `Speed` values to PWM duty cycles, in permille.
    pub fn get_duty_cycle(&self) -> (duty: u16)
        requires
            self.wf(),
        ensures
            duty == self.spec_duty_cycle(),
            duty <= 1000,
    {
        match self {
            Speed::Low => 300,
            Speed::Medium => 600,
            Speed::High => 1000,
            Speed::Manual(v) => *v,
        }
    }

    /// Converts `Speed` values to approximate robot velocity, in
    /// millimeters per second.
    pub fn get_velocity(&self) -> (v: u16)
        requires
            self.wf(),
        ensures
            v == spec_velocity(self.spec_duty_cycle()),
            v <= 690,
    {
        let duty = self.get_duty_cycle();
        velocity_mm_s(duty)
    }

    /// Converts `Speed` values to approximate wheel rotation rate, in
    /// thousandths of a revolution per minute: a full minute of travel
    /// divided by the wheel circumference of 250 millimeters.
    pub fn get_rpm(&self) -> (r: u32)
        requires
            self.wf(),
        ensures
            r == 240 * spec_velocity(self.spec_duty_cycle()),
    {
        let v = self.get_velocity();
        240 * (v as u32)
    }

    /// The velocity a `Speed` derives is monotonically non-decreasing
    /// in the duty cycle the `Speed` stands for.
    pub proof fn lemma_get_velocity_monotone(s1: Speed, s2: Speed)
        requires
            s1.wf(),
            s2.wf(),
            s1.spec_duty_cycle() <= s2.spec_duty_cycle(),
        ensures
            spec_velocity(s1.spec_duty_cycle()) <= spec_velocity(s2.spec_duty_cycle()),
    {
        lemma_velocity_monotone(s1.spec_duty_cycle(), s2.spec_duty_cycle());
    }
}

} // verus!
