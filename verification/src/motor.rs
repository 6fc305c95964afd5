//! Model of one H bridge-connected DC motor channel.
//!
//! A motor owns three GPIO output pins: forward, backward and
//! enable/PWM. The struct tracks the commanded level of each pin and
//! the latched PWM duty cycle; every mutating method also returns the
//! ordered list of pin writes it commands, for the hardware layer to
//! replay on the real pins.
use vstd::prelude::*;

verus! {

/// One write commanded on a GPIO output pin.
#[derive(Clone, Copy, Debug, PartialEq, Eq, Structural)]
pub struct PinWrite {
    /// BCM number of the written pin.
    pub pin: u8,
    /// What is written.
    pub action: PinAction,
}

/// The kinds of writes a motor channel issues on its pins.
#[derive(Clone, Copy, Debug, PartialEq, Eq, Structural)]
pub enum PinAction {
    /// Drive the pin low.
    Low,
    /// Drive the pin high.
    High,
    /// Configure PWM: frequency in hertz, duty cycle in permille.
    Pwm(u32, u16),
}

/// Allows control over an H bridge-connected DC motor.
#[derive(Clone, Copy, Debug, PartialEq, Eq, Structural)]
pub struct Motor {
    /// BCM number of the forward pin.
    pub fwd_pin: u8,
    /// BCM number of the backward pin.
    pub bwd_pin: u8,
    /// BCM number of the enable/PWM pin.
    pub enable_pin: u8,
    /// Commanded level of the forward pin.
    pub fwd_high: bool,
    /// Commanded level of the backward pin.
    pub bwd_high: bool,
    /// Commanded level of the enable pin.
    pub enable_high: bool,
    /// Duty cycle latched in the PWM register, in permille.
    pub duty_cycle: u16,
}

impl Motor {
    /// The motor invariant: the H bridge is never commanded to drive
    /// forward and backward at once, and the duty cycle is a valid
    /// PWM fraction.
    pub open spec fn wf(self) -> bool {
        &&& !(self.fwd_high && self.bwd_high)
        &&& self.duty_cycle <= 1000
    }

    /// Whether all three pins are commanded low and no duty is latched.
    pub open spec fn is_stopped(self) -> bool {
        &&& !self.fwd_high
        &&& !self.bwd_high
        &&& !self.enable_high
        &&& self.duty_cycle == 0
    }

    /// Creates a new `Motor` instance with all pins low, as the
    /// hardware layer initializes them.
    pub fn new(fwd_pin: u8, bwd_pin: u8, enable_pin: u8) -> (r: Motor)
        ensures
            r.wf(),
            r.is_stopped(),
            r.fwd_pin == fwd_pin,
            r.bwd_pin == bwd_pin,
            r.enable_pin == enable_pin,
    {
        Motor {
            fwd_pin,
            bwd_pin,
            enable_pin,
            fwd_high: false,
            bwd_high: false,
            enable_high: false,
            duty_cycle: 0,
        }
    }

    /// The pin writes that start the motor forward: backward pin low
    /// first, so both bridge legs are never high together.
    pub open spec fn spec_fwd_writes(self, pwm_frequency: u32, duty_cycle: u16) -> Seq<PinWrite> {
        seq![
            PinWrite { pin: self.bwd_pin, action: PinAction::Low },
            PinWrite { pin: self.enable_pin, action: PinAction::High },
            PinWrite { pin: self.fwd_pin, action: PinAction::High },
            PinWrite { pin: self.enable_pin, action: PinAction::Pwm(pwm_frequency, duty_cycle) },
        ]
    }

    /// The pin writes that start the motor backward.
    pub open spec fn spec_bwd_writes(self, pwm_frequency: u32, duty_cycle: u16) -> Seq<PinWrite> {
        seq![
            PinWrite { pin: self.fwd_pin, action: PinAction::Low },
            PinWrite { pin: self.enable_pin, action: PinAction::High },
            PinWrite { pin: self.bwd_pin, action: PinAction::High },
            PinWrite { pin: self.enable_pin, action: PinAction::Pwm(pwm_frequency, duty_cycle) },
        ]
    }

    /// The pin writes that stop the motor and let it float.
    pub open spec fn spec_stop_writes(self) -> Seq<PinWrite> {
        seq![
            PinWrite { pin: self.enable_pin, action: PinAction::Low },
            PinWrite { pin: self.fwd_pin, action: PinAction::Low },
            PinWrite { pin: self.bwd_pin, action: PinAction::Low },
        ]
    }

    /// Starts spinning the motor forward with the given PWM
    /// parameters; returns the commanded pin writes in order.
    pub fn enable_fwd(&mut self, pwm_frequency: u32, duty_cycle: u16) -> (writes: Vec<PinWrite>)
        requires
            old(self).wf(),
            duty_cycle <= 1000,
        ensures
            final(self).wf(),
            final(self).fwd_high && !final(self).bwd_high && final(self).enable_high,
            final(self).duty_cycle == duty_cycle,
            final(self).fwd_pin == old(self).fwd_pin,
            final(self).bwd_pin == old(self).bwd_pin,
            final(self).enable_pin == old(self).enable_pin,
            writes@ == old(self).spec_fwd_writes(pwm_frequency, duty_cycle),
    {
        let mut writes: Vec<PinWrite> = Vec::new();
        self.bwd_high = false;
        writes.push(PinWrite { pin: self.bwd_pin, action: PinAction::Low });
        self.enable_high = true;
        writes.push(PinWrite { pin: self.enable_pin, action: PinAction::High });
        self.fwd_high = true;
        writes.push(PinWrite { pin: self.fwd_pin, action: PinAction::High });
        self.duty_cycle = duty_cycle;
        writes.push(PinWrite { pin: self.enable_pin, action: PinAction::Pwm(pwm_frequency, duty_cycle) });
        proof {
            assert(writes@ =~= old(self).spec_fwd_writes(pwm_frequency, duty_cycle));
        }
        writes
    }

    /// Starts spinning the motor backward with the given PWM
    /// parameters; returns the commanded pin writes in order.
    pub fn enable_bwd(&mut self, pwm_frequency: u32, duty_cycle: u16) -> (writes: Vec<PinWrite>)
        requires
            old(self).wf(),
            duty_cycle <= 1000,
        ensures
            final(self).wf(),
            final(self).bwd_high && !final(self).fwd_high && final(self).enable_high,
            final(self).duty_cycle == duty_cycle,
            final(self).fwd_pin == old(self).fwd_pin,
            final(self).bwd_pin == old(self).bwd_pin,
            final(self).enable_pin == old(self).enable_pin,
            writes@ == old(self).spec_bwd_writes(pwm_frequency, duty_cycle),
    {
        let mut writes: Vec<PinWrite> = Vec::new();
        self.fwd_high = false;
        writes.push(PinWrite { pin: self.fwd_pin, action: PinAction::Low });
        self.enable_high = true;
        writes.push(PinWrite { pin: self.enable_pin, action: PinAction::High });
        self.bwd_high = true;
        writes.push(PinWrite { pin: self.bwd_pin, action: PinAction::High });
        self.duty_cycle = duty_cycle;
        writes.push(PinWrite { pin: self.enable_pin, action: PinAction::Pwm(pwm_frequency, duty_cycle) });
        proof {
            assert(writes@ =~= old(self).spec_bwd_writes(pwm_frequency, duty_cycle));
        }
        writes
    }

    /// Stops the motor: all pins low, so the motor floats rather than
    /// brakes; returns the commanded pin writes in order.
    pub fn stop(&mut self) -> (writes: Vec<PinWrite>)
        ensures
            final(self).wf(),
            final(self).is_stopped(),
            final(self).fwd_pin == old(self).fwd_pin,
            final(self).bwd_pin == old(self).bwd_pin,
            final(self).enable_pin == old(self).enable_pin,
            writes@ == old(self).spec_stop_writes(),
    {
        let mut writes: Vec<PinWrite> = Vec::new();
        self.enable_high = false;
        writes.push(PinWrite { pin: self.enable_pin, action: PinAction::Low });
        self.fwd_high = false;
        writes.push(PinWrite { pin: self.fwd_pin, action: PinAction::Low });
        self.bwd_high = false;
        writes.push(PinWrite { pin: self.bwd_pin, action: PinAction::Low });
        self.duty_cycle = 0;
        proof {
            assert(writes@ =~= old(self).spec_stop_writes());
        }
        writes
    }

    /// The three pin numbers a motor uses, in the order forward,
    /// backward, enable.
    pub fn pins(&self) -> (r: (u8, u8, u8))
        ensures
            r == (self.fwd_pin, self.bwd_pin, self.enable_pin),
    {
        (self.fwd_pin, self.bwd_pin, self.enable_pin)
    }
}

} // verus!
