use vstd::prelude::*;

use crate::error::HardwareError;
use sysfs_pwm::Pwm;

verus! {

#[verifier::external_type_specification]
#[verifier::external_body]
pub struct ExPwm(sysfs_pwm::Pwm);

#[verifier::external_type_specification]
#[verifier::external_body]
pub struct ExPwmError(sysfs_pwm::Error);

/// Relies on `sysfs_pwm::Pwm::set_period_ns`: writes the period to the
/// channel's sysfs file, or reports the I/O error.
pub assume_specification[ sysfs_pwm::Pwm::set_period_ns ](
    pwm: &Pwm,
    period_ns: u32,
) -> core::result::Result<(), sysfs_pwm::Error>;

/// Relies on `sysfs_pwm::Pwm::set_duty_cycle_ns`: writes the duty cycle to the
/// channel's sysfs file, or reports the I/O error (the kernel refuses a duty
/// cycle longer than the period).
pub assume_specification[ sysfs_pwm::Pwm::set_duty_cycle_ns ](
    pwm: &Pwm,
    duty_cycle_ns: u32,
) -> core::result::Result<(), sysfs_pwm::Error>;

/// Relies on `sysfs_pwm::Pwm::enable`: writes the enable state to the
/// channel's sysfs file, or reports the I/O error.
pub assume_specification[ sysfs_pwm::Pwm::enable ](
    pwm: &Pwm,
    enable: bool,
) -> core::result::Result<(), sysfs_pwm::Error>;

/// Relies on `sysfs_pwm::Pwm::new`: a handle on channel `number` of PWM chip
/// `chip`, or an error when the chip is not present.
#[verifier::external_body]
fn open_pwm(chip: u32, number: u32) -> (r: Result<Pwm, sysfs_pwm::Error>) {
    Pwm::new(chip, number)
}

/// The settings of a PWM channel as far as this process has written them:
/// each is `None` until a write of it succeeds, then the last value written.
#[derive(Clone, Copy, Debug, PartialEq, Eq)]
pub struct PwmState {
    pub period_ns: Option<u32>,
    pub duty_cycle_ns: Option<u32>,
    pub enabled: Option<bool>,
}

impl PwmState {
    /// The state of a channel that was just opened: nothing written yet.
    pub open spec fn unwritten() -> PwmState {
        PwmState { period_ns: None, duty_cycle_ns: None, enabled: None }
    }
}

/// One hardware PWM output, held for the lifetime of the value.
pub struct PwmChannel {
    pwm: Pwm,
    chip: u32,
    channel: u32,
    state: PwmState,
}

impl View for PwmChannel {
    type V = PwmState;

    closed spec fn view(&self) -> PwmState {
        self.state
    }
}

impl PwmChannel {
    /// The PWM chip and the channel on it that this value holds.
    pub closed spec fn id(&self) -> (u32, u32) {
        (self.chip, self.channel)
    }

    /// Opens channel `channel` of PWM chip `chip`; fails with `PwmConfig` when
    /// the chip is not present.
    pub fn open(chip: u32, channel: u32) -> (r: Result<PwmChannel, HardwareError>)
        ensures
            r matches Ok(c) ==> c@ == PwmState::unwritten() && c.id() == (chip, channel),
            r is Err ==> r == Err::<PwmChannel, HardwareError>(HardwareError::PwmConfig),
    {
        match open_pwm(chip, channel) {
            Ok(pwm) => Ok(
                PwmChannel {
                    pwm,
                    chip,
                    channel,
                    state: PwmState { period_ns: None, duty_cycle_ns: None, enabled: None },
                },
            ),
            Err(_) => Err(HardwareError::PwmConfig),
        }
    }

    /// The PWM chip of this channel.
    pub fn chip(&self) -> (r: u32)
        ensures
            r == self.id().0,
    {
        self.chip
    }

    /// The channel number on its chip.
    pub fn channel(&self) -> (r: u32)
        ensures
            r == self.id().1,
    {
        self.channel
    }

    /// The settings written so far.
    pub fn state(&self) -> (r: PwmState)
        ensures
            r == self@,
    {
        self.state
    }

    /// Sets the period; on failure nothing is recorded and the error is
    /// `PwmConfig`.
    pub fn write_period(&mut self, period_ns: u32) -> (r: Result<(), HardwareError>)
        ensures
            final(self).id() == old(self).id(),
            r is Ok ==> final(self)@ == (PwmState { period_ns: Some(period_ns), ..old(self)@ }),
            r is Err ==> final(self)@ == old(self)@ && r == Err::<(), HardwareError>(
                HardwareError::PwmConfig,
            ),
    {
        match self.pwm.set_period_ns(period_ns) {
            Ok(()) => {
                self.state.period_ns = Some(period_ns);
                Ok(())
            },
            Err(_) => Err(HardwareError::PwmConfig),
        }
    }

    /// Sets the duty cycle; on failure nothing is recorded and the error is
    /// `PwmConfig`.
    pub fn write_duty_cycle(&mut self, duty_cycle_ns: u32) -> (r: Result<(), HardwareError>)
        ensures
            final(self).id() == old(self).id(),
            r is Ok ==> final(self)@ == (PwmState {
                duty_cycle_ns: Some(duty_cycle_ns),
                ..old(self)@
            }),
            r is Err ==> final(self)@ == old(self)@ && r == Err::<(), HardwareError>(
                HardwareError::PwmConfig,
            ),
    {
        match self.pwm.set_duty_cycle_ns(duty_cycle_ns) {
            Ok(()) => {
                self.state.duty_cycle_ns = Some(duty_cycle_ns);
                Ok(())
            },
            Err(_) => Err(HardwareError::PwmConfig),
        }
    }

    /// Enables or disables the output; on failure nothing is recorded and the
    /// error is `PwmConfig`.
    pub fn write_enabled(&mut self, enabled: bool) -> (r: Result<(), HardwareError>)
        ensures
            final(self).id() == old(self).id(),
            r is Ok ==> final(self)@ == (PwmState { enabled: Some(enabled), ..old(self)@ }),
            r is Err ==> final(self)@ == old(self)@ && r == Err::<(), HardwareError>(
                HardwareError::PwmConfig,
            ),
    {
        match self.pwm.enable(enabled) {
            Ok(()) => {
                self.state.enabled = Some(enabled);
                Ok(())
            },
            Err(_) => Err(HardwareError::PwmConfig),
        }
    }
}

} // verus!
