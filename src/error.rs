use vstd::prelude::*;

verus! {

/// The ways a hardware operation can fail.
///
/// Every operation reports at most one of these, for the first step that
/// failed; steps applied before it are not rolled back.
#[derive(Clone, Copy, Debug, PartialEq, Eq, Structural)]
pub enum HardwareError {
    /// A digital line could not be opened or claimed (already in use,
    /// invalid pin, permission or device failure).
    LineAcquisition,
    /// Reading or writing the value of an acquired line failed.
    LineIo,
    /// Opening a PWM channel, or setting its period, duty cycle or enable
    /// state, failed.
    PwmConfig,
}

impl HardwareError {
    /// A short description of the error.
    pub fn message(&self) -> (r: &'static str) {
        match self {
            HardwareError::LineAcquisition => "digital line could not be acquired",
            HardwareError::LineIo => "digital line read or write failed",
            HardwareError::PwmConfig => "PWM channel configuration failed",
        }
    }
}

} // verus!
