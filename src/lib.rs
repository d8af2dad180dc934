//! Actuation and ranging for a two-wheel differential-drive vehicle: exclusive
//! acquisition of digital lines, a motor controller that maps motion commands
//! to PWM settings and a direction truth table, and an ultrasonic ranging
//! protocol that turns echo timing into a distance.
pub mod error;
pub mod drive_system;
pub mod gpio;
pub mod pwm;
pub mod sensor;

pub use error::HardwareError;
pub use gpio::{get_input, get_line, get_output, DigitalLine, Direction};
pub use drive_system::{
    command_writes, Command, DirectionLine, DirectionLines, DriveState, DriveSystem,
    HardwareWrite, PwmSide,
};
pub use pwm::{PwmChannel, PwmState};
pub use sensor::{
    distance_thousandths_cm, RangingAction, RangingEvent, RangingPhase, Sensor,
};
