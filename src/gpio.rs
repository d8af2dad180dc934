use vstd::prelude::*;

use crate::error::HardwareError;
use gpio_cdev::{Chip, Line, LineHandle, LineRequestFlags};

verus! {

#[verifier::external_type_specification]
#[verifier::external_body]
pub struct ExChip(gpio_cdev::Chip);

#[verifier::external_type_specification]
#[verifier::external_body]
pub struct ExLine(gpio_cdev::Line);

#[verifier::external_type_specification]
#[verifier::external_body]
pub struct ExLineHandle(gpio_cdev::LineHandle);

#[verifier::external_type_specification]
#[verifier::external_body]
pub struct ExGpioError(gpio_cdev::Error);

/// Relies on `gpio_cdev::LineHandle::set_value`: asks the kernel to drive the
/// line to `value`, or reports the kernel's error.
pub assume_specification[ gpio_cdev::LineHandle::set_value ](
    handle: &LineHandle,
    value: u8,
) -> core::result::Result<(), gpio_cdev::Error>;

/// Relies on `gpio_cdev::LineHandle::get_value`: the line's current value as
/// the kernel reports it, or the kernel's error.
pub assume_specification[ gpio_cdev::LineHandle::get_value ](
    handle: &LineHandle,
) -> core::result::Result<u8, gpio_cdev::Error>;

/// The device node of the board's GPIO controller.
pub const GPIO_CHIP_PATH: &'static str = "/dev/gpiochip0";

/// The consumer label under which lines are claimed.
pub const CONSUMER: &'static str = "robocar";

/// Whether a line is driven by this process or read by it.
#[derive(Clone, Copy, Debug, PartialEq, Eq, Structural)]
pub enum Direction {
    Input,
    Output,
}

/// Relies on `gpio_cdev::Chip::new`: opens the GPIO controller at `path`, or
/// reports why it could not.
#[verifier::external_body]
fn open_chip(path: &str) -> (r: Result<Chip, gpio_cdev::Error>) {
    Chip::new(path)
}

/// Relies on `gpio_cdev::Chip::get_line`: a handle to the line at `offset`,
/// or an error when the chip has no such line.
#[verifier::external_body]
fn line_at(chip: &mut Chip, offset: u32) -> (r: Result<Line, gpio_cdev::Error>) {
    chip.get_line(offset)
}

/// Relies on `gpio_cdev::Line::request`: claims the line from the kernel in
/// the given direction, driving `default` first when it is an output, or
/// reports the kernel's error (among others, when the line is already claimed).
#[verifier::external_body]
fn request_line(
    line: &Line,
    direction: Direction,
    default: u8,
    consumer: &str,
) -> (r: Result<LineHandle, gpio_cdev::Error>) {
    let flags = match direction {
        Direction::Input => LineRequestFlags::INPUT,
        Direction::Output => LineRequestFlags::OUTPUT,
    };
    line.request(flags, default, consumer)
}

/// What is known of an acquired line.
pub ghost struct LineState {
    /// The pin (line offset on the controller) that is held.
    pub pin: u32,
    pub direction: Direction,
    /// The last value driven onto the line: the value it was claimed with, or
    /// the value of the last write that succeeded. Input lines keep the value
    /// they were claimed with; they are read, not cached.
    pub value: u8,
}

/// One physical pin, held exclusively in a fixed direction for the lifetime
/// of the value. Dropping it releases the pin.
pub struct DigitalLine {
    handle: LineHandle,
    pin: u32,
    direction: Direction,
    value: u8,
}

impl View for DigitalLine {
    type V = LineState;

    closed spec fn view(&self) -> LineState {
        LineState { pin: self.pin, direction: self.direction, value: self.value }
    }
}

impl DigitalLine {
    /// The pin that this line holds.
    pub fn pin(&self) -> (r: u32)
        ensures
            r == self@.pin,
    {
        self.pin
    }

    /// The direction in which this line was claimed.
    pub fn direction(&self) -> (r: Direction)
        ensures
            r == self@.direction,
    {
        self.direction
    }

    /// The last value driven onto this line.
    pub fn value(&self) -> (r: u8)
        ensures
            r == self@.value,
    {
        self.value
    }

    /// Drives the line to `value`. On success the cached value becomes
    /// `value`; on failure nothing is recorded and the error is `LineIo`.
    pub fn set_value(&mut self, value: u8) -> (r: Result<(), HardwareError>)
        ensures
            final(self)@.pin == old(self)@.pin,
            final(self)@.direction == old(self)@.direction,
            r is Ok ==> final(self)@.value == value,
            r is Err ==> final(self)@ == old(self)@ && r == Err::<(), HardwareError>(
                HardwareError::LineIo,
            ),
    {
        match self.handle.set_value(value) {
            Ok(()) => {
                self.value = value;
                Ok(())
            },
            Err(_) => Err(HardwareError::LineIo),
        }
    }

    /// Reads the current value of an input line from the controller; a
    /// failed read is `LineIo`. Output lines are driven, not read.
    pub fn get_value(&self) -> (r: Result<u8, HardwareError>)
        requires
            self@.direction == Direction::Input,
        ensures
            r is Err ==> r == Err::<u8, HardwareError>(HardwareError::LineIo),
    {
        match self.handle.get_value() {
            Ok(v) => Ok(v),
            Err(_) => Err(HardwareError::LineIo),
        }
    }
}

/// Opens the GPIO controller and looks up the line at `gpio_number`, without
/// claiming it. Fails with `LineAcquisition` when the controller cannot be
/// opened or has no such line.
pub fn get_line(gpio_number: u32) -> (r: Result<Line, HardwareError>)
    ensures
        r is Err ==> r == Err::<Line, HardwareError>(HardwareError::LineAcquisition),
{
    let mut chip = match open_chip(GPIO_CHIP_PATH) {
        Ok(c) => c,
        Err(_) => {
            return Err(HardwareError::LineAcquisition);
        },
    };
    match line_at(&mut chip, gpio_number) {
        Ok(line) => Ok(line),
        Err(_) => Err(HardwareError::LineAcquisition),
    }
}

fn acquire(gpio_number: u32, direction: Direction) -> (r: Result<DigitalLine, HardwareError>)
    ensures
        r matches Ok(l) ==> l@ == (LineState { pin: gpio_number, direction, value: 0 }),
        r is Err ==> r == Err::<DigitalLine, HardwareError>(HardwareError::LineAcquisition),
{
    let line = match get_line(gpio_number) {
        Ok(l) => l,
        Err(e) => {
            return Err(e);
        },
    };
    match request_line(&line, direction, 0, CONSUMER) {
        Ok(handle) => Ok(DigitalLine { handle, pin: gpio_number, direction, value: 0 }),
        Err(_) => Err(HardwareError::LineAcquisition),
    }
}

/// Claims `gpio_number` exclusively as an output, driven low at first.
/// Fails with `LineAcquisition` when the controller cannot be opened, the pin
/// does not exist, or the pin is already claimed by anyone (this process
/// included); a line already held is not touched by a failed claim.
pub fn get_output(gpio_number: u32) -> (r: Result<DigitalLine, HardwareError>)
    ensures
        r matches Ok(l) ==> l@ == (LineState {
            pin: gpio_number,
            direction: Direction::Output,
            value: 0,
        }),
        r is Err ==> r == Err::<DigitalLine, HardwareError>(HardwareError::LineAcquisition),
{
    acquire(gpio_number, Direction::Output)
}

/// Claims `gpio_number` exclusively as an input. Fails as `get_output` does.
pub fn get_input(gpio_number: u32) -> (r: Result<DigitalLine, HardwareError>)
    ensures
        r matches Ok(l) ==> l@ == (LineState {
            pin: gpio_number,
            direction: Direction::Input,
            value: 0,
        }),
        r is Err ==> r == Err::<DigitalLine, HardwareError>(HardwareError::LineAcquisition),
{
    acquire(gpio_number, Direction::Input)
}

} // verus!
