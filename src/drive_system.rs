use vstd::prelude::*;

use crate::error::HardwareError;
use crate::gpio::{get_output, DigitalLine, Direction, LineState};
use crate::pwm::{PwmChannel, PwmState};

verus! {

/// Pin of the left wheel's forward direction line.
pub const LEFT_FORWARD: u32 = 51;

/// Pin of the left wheel's reverse direction line.
pub const LEFT_REVERSE: u32 = 77;

/// Pin of the right wheel's forward direction line.
pub const RIGHT_FORWARD: u32 = 76;

/// Pin of the right wheel's reverse direction line.
pub const RIGHT_REVERSE: u32 = 12;

/// The PWM chip that drives both wheels.
pub const PWM_CHIP: u32 = 0;

/// The PWM channel of the left wheel.
pub const PWM_CHANNEL_LEFT: u32 = 0;

/// The PWM channel of the right wheel.
pub const PWM_CHANNEL_RIGHT: u32 = 2;

/// The fixed PWM frequency of the whole system.
pub const PWM_FREQ_HZ: u32 = 100;

/// The PWM period that follows from `PWM_FREQ_HZ`.
pub const PERIOD_NS: u32 = 10_000_000;

/// One of the four direction lines.
#[derive(Clone, Copy, Debug, PartialEq, Eq, Structural)]
pub enum DirectionLine {
    LeftForward,
    LeftReverse,
    RightForward,
    RightReverse,
}

/// One of the two PWM channels.
#[derive(Clone, Copy, Debug, PartialEq, Eq, Structural)]
pub enum PwmSide {
    Left,
    Right,
}

/// A single write to the drive hardware.
#[derive(Clone, Copy, Debug, PartialEq, Eq, Structural)]
pub enum HardwareWrite {
    Line { line: DirectionLine, value: u8 },
    Period { side: PwmSide, ns: u32 },
    DutyCycle { side: PwmSide, ns: u32 },
    Enable { side: PwmSide, on: bool },
}

/// A motion command.
#[derive(Clone, Copy, Debug, PartialEq, Eq, Structural)]
pub enum Command {
    Forwards,
    Reverse,
    Left,
    Right,
    Stop,
}

/// What the drive system has written to its hardware: the last value driven
/// onto each direction line and the settings written to each PWM channel.
#[derive(Clone, Copy, Debug, PartialEq, Eq)]
pub struct DriveState {
    pub left_forward: u8,
    pub left_reverse: u8,
    pub right_forward: u8,
    pub right_reverse: u8,
    pub pwm_left: PwmState,
    pub pwm_right: PwmState,
}

impl DriveState {
    /// Right after acquisition: every direction line low, nothing written to
    /// either PWM channel.
    pub open spec fn acquired() -> DriveState {
        DriveState {
            left_forward: 0,
            left_reverse: 0,
            right_forward: 0,
            right_reverse: 0,
            pwm_left: PwmState::unwritten(),
            pwm_right: PwmState::unwritten(),
        }
    }

    /// The direction lines as (left forward, left reverse, right forward,
    /// right reverse).
    pub open spec fn lines(self) -> (u8, u8, u8, u8) {
        (self.left_forward, self.left_reverse, self.right_forward, self.right_reverse)
    }

    /// The settings of the channel on `side`.
    pub open spec fn pwm(self, side: PwmSide) -> PwmState {
        match side {
            PwmSide::Left => self.pwm_left,
            PwmSide::Right => self.pwm_right,
        }
    }

    /// This state with the channel on `side` replaced by `p`.
    pub open spec fn with_pwm(self, side: PwmSide, p: PwmState) -> DriveState {
        match side {
            PwmSide::Left => DriveState { pwm_left: p, ..self },
            PwmSide::Right => DriveState { pwm_right: p, ..self },
        }
    }
}

/// The state after one successful write.
pub open spec fn apply_write(s: DriveState, w: HardwareWrite) -> DriveState {
    match w {
        HardwareWrite::Line { line, value } => match line {
            DirectionLine::LeftForward => DriveState { left_forward: value, ..s },
            DirectionLine::LeftReverse => DriveState { left_reverse: value, ..s },
            DirectionLine::RightForward => DriveState { right_forward: value, ..s },
            DirectionLine::RightReverse => DriveState { right_reverse: value, ..s },
        },
        HardwareWrite::Period { side, ns } => s.with_pwm(
            side,
            PwmState { period_ns: Some(ns), ..s.pwm(side) },
        ),
        HardwareWrite::DutyCycle { side, ns } => s.with_pwm(
            side,
            PwmState { duty_cycle_ns: Some(ns), ..s.pwm(side) },
        ),
        HardwareWrite::Enable { side, on } => s.with_pwm(
            side,
            PwmState { enabled: Some(on), ..s.pwm(side) },
        ),
    }
}

/// The state after the first `n` writes of `ws` all succeeded, in order.
pub open spec fn apply_prefix(s: DriveState, ws: Seq<HardwareWrite>, n: nat) -> DriveState
    recommends
        n <= ws.len(),
    decreases n,
{
    if n == 0 {
        s
    } else {
        apply_write(apply_prefix(s, ws, (n - 1) as nat), ws[n - 1])
    }
}

/// The state after every write of `ws` succeeded, in order.
pub open spec fn apply_writes(s: DriveState, ws: Seq<HardwareWrite>) -> DriveState {
    apply_prefix(s, ws, ws.len())
}

/// The error reported when `w` fails.
pub open spec fn write_error(w: HardwareWrite) -> HardwareError {
    match w {
        HardwareWrite::Line { .. } => HardwareError::LineIo,
        _ => HardwareError::PwmConfig,
    }
}

/// Whether `w` goes to a PWM channel rather than a direction line.
pub open spec fn is_pwm_write(w: HardwareWrite) -> bool {
    !(w is Line)
}

/// Fail-fast execution of `ws` from `before`: success means every write was
/// applied in order; failure means the writes before some step `k` were
/// applied, step `k` failed with its error, and nothing after it was tried.
pub open spec fn fail_fast(
    before: DriveState,
    ws: Seq<HardwareWrite>,
    after: DriveState,
    r: Result<(), HardwareError>,
) -> bool {
    &&& r is Ok ==> after == apply_writes(before, ws)
    &&& r matches Err(e) ==> exists|k: nat|
        k < ws.len() && after == apply_prefix(before, ws, k) && e == write_error(#[trigger] ws[k as int])
}

/// The duty cycle for `power_pct`: the period times `power_pct / 100` in
/// integer division, wrapping at 32 bits.
pub open spec fn duty_cycle_ns_of(power_pct: u32) -> u32 {
    ((PERIOD_NS as nat * (power_pct / 100) as nat) % 0x1_0000_0000) as u32
}

/// Set both PWM channels to the period and the duty cycle for `power_pct`
/// and enable them, left channel first.
pub open spec fn pwm_start_writes(power_pct: u32) -> Seq<HardwareWrite> {
    let d = duty_cycle_ns_of(power_pct);
    seq![
        HardwareWrite::Period { side: PwmSide::Left, ns: PERIOD_NS },
        HardwareWrite::DutyCycle { side: PwmSide::Left, ns: d },
        HardwareWrite::Enable { side: PwmSide::Left, on: true },
        HardwareWrite::Period { side: PwmSide::Right, ns: PERIOD_NS },
        HardwareWrite::DutyCycle { side: PwmSide::Right, ns: d },
        HardwareWrite::Enable { side: PwmSide::Right, on: true },
    ]
}

/// Disable both PWM channels, left first.
pub open spec fn pwm_stop_writes() -> Seq<HardwareWrite> {
    seq![
        HardwareWrite::Enable { side: PwmSide::Left, on: false },
        HardwareWrite::Enable { side: PwmSide::Right, on: false },
    ]
}

/// Drive direction line `line` to `value`.
pub open spec fn line_write(line: DirectionLine, value: u8) -> HardwareWrite {
    HardwareWrite::Line { line, value }
}

/// The direction-line writes of each command, in the order they are made.
pub open spec fn direction_writes(cmd: Command) -> Seq<HardwareWrite> {
    match cmd {
        Command::Forwards => seq![
            line_write(DirectionLine::LeftForward, 1),
            line_write(DirectionLine::RightForward, 1),
            line_write(DirectionLine::LeftReverse, 0),
            line_write(DirectionLine::RightReverse, 0),
        ],
        Command::Reverse => seq![
            line_write(DirectionLine::LeftReverse, 1),
            line_write(DirectionLine::RightReverse, 1),
            line_write(DirectionLine::LeftForward, 0),
            line_write(DirectionLine::RightForward, 0),
        ],
        Command::Left => seq![
            line_write(DirectionLine::LeftReverse, 1),
            line_write(DirectionLine::RightReverse, 0),
            line_write(DirectionLine::LeftForward, 0),
            line_write(DirectionLine::RightForward, 1),
        ],
        Command::Right => seq![
            line_write(DirectionLine::LeftReverse, 0),
            line_write(DirectionLine::RightReverse, 1),
            line_write(DirectionLine::LeftForward, 1),
            line_write(DirectionLine::RightForward, 0),
        ],
        Command::Stop => seq![
            line_write(DirectionLine::LeftReverse, 0),
            line_write(DirectionLine::RightReverse, 0),
            line_write(DirectionLine::LeftForward, 0),
            line_write(DirectionLine::RightForward, 0),
        ],
    }
}

/// Every write of a command: a motion command commits the PWM settings
/// before it asserts the direction lines; `Stop` silences PWM before it
/// clears the lines. `Stop` ignores `power_pct`.
pub open spec fn command_writes_spec(cmd: Command, power_pct: u32) -> Seq<HardwareWrite> {
    match cmd {
        Command::Stop => pwm_stop_writes() + direction_writes(cmd),
        _ => pwm_start_writes(power_pct) + direction_writes(cmd),
    }
}

/// The direction truth table, as (left forward, left reverse, right forward,
/// right reverse).
pub open spec fn truth_table(cmd: Command) -> (u8, u8, u8, u8) {
    match cmd {
        Command::Forwards => (1, 0, 1, 0),
        Command::Reverse => (0, 1, 0, 1),
        Command::Left => (0, 1, 1, 0),
        Command::Right => (1, 0, 0, 1),
        Command::Stop => (0, 0, 0, 0),
    }
}

proof fn lemma_prefix_agree(s: DriveState, x: Seq<HardwareWrite>, y: Seq<HardwareWrite>, n: nat)
    requires
        n <= x.len(),
        n <= y.len(),
        forall|i: int| 0 <= i < n ==> x[i] == y[i],
    ensures
        apply_prefix(s, x, n) == apply_prefix(s, y, n),
    decreases n,
{
    if n > 0 {
        lemma_prefix_agree(s, x, y, (n - 1) as nat);
    }
}

proof fn lemma_apply_concat_prefix(
    s: DriveState,
    a: Seq<HardwareWrite>,
    b: Seq<HardwareWrite>,
    k: nat,
)
    requires
        k <= b.len(),
    ensures
        apply_prefix(s, a + b, a.len() + k) == apply_prefix(apply_writes(s, a), b, k),
    decreases k,
{
    if k == 0 {
        lemma_prefix_agree(s, a + b, a, a.len());
    } else {
        lemma_apply_concat_prefix(s, a, b, (k - 1) as nat);
        assert((a + b)[a.len() + k - 1] == b[k - 1]);
    }
}

proof fn lemma_apply_concat(s: DriveState, a: Seq<HardwareWrite>, b: Seq<HardwareWrite>)
    ensures
        apply_writes(s, a + b) == apply_writes(apply_writes(s, a), b),
{
    lemma_apply_concat_prefix(s, a, b, b.len());
}

proof fn lemma_pwm_start(s: DriveState, power_pct: u32)
    ensures
        ({
            let after = apply_writes(s, pwm_start_writes(power_pct));
            let expected = PwmState {
                period_ns: Some(PERIOD_NS),
                duty_cycle_ns: Some(duty_cycle_ns_of(power_pct)),
                enabled: Some(true),
            };
            after.pwm_left == expected && after.pwm_right == expected && after.lines() == s.lines()
        }),
{
    reveal_with_fuel(apply_prefix, 7);
}

proof fn lemma_pwm_stop(s: DriveState)
    ensures
        ({
            let after = apply_writes(s, pwm_stop_writes());
            after.pwm_left.enabled == Some(false) && after.pwm_right.enabled == Some(false)
                && after.lines() == s.lines()
        }),
{
    reveal_with_fuel(apply_prefix, 3);
}

proof fn lemma_direction(s: DriveState, cmd: Command)
    ensures
        ({
            let after = apply_writes(s, direction_writes(cmd));
            after.lines() == truth_table(cmd) && after.pwm_left == s.pwm_left && after.pwm_right
                == s.pwm_right
        }),
{
    reveal_with_fuel(apply_prefix, 5);
}

/// After any command at any power level succeeds, the four direction lines
/// match the truth table. After a motion command both PWM channels hold the
/// period and the duty cycle for `power_pct` and are enabled; after `Stop`
/// both are disabled.
pub proof fn lemma_command_result(s: DriveState, cmd: Command, power_pct: u32)
    ensures
        apply_writes(s, command_writes_spec(cmd, power_pct)).lines() == truth_table(cmd),
        cmd != Command::Stop ==> {
            let after = apply_writes(s, command_writes_spec(cmd, power_pct));
            let expected = PwmState {
                period_ns: Some(PERIOD_NS),
                duty_cycle_ns: Some(duty_cycle_ns_of(power_pct)),
                enabled: Some(true),
            };
            after.pwm_left == expected && after.pwm_right == expected
        },
        cmd == Command::Stop ==> {
            let after = apply_writes(s, command_writes_spec(cmd, power_pct));
            after.pwm_left.enabled == Some(false) && after.pwm_right.enabled == Some(false)
        },
{
    if cmd == Command::Stop {
        lemma_apply_concat(s, pwm_stop_writes(), direction_writes(cmd));
        lemma_pwm_stop(s);
        lemma_direction(apply_writes(s, pwm_stop_writes()), cmd);
    } else {
        lemma_apply_concat(s, pwm_start_writes(power_pct), direction_writes(cmd));
        lemma_pwm_start(s, power_pct);
        lemma_direction(apply_writes(s, pwm_start_writes(power_pct)), cmd);
    }
}

/// Whatever the state, `forwards(p)` followed by `stop()`, both
/// successful, leaves all four direction lines low and both PWM channels
/// disabled.
pub proof fn lemma_forwards_then_stop(s: DriveState, power_pct: u32)
    ensures
        ({
            let moving = apply_writes(s, command_writes_spec(Command::Forwards, power_pct));
            let stopped = apply_writes(moving, command_writes_spec(Command::Stop, 0));
            &&& stopped.lines() == (0u8, 0u8, 0u8, 0u8)
            &&& stopped.pwm_left.enabled == Some(false)
            &&& stopped.pwm_right.enabled == Some(false)
        }),
{
    let moving = apply_writes(s, command_writes_spec(Command::Forwards, power_pct));
    lemma_command_result(moving, Command::Stop, 0);
}

/// Within every command, each PWM write comes before each direction-line
/// write: a motion command commits PWM before it asserts direction, and
/// `Stop` silences PWM before it clears the lines.
pub proof fn lemma_pwm_precedes_lines(cmd: Command, power_pct: u32)
    ensures
        forall|i: int, j: int|
            0 <= i < j < command_writes_spec(cmd, power_pct).len() && is_pwm_write(
                #[trigger] command_writes_spec(cmd, power_pct)[j],
            ) ==> is_pwm_write(#[trigger] command_writes_spec(cmd, power_pct)[i]),
{
    let ws = command_writes_spec(cmd, power_pct);
    let n: int = if cmd == Command::Stop { 2 } else { 6 };
    assert forall|k: int| 0 <= k < ws.len() implies (is_pwm_write(ws[k]) <==> k < n) by {
        if cmd == Command::Stop {
            assert(ws =~= pwm_stop_writes() + direction_writes(cmd));
        } else {
            assert(ws =~= pwm_start_writes(power_pct) + direction_writes(cmd));
        }
    }
}

/// Builds the writes of `cmd` at `power_pct`, in the order they are made.
pub fn command_writes(cmd: Command, power_pct: u32) -> (r: Vec<HardwareWrite>)
    ensures
        r@ == command_writes_spec(cmd, power_pct),
{
    let (period, duty) = DriveSystem::calculate_period_duty_cycle(power_pct);
    let lf = DirectionLine::LeftForward;
    let lr = DirectionLine::LeftReverse;
    let rf = DirectionLine::RightForward;
    let rr = DirectionLine::RightReverse;
    let mut r: Vec<HardwareWrite> = match cmd {
        Command::Stop => vec![
            HardwareWrite::Enable { side: PwmSide::Left, on: false },
            HardwareWrite::Enable { side: PwmSide::Right, on: false },
        ],
        _ => vec![
            HardwareWrite::Period { side: PwmSide::Left, ns: period },
            HardwareWrite::DutyCycle { side: PwmSide::Left, ns: duty },
            HardwareWrite::Enable { side: PwmSide::Left, on: true },
            HardwareWrite::Period { side: PwmSide::Right, ns: period },
            HardwareWrite::DutyCycle { side: PwmSide::Right, ns: duty },
            HardwareWrite::Enable { side: PwmSide::Right, on: true },
        ],
    };
    let (a, b, c, d): ((DirectionLine, u8), (DirectionLine, u8), (DirectionLine, u8), (DirectionLine, u8)) = match cmd {
        Command::Forwards => ((lf, 1), (rf, 1), (lr, 0), (rr, 0)),
        Command::Reverse => ((lr, 1), (rr, 1), (lf, 0), (rf, 0)),
        Command::Left => ((lr, 1), (rr, 0), (lf, 0), (rf, 1)),
        Command::Right => ((lr, 0), (rr, 1), (lf, 1), (rf, 0)),
        Command::Stop => ((lr, 0), (rr, 0), (lf, 0), (rf, 0)),
    };
    r.push(HardwareWrite::Line { line: a.0, value: a.1 });
    r.push(HardwareWrite::Line { line: b.0, value: b.1 });
    r.push(HardwareWrite::Line { line: c.0, value: c.1 });
    r.push(HardwareWrite::Line { line: d.0, value: d.1 });
    assert(r@ =~= command_writes_spec(cmd, power_pct));
    r
}

/// How a drive system is wired: the pin and direction of each direction
/// line, and the (chip, channel) of each PWM output.
pub ghost struct DriveWiring {
    pub left_forward: (u32, Direction),
    pub left_reverse: (u32, Direction),
    pub right_forward: (u32, Direction),
    pub right_reverse: (u32, Direction),
    pub pwm_left: (u32, u32),
    pub pwm_right: (u32, u32),
}

impl DriveWiring {
    /// The board's wiring: the four direction pins as outputs, and channels
    /// 0 (left) and 2 (right) of PWM chip 0.
    pub open spec fn board() -> DriveWiring {
        DriveWiring {
            left_forward: (LEFT_FORWARD, Direction::Output),
            left_reverse: (LEFT_REVERSE, Direction::Output),
            right_forward: (RIGHT_FORWARD, Direction::Output),
            right_reverse: (RIGHT_REVERSE, Direction::Output),
            pwm_left: (PWM_CHIP, PWM_CHANNEL_LEFT),
            pwm_right: (PWM_CHIP, PWM_CHANNEL_RIGHT),
        }
    }
}

/// A freshly claimed output line on `pin`.
pub open spec fn claimed_output(pin: u32) -> LineState {
    LineState { pin, direction: Direction::Output, value: 0 }
}

/// The four direction lines, held together.
pub struct DirectionLines {
    left_forward: DigitalLine,
    left_reverse: DigitalLine,
    right_forward: DigitalLine,
    right_reverse: DigitalLine,
}

impl View for DirectionLines {
    /// (left forward, left reverse, right forward, right reverse)
    type V = (LineState, LineState, LineState, LineState);

    closed spec fn view(&self) -> (LineState, LineState, LineState, LineState) {
        (self.left_forward@, self.left_reverse@, self.right_forward@, self.right_reverse@)
    }
}

impl DirectionLines {
    /// Claims the four direction pins as outputs, driven low, in the order
    /// left forward, left reverse, right forward, right reverse. If one claim
    /// fails, the lines claimed before it are released and the error is
    /// `LineAcquisition`.
    pub fn acquire() -> (r: Result<DirectionLines, HardwareError>)
        ensures
            r matches Ok(l) ==> l@ == (
                claimed_output(LEFT_FORWARD),
                claimed_output(LEFT_REVERSE),
                claimed_output(RIGHT_FORWARD),
                claimed_output(RIGHT_REVERSE),
            ),
            r is Err ==> r == Err::<DirectionLines, HardwareError>(HardwareError::LineAcquisition),
    {
        let left_forward = match get_output(LEFT_FORWARD) {
            Ok(l) => l,
            Err(e) => {
                return Err(e);
            },
        };
        let left_reverse = match get_output(LEFT_REVERSE) {
            Ok(l) => l,
            Err(e) => {
                return Err(e);
            },
        };
        let right_forward = match get_output(RIGHT_FORWARD) {
            Ok(l) => l,
            Err(e) => {
                return Err(e);
            },
        };
        let right_reverse = match get_output(RIGHT_REVERSE) {
            Ok(l) => l,
            Err(e) => {
                return Err(e);
            },
        };
        Ok(DirectionLines { left_forward, left_reverse, right_forward, right_reverse })
    }
}

/// The motor controller: four direction lines and two PWM channels, all
/// held for the lifetime of the value and released together when it is
/// dropped.
pub struct DriveSystem {
    lines: DirectionLines,
    pwm_left: PwmChannel,
    pwm_right: PwmChannel,
}

impl View for DriveSystem {
    type V = DriveState;

    closed spec fn view(&self) -> DriveState {
        DriveState {
            left_forward: self.lines.left_forward@.value,
            left_reverse: self.lines.left_reverse@.value,
            right_forward: self.lines.right_forward@.value,
            right_reverse: self.lines.right_reverse@.value,
            pwm_left: self.pwm_left@,
            pwm_right: self.pwm_right@,
        }
    }
}

impl DriveSystem {
    /// Which pins and PWM channels this drive system holds.
    pub closed spec fn wiring(&self) -> DriveWiring {
        DriveWiring {
            left_forward: (self.lines.left_forward@.pin, self.lines.left_forward@.direction),
            left_reverse: (self.lines.left_reverse@.pin, self.lines.left_reverse@.direction),
            right_forward: (self.lines.right_forward@.pin, self.lines.right_forward@.direction),
            right_reverse: (self.lines.right_reverse@.pin, self.lines.right_reverse@.direction),
            pwm_left: self.pwm_left.id(),
            pwm_right: self.pwm_right.id(),
        }
    }

    /// The drive system holds the board's direction pins as outputs and the
    /// board's two PWM channels.
    pub open spec fn wf(&self) -> bool {
        self.wiring() == DriveWiring::board()
    }

    /// Opens PWM chip 0, channel 0 for the left wheel and channel 2 for the
    /// right, and joins them to `lines`. The only error is `PwmConfig`; on
    /// failure `lines` and any channel already opened are released.
    pub fn with_lines(lines: DirectionLines) -> (r: Result<DriveSystem, HardwareError>)
        requires
            lines@ == (
                claimed_output(LEFT_FORWARD),
                claimed_output(LEFT_REVERSE),
                claimed_output(RIGHT_FORWARD),
                claimed_output(RIGHT_REVERSE),
            ),
        ensures
            r matches Ok(d) ==> d.wf() && d@ == DriveState::acquired(),
            r is Err ==> r == Err::<DriveSystem, HardwareError>(HardwareError::PwmConfig),
    {
        let pwm_left = match PwmChannel::open(PWM_CHIP, PWM_CHANNEL_LEFT) {
            Ok(p) => p,
            Err(e) => {
                return Err(e);
            },
        };
        let pwm_right = match PwmChannel::open(PWM_CHIP, PWM_CHANNEL_RIGHT) {
            Ok(p) => p,
            Err(e) => {
                return Err(e);
            },
        };
        Ok(DriveSystem { lines, pwm_left, pwm_right })
    }

    /// Claims the four direction lines (`DirectionLines::acquire`, whose only
    /// error is `LineAcquisition`), then opens the two PWM channels
    /// (`with_lines`, whose only error is `PwmConfig`). If any step fails,
    /// whatever was acquired before it is released and the step's error is
    /// returned.
    pub fn new() -> (r: Result<DriveSystem, HardwareError>)
        ensures
            r matches Ok(d) ==> d.wf() && d@ == DriveState::acquired(),
            r matches Err(e) ==> e == HardwareError::LineAcquisition || e
                == HardwareError::PwmConfig,
    {
        match DirectionLines::acquire() {
            Ok(lines) => DriveSystem::with_lines(lines),
            Err(e) => Err(e),
        }
    }

    /// What has been written to the hardware so far.
    pub fn state(&self) -> (r: DriveState)
        ensures
            r == self@,
    {
        DriveState {
            left_forward: self.lines.left_forward.value(),
            left_reverse: self.lines.left_reverse.value(),
            right_forward: self.lines.right_forward.value(),
            right_reverse: self.lines.right_reverse.value(),
            pwm_left: self.pwm_left.state(),
            pwm_right: self.pwm_right.state(),
        }
    }

    /// The PWM period and duty cycle for `power_pct`. The period is fixed by
    /// the 100 Hz frequency; the duty cycle is the period times
    /// `power_pct / 100` in integer division, so it is zero below 100 and the
    /// whole period at 100.
    pub fn calculate_period_duty_cycle(power_pct: u32) -> (r: (u32, u32))
        ensures
            r.0 == PERIOD_NS,
            r.1 == duty_cycle_ns_of(power_pct),
            power_pct <= 99 ==> r.1 == 0,
            power_pct == 100 ==> r.1 == r.0,
    {
        let period: u32 = 1_000_000_000 / PWM_FREQ_HZ;
        let duty_cycle: u32 = period.wrapping_mul(power_pct / 100);
        (period, duty_cycle)
    }

    /// Makes one write.
    fn perform(&mut self, w: HardwareWrite) -> (r: Result<(), HardwareError>)
        requires
            old(self).wf(),
        ensures
            final(self).wf(),
            r is Ok ==> final(self)@ == apply_write(old(self)@, w),
            r is Err ==> final(self)@ == old(self)@ && r == Err::<(), HardwareError>(
                write_error(w),
            ),
    {
        match w {
            HardwareWrite::Line { line, value } => match line {
                DirectionLine::LeftForward => self.lines.left_forward.set_value(value),
                DirectionLine::LeftReverse => self.lines.left_reverse.set_value(value),
                DirectionLine::RightForward => self.lines.right_forward.set_value(value),
                DirectionLine::RightReverse => self.lines.right_reverse.set_value(value),
            },
            HardwareWrite::Period { side, ns } => match side {
                PwmSide::Left => self.pwm_left.write_period(ns),
                PwmSide::Right => self.pwm_right.write_period(ns),
            },
            HardwareWrite::DutyCycle { side, ns } => match side {
                PwmSide::Left => self.pwm_left.write_duty_cycle(ns),
                PwmSide::Right => self.pwm_right.write_duty_cycle(ns),
            },
            HardwareWrite::Enable { side, on } => match side {
                PwmSide::Left => self.pwm_left.write_enabled(on),
                PwmSide::Right => self.pwm_right.write_enabled(on),
            },
        }
    }

    /// Makes the writes in order, stopping at the first that fails.
    fn perform_all(&mut self, writes: &Vec<HardwareWrite>) -> (r: Result<(), HardwareError>)
        requires
            old(self).wf(),
        ensures
            final(self).wf(),
            fail_fast(old(self)@, writes@, final(self)@, r),
    {
        let mut i: usize = 0;
        while i < writes.len()
            invariant
                self.wf(),
                0 <= i <= writes@.len(),
                self@ == apply_prefix(old(self)@, writes@, i as nat),
            decreases writes@.len() - i,
        {
            match self.perform(writes[i]) {
                Ok(()) => {},
                Err(e) => {
                    assert(e == write_error(writes@[i as int]));
                    return Err(e);
                },
            }
            i += 1;
        }
        Ok(())
    }

    /// Runs `cmd` at `power_pct`.
    fn run(&mut self, cmd: Command, power_pct: u32) -> (r: Result<(), HardwareError>)
        requires
            old(self).wf(),
        ensures
            final(self).wf(),
            fail_fast(old(self)@, command_writes_spec(cmd, power_pct), final(self)@, r),
    {
        let writes = command_writes(cmd, power_pct);
        self.perform_all(&writes)
    }

    /// Drives both wheels forwards: PWM first, then LF=1, RF=1, LR=0, RR=0.
    pub fn forwards(&mut self, power_pct: u32) -> (r: Result<(), HardwareError>)
        requires
            old(self).wf(),
        ensures
            final(self).wf(),
            fail_fast(
                old(self)@,
                command_writes_spec(Command::Forwards, power_pct),
                final(self)@,
                r,
            ),
    {
        self.run(Command::Forwards, power_pct)
    }

    /// Drives both wheels in reverse: PWM first, then LR=1, RR=1, LF=0, RF=0.
    pub fn reverse(&mut self, power_pct: u32) -> (r: Result<(), HardwareError>)
        requires
            old(self).wf(),
        ensures
            final(self).wf(),
            fail_fast(
                old(self)@,
                command_writes_spec(Command::Reverse, power_pct),
                final(self)@,
                r,
            ),
    {
        self.run(Command::Reverse, power_pct)
    }

    /// Disables both PWM channels, then drives all four direction lines low.
    pub fn stop(&mut self) -> (r: Result<(), HardwareError>)
        requires
            old(self).wf(),
        ensures
            final(self).wf(),
            fail_fast(old(self)@, command_writes_spec(Command::Stop, 0), final(self)@, r),
    {
        self.run(Command::Stop, 0)
    }

    /// Turns left: PWM first, then LR=1, RR=0, LF=0, RF=1.
    pub fn left(&mut self, power_pct: u32) -> (r: Result<(), HardwareError>)
        requires
            old(self).wf(),
        ensures
            final(self).wf(),
            fail_fast(old(self)@, command_writes_spec(Command::Left, power_pct), final(self)@, r),
    {
        self.run(Command::Left, power_pct)
    }

    /// Turns right: PWM first, then LR=0, RR=1, LF=1, RF=0.
    pub fn right(&mut self, power_pct: u32) -> (r: Result<(), HardwareError>)
        requires
            old(self).wf(),
        ensures
            final(self).wf(),
            fail_fast(
                old(self)@,
                command_writes_spec(Command::Right, power_pct),
                final(self)@,
                r,
            ),
    {
        self.run(Command::Right, power_pct)
    }
}

} // verus!
