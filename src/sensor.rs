use vstd::prelude::*;

use crate::error::HardwareError;
use crate::gpio::{get_input, get_output, DigitalLine, Direction};

verus! {

/// Pin of the ultrasonic sensor's trigger line.
pub const TRIGGER_PIN: u32 = 216;

/// Pin of the ultrasonic sensor's echo line.
pub const ECHO_PIN: u32 = 50;

/// How long the trigger is held low before a measurement, so that the sensor
/// is idle (500 ms).
pub const SETTLE_DELAY_US: u64 = 500_000;

/// How long the trigger is held high to emit the ranging pulse.
pub const TRIGGER_PULSE_US: u64 = 10;

/// Where a ranging measurement stands: each phase names the action that is
/// under way, or the outcome.
#[derive(Clone, Copy, Debug, PartialEq, Eq, Structural)]
pub enum RangingPhase {
    /// Driving the trigger low.
    ClearTrigger,
    /// Waiting for the sensor to settle.
    Settle,
    /// Driving the trigger high.
    RaiseTrigger,
    /// Holding the trigger high for the pulse width.
    HoldPulse,
    /// Driving the trigger low again, which ends the pulse.
    LowerTrigger,
    /// Reading the echo line until it goes high.
    AwaitRise,
    /// Reading the echo line until it goes low; it rose at `start_us`.
    AwaitFall { start_us: u64 },
    /// The echo was high for `elapsed_us` microseconds.
    Finished { elapsed_us: u64 },
    /// A line read or write failed.
    Aborted { error: HardwareError },
}

/// What happened to the action that was under way.
#[derive(Clone, Copy, Debug, PartialEq, Eq, Structural)]
pub enum RangingEvent {
    /// A trigger write or a wait finished.
    Completed,
    /// The echo line read `level` at time `at_us` (microseconds on a
    /// monotonic clock).
    EchoLevel { level: u8, at_us: u64 },
    /// A line read or write failed.
    Failed { error: HardwareError },
}

/// What the caller is to do next.
#[derive(Clone, Copy, Debug, PartialEq, Eq, Structural)]
pub enum RangingAction {
    /// Drive the trigger line to `level`.
    SetTrigger { level: u8 },
    /// Block for `micros` microseconds.
    Sleep { micros: u64 },
    /// Read the echo line and note the time.
    ReadEcho,
    /// The measurement is done: the echo was high for `elapsed_us`.
    Report { elapsed_us: u64 },
    /// The measurement failed with `error`.
    Abort { error: HardwareError },
}

/// The action that belongs to each phase.
pub open spec fn phase_action(p: RangingPhase) -> RangingAction {
    match p {
        RangingPhase::ClearTrigger => RangingAction::SetTrigger { level: 0 },
        RangingPhase::Settle => RangingAction::Sleep { micros: SETTLE_DELAY_US },
        RangingPhase::RaiseTrigger => RangingAction::SetTrigger { level: 1 },
        RangingPhase::HoldPulse => RangingAction::Sleep { micros: TRIGGER_PULSE_US },
        RangingPhase::LowerTrigger => RangingAction::SetTrigger { level: 0 },
        RangingPhase::AwaitRise => RangingAction::ReadEcho,
        RangingPhase::AwaitFall { .. } => RangingAction::ReadEcho,
        RangingPhase::Finished { elapsed_us } => RangingAction::Report { elapsed_us },
        RangingPhase::Aborted { error } => RangingAction::Abort { error },
    }
}

pub open spec fn is_terminal(p: RangingPhase) -> bool {
    p is Finished || p is Aborted
}

/// The protocol: trigger low, settle, trigger high, hold, trigger low; then
/// read the echo until it reads 1 and note that time, read it until it reads
/// 0 and report the time since. A failure ends the measurement with its
/// error; an outcome is final; an event that does not answer the action
/// under way changes nothing.
pub open spec fn next_phase(p: RangingPhase, e: RangingEvent) -> RangingPhase {
    if is_terminal(p) {
        p
    } else {
        match e {
            RangingEvent::Failed { error } => RangingPhase::Aborted { error },
            RangingEvent::Completed => match p {
                RangingPhase::ClearTrigger => RangingPhase::Settle,
                RangingPhase::Settle => RangingPhase::RaiseTrigger,
                RangingPhase::RaiseTrigger => RangingPhase::HoldPulse,
                RangingPhase::HoldPulse => RangingPhase::LowerTrigger,
                RangingPhase::LowerTrigger => RangingPhase::AwaitRise,
                _ => p,
            },
            RangingEvent::EchoLevel { level, at_us } => match p {
                RangingPhase::AwaitRise => if level == 1 {
                    RangingPhase::AwaitFall { start_us: at_us }
                } else {
                    p
                },
                RangingPhase::AwaitFall { start_us } => if level == 0 {
                    RangingPhase::Finished {
                        elapsed_us: if at_us >= start_us {
                            (at_us - start_us) as u64
                        } else {
                            0
                        },
                    }
                } else {
                    p
                },
                _ => p,
            },
        }
    }
}

/// The phase after each event of `events` in turn.
pub open spec fn run_events(p: RangingPhase, events: Seq<RangingEvent>) -> RangingPhase
    decreases events.len(),
{
    if events.len() == 0 {
        p
    } else {
        run_events(next_phase(p, events[0]), events.drop_first())
    }
}

impl RangingPhase {
    /// The first phase of a measurement and its action.
    pub fn start() -> (r: (RangingPhase, RangingAction))
        ensures
            r.0 == RangingPhase::ClearTrigger,
            r.1 == phase_action(r.0),
    {
        (RangingPhase::ClearTrigger, RangingAction::SetTrigger { level: 0 })
    }

    /// The action that belongs to this phase.
    pub fn action(&self) -> (r: RangingAction)
        ensures
            r == phase_action(*self),
    {
        match *self {
            RangingPhase::ClearTrigger => RangingAction::SetTrigger { level: 0 },
            RangingPhase::Settle => RangingAction::Sleep { micros: SETTLE_DELAY_US },
            RangingPhase::RaiseTrigger => RangingAction::SetTrigger { level: 1 },
            RangingPhase::HoldPulse => RangingAction::Sleep { micros: TRIGGER_PULSE_US },
            RangingPhase::LowerTrigger => RangingAction::SetTrigger { level: 0 },
            RangingPhase::AwaitRise => RangingAction::ReadEcho,
            RangingPhase::AwaitFall { .. } => RangingAction::ReadEcho,
            RangingPhase::Finished { elapsed_us } => RangingAction::Report { elapsed_us },
            RangingPhase::Aborted { error } => RangingAction::Abort { error },
        }
    }

    /// The phase after `event`, and the action that belongs to it.
    pub fn advance(&self, event: RangingEvent) -> (r: (RangingPhase, RangingAction))
        ensures
            r.0 == next_phase(*self, event),
            r.1 == phase_action(r.0),
    {
        let p = *self;
        let next = match p {
            RangingPhase::Finished { .. } | RangingPhase::Aborted { .. } => p,
            _ => match event {
                RangingEvent::Failed { error } => RangingPhase::Aborted { error },
                RangingEvent::Completed => match p {
                    RangingPhase::ClearTrigger => RangingPhase::Settle,
                    RangingPhase::Settle => RangingPhase::RaiseTrigger,
                    RangingPhase::RaiseTrigger => RangingPhase::HoldPulse,
                    RangingPhase::HoldPulse => RangingPhase::LowerTrigger,
                    RangingPhase::LowerTrigger => RangingPhase::AwaitRise,
                    _ => p,
                },
                RangingEvent::EchoLevel { level, at_us } => match p {
                    RangingPhase::AwaitRise => {
                        if level == 1 {
                            RangingPhase::AwaitFall { start_us: at_us }
                        } else {
                            p
                        }
                    },
                    RangingPhase::AwaitFall { start_us } => {
                        if level == 0 {
                            let elapsed_us: u64 = if at_us >= start_us {
                                at_us - start_us
                            } else {
                                0
                            };
                            RangingPhase::Finished { elapsed_us }
                        } else {
                            p
                        }
                    },
                    _ => p,
                },
            },
        };
        (next, next.action())
    }
}

proof fn lemma_run_concat(p: RangingPhase, a: Seq<RangingEvent>, b: Seq<RangingEvent>)
    ensures
        run_events(p, a + b) == run_events(run_events(p, a), b),
    decreases a.len(),
{
    if a.len() > 0 {
        assert((a + b).drop_first() =~= a.drop_first() + b);
        lemma_run_concat(next_phase(p, a[0]), a.drop_first(), b);
    } else {
        assert(a + b =~= b);
    }
}

/// Reads of the echo line that never see it high leave the measurement
/// waiting for the rising edge: it does not finish, whatever the number of
/// reads, so a missing echo blocks a caller that reads until an outcome.
pub proof fn lemma_no_echo_keeps_waiting(reads: Seq<RangingEvent>)
    requires
        forall|i: int| 0 <= i < reads.len() ==> (#[trigger] reads[i] matches RangingEvent::EchoLevel {
            level,
            ..
        } && level != 1),
    ensures
        run_events(RangingPhase::AwaitRise, reads) == RangingPhase::AwaitRise,
        phase_action(run_events(RangingPhase::AwaitRise, reads)) == RangingAction::ReadEcho,
    decreases reads.len(),
{
    if reads.len() > 0 {
        let rest = reads.drop_first();
        assert forall|i: int| 0 <= i < rest.len() implies (#[trigger] rest[i] matches RangingEvent::EchoLevel {
            level,
            ..
        } && level != 1) by {
            assert(rest[i] == reads[i + 1]);
        }
        lemma_no_echo_keeps_waiting(rest);
    }
}

proof fn lemma_echo_high_keeps_timing(start_us: u64, reads: Seq<RangingEvent>)
    requires
        forall|i: int| 0 <= i < reads.len() ==> (#[trigger] reads[i] matches RangingEvent::EchoLevel {
            level,
            ..
        } && level != 0),
    ensures
        run_events(RangingPhase::AwaitFall { start_us }, reads) == (RangingPhase::AwaitFall {
            start_us,
        }),
    decreases reads.len(),
{
    if reads.len() > 0 {
        let rest = reads.drop_first();
        assert forall|i: int| 0 <= i < rest.len() implies (#[trigger] rest[i] matches RangingEvent::EchoLevel {
            level,
            ..
        } && level != 0) by {
            assert(rest[i] == reads[i + 1]);
        }
        lemma_echo_high_keeps_timing(start_us, rest);
    }
}

/// A whole measurement: the five trigger and wait steps complete, the echo
/// reads low any number of times, reads 1 at `rise_us`, reads high any
/// number of times, and reads 0 at `rise_us + pulse_us`. The measurement
/// then reports an echo of `pulse_us` microseconds.
pub proof fn lemma_pulse_width_measured(
    lows: Seq<RangingEvent>,
    rise_us: u64,
    highs: Seq<RangingEvent>,
    pulse_us: u64,
)
    requires
        rise_us + pulse_us <= u64::MAX,
        forall|i: int| 0 <= i < lows.len() ==> (#[trigger] lows[i] matches RangingEvent::EchoLevel {
            level,
            ..
        } && level != 1),
        forall|i: int| 0 <= i < highs.len() ==> (#[trigger] highs[i] matches RangingEvent::EchoLevel {
            level,
            ..
        } && level != 0),
    ensures
        ({
            let steps = seq![RangingEvent::Completed; 5];
            let rise = seq![RangingEvent::EchoLevel { level: 1, at_us: rise_us }];
            let fall = seq![
                RangingEvent::EchoLevel { level: 0, at_us: (rise_us + pulse_us) as u64 },
            ];
            let end = run_events(RangingPhase::ClearTrigger, steps + lows + rise + highs + fall);
            &&& end == (RangingPhase::Finished { elapsed_us: pulse_us })
            &&& phase_action(end) == (RangingAction::Report { elapsed_us: pulse_us })
        }),
{
    let steps = seq![RangingEvent::Completed; 5];
    let rise = seq![RangingEvent::EchoLevel { level: 1, at_us: rise_us }];
    let fall = seq![RangingEvent::EchoLevel { level: 0, at_us: (rise_us + pulse_us) as u64 }];
    let start = RangingPhase::ClearTrigger;
    assert(steps =~= seq![
        RangingEvent::Completed,
        RangingEvent::Completed,
        RangingEvent::Completed,
        RangingEvent::Completed,
        RangingEvent::Completed,
    ]);
    reveal_with_fuel(run_events, 6);
    assert(run_events(start, steps) == RangingPhase::AwaitRise);
    lemma_run_concat(start, steps, lows);
    lemma_no_echo_keeps_waiting(lows);
    lemma_run_concat(start, steps + lows, rise);
    assert(run_events(RangingPhase::AwaitRise, rise) == (RangingPhase::AwaitFall {
        start_us: rise_us,
    }));
    lemma_run_concat(start, steps + lows + rise, highs);
    lemma_echo_high_keeps_timing(rise_us, highs);
    lemma_run_concat(start, steps + lows + rise + highs, fall);
}

/// The distance to the obstacle, in thousandths of a centimetre, for an echo
/// that was high for `elapsed_us` microseconds: sound covers 34 thousandths of a
/// centimetre per
/// microsecond and travels there and back, so the distance is half of
/// `34 * elapsed_us` thousandths, that is `17 * elapsed_us`.
pub fn distance_thousandths_cm(elapsed_us: u64) -> (r: u128)
    ensures
        r == 17 * elapsed_us,
        2 * r == 34 * elapsed_us,
{
    17 * (elapsed_us as u128)
}

/// The ultrasonic sensor: a trigger line (output) and an echo line (input),
/// held for the lifetime of the value and released together.
pub struct Sensor {
    trig_pin: DigitalLine,
    echo_pin: DigitalLine,
}

/// How a sensor is wired: the pin and direction of its trigger and echo
/// lines.
pub ghost struct SensorWiring {
    pub trigger: (u32, Direction),
    pub echo: (u32, Direction),
}

impl SensorWiring {
    /// The board's wiring: the trigger an output on `TRIGGER_PIN`, the echo
    /// an input on `ECHO_PIN`.
    pub open spec fn board() -> SensorWiring {
        SensorWiring {
            trigger: (TRIGGER_PIN, Direction::Output),
            echo: (ECHO_PIN, Direction::Input),
        }
    }
}

impl Sensor {
    /// Which pins this sensor holds, and in which direction.
    pub closed spec fn wiring(&self) -> SensorWiring {
        SensorWiring {
            trigger: (self.trig_pin@.pin, self.trig_pin@.direction),
            echo: (self.echo_pin@.pin, self.echo_pin@.direction),
        }
    }

    /// The sensor holds the board's trigger and echo pins.
    pub open spec fn wf(&self) -> bool {
        self.wiring() == SensorWiring::board()
    }

    /// The level last driven onto the trigger line.
    pub closed spec fn trigger_level(&self) -> u8 {
        self.trig_pin@.value
    }

    /// Acquires the trigger line (as an output, driven low) and the echo
    /// line (as an input). If the second fails, the first is released.
    pub fn new() -> (r: Result<Sensor, HardwareError>)
        ensures
            r matches Ok(s) ==> s.wf() && s.trigger_level() == 0,
            r is Err ==> r == Err::<Sensor, HardwareError>(HardwareError::LineAcquisition),
    {
        let trig_pin = match get_output(TRIGGER_PIN) {
            Ok(l) => l,
            Err(e) => {
                return Err(e);
            },
        };
        let echo_pin = match get_input(ECHO_PIN) {
            Ok(l) => l,
            Err(e) => {
                return Err(e);
            },
        };
        Ok(Sensor { trig_pin, echo_pin })
    }

    /// Drives the trigger line to `level`; a failed write is `LineIo`.
    pub fn set_trigger(&mut self, level: u8) -> (r: Result<(), HardwareError>)
        requires
            old(self).wf(),
        ensures
            final(self).wf(),
            r is Ok ==> final(self).trigger_level() == level,
            r is Err ==> final(self).trigger_level() == old(self).trigger_level() && r == Err::<
                (),
                HardwareError,
            >(HardwareError::LineIo),
    {
        self.trig_pin.set_value(level)
    }

    /// Reads the echo line; a failed read is `LineIo`.
    pub fn read_echo(&self) -> (r: Result<u8, HardwareError>)
        requires
            self.wf(),
        ensures
            r is Err ==> r == Err::<u8, HardwareError>(HardwareError::LineIo),
    {
        self.echo_pin.get_value()
    }
}

} // verus!
