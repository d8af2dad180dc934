use robocar_hardware::drive_system::{PERIOD_NS, PWM_FREQ_HZ};
use robocar_hardware::{
    command_writes, Command, DirectionLine, DirectionLines, DriveState, DriveSystem, HardwareError,
    HardwareWrite, PwmChannel, PwmSide, PwmState,
};

fn unwritten() -> PwmState {
    PwmState { period_ns: None, duty_cycle_ns: None, enabled: None }
}

fn acquired() -> DriveState {
    DriveState {
        left_forward: 0,
        left_reverse: 0,
        right_forward: 0,
        right_reverse: 0,
        pwm_left: unwritten(),
        pwm_right: unwritten(),
    }
}

fn apply(mut s: DriveState, writes: &[HardwareWrite]) -> DriveState {
    for w in writes {
        match *w {
            HardwareWrite::Line { line, value } => match line {
                DirectionLine::LeftForward => s.left_forward = value,
                DirectionLine::LeftReverse => s.left_reverse = value,
                DirectionLine::RightForward => s.right_forward = value,
                DirectionLine::RightReverse => s.right_reverse = value,
            },
            HardwareWrite::Period { side, ns } => pwm(&mut s, side).period_ns = Some(ns),
            HardwareWrite::DutyCycle { side, ns } => pwm(&mut s, side).duty_cycle_ns = Some(ns),
            HardwareWrite::Enable { side, on } => pwm(&mut s, side).enabled = Some(on),
        }
    }
    s
}

fn pwm(s: &mut DriveState, side: PwmSide) -> &mut PwmState {
    match side {
        PwmSide::Left => &mut s.pwm_left,
        PwmSide::Right => &mut s.pwm_right,
    }
}

fn lines(s: &DriveState) -> (u8, u8, u8, u8) {
    (s.left_forward, s.left_reverse, s.right_forward, s.right_reverse)
}

#[test]
fn duty_cycle_is_zero_below_full_power() {
    for p in 0..=99u32 {
        assert_eq!(DriveSystem::calculate_period_duty_cycle(p), (10_000_000, 0));
    }
}

#[test]
fn duty_cycle_is_whole_period_at_full_power() {
    assert_eq!(DriveSystem::calculate_period_duty_cycle(100), (10_000_000, 10_000_000));
}

#[test]
fn period_is_fixed_by_frequency() {
    assert_eq!(PERIOD_NS, 1_000_000_000 / PWM_FREQ_HZ);
    for p in [0u32, 1, 50, 99, 100, 101, 250, 1000, u32::MAX] {
        assert_eq!(DriveSystem::calculate_period_duty_cycle(p).0, 10_000_000);
    }
}

#[test]
fn duty_cycle_out_of_range_follows_formula() {
    assert_eq!(DriveSystem::calculate_period_duty_cycle(199).1, 10_000_000);
    assert_eq!(DriveSystem::calculate_period_duty_cycle(250).1, 20_000_000);
    // 10_000_000 * 430 wraps at 32 bits.
    assert_eq!(
        DriveSystem::calculate_period_duty_cycle(43_000).1,
        10_000_000u32.wrapping_mul(430)
    );
}

#[test]
fn forwards_full_power_scenario() {
    let writes = command_writes(Command::Forwards, 100);
    let s = apply(acquired(), &writes);
    assert_eq!(lines(&s), (1, 0, 1, 0));
    let expected = PwmState {
        period_ns: Some(10_000_000),
        duty_cycle_ns: Some(10_000_000),
        enabled: Some(true),
    };
    assert_eq!(s.pwm_left, expected);
    assert_eq!(s.pwm_right, expected);
}

#[test]
fn left_half_power_truncates_duty() {
    let writes = command_writes(Command::Left, 50);
    let s = apply(acquired(), &writes);
    assert_eq!(s.pwm_left.duty_cycle_ns, Some(0));
    assert_eq!(s.pwm_right.duty_cycle_ns, Some(0));
    // LF=0, LR=1, RF=1, RR=0
    assert_eq!(lines(&s), (0, 1, 1, 0));
}

#[test]
fn every_command_matches_truth_table() {
    let table = [
        (Command::Forwards, (1, 0, 1, 0)),
        (Command::Reverse, (0, 1, 0, 1)),
        (Command::Left, (0, 1, 1, 0)),
        (Command::Right, (1, 0, 0, 1)),
        (Command::Stop, (0, 0, 0, 0)),
    ];
    for p in [0u32, 37, 99, 100] {
        for (cmd, expected) in table {
            for start in [acquired(), apply(acquired(), &command_writes(Command::Right, 100))] {
                let s = apply(start, &command_writes(cmd, p));
                assert_eq!(lines(&s), expected, "{:?} at {}", cmd, p);
            }
        }
    }
}

#[test]
fn forwards_then_stop_leaves_everything_off() {
    for p in [0u32, 50, 100] {
        let moving = apply(acquired(), &command_writes(Command::Forwards, p));
        let stopped = apply(moving, &command_writes(Command::Stop, p));
        assert_eq!(lines(&stopped), (0, 0, 0, 0));
        assert_eq!(stopped.pwm_left.enabled, Some(false));
        assert_eq!(stopped.pwm_right.enabled, Some(false));
    }
}

#[test]
fn stop_disables_pwm_before_clearing_lines() {
    for before in [Command::Forwards, Command::Reverse, Command::Left, Command::Right] {
        let moving = apply(acquired(), &command_writes(before, 100));
        let writes = command_writes(Command::Stop, 0);
        assert_eq!(
            writes,
            vec![
                HardwareWrite::Enable { side: PwmSide::Left, on: false },
                HardwareWrite::Enable { side: PwmSide::Right, on: false },
                HardwareWrite::Line { line: DirectionLine::LeftReverse, value: 0 },
                HardwareWrite::Line { line: DirectionLine::RightReverse, value: 0 },
                HardwareWrite::Line { line: DirectionLine::LeftForward, value: 0 },
                HardwareWrite::Line { line: DirectionLine::RightForward, value: 0 },
            ]
        );
        // After the PWM writes alone the lines still hold the motion pattern.
        let silenced = apply(moving, &writes[..2]);
        assert_eq!(lines(&silenced), lines(&moving));
        assert_eq!(silenced.pwm_left.enabled, Some(false));
        let stopped = apply(moving, &writes);
        assert_eq!(lines(&stopped), (0, 0, 0, 0));
    }
}

#[test]
fn motion_commands_commit_pwm_before_direction() {
    for cmd in [Command::Forwards, Command::Reverse, Command::Left, Command::Right] {
        let writes = command_writes(cmd, 100);
        assert_eq!(writes.len(), 10);
        assert_eq!(
            &writes[..6],
            &[
                HardwareWrite::Period { side: PwmSide::Left, ns: 10_000_000 },
                HardwareWrite::DutyCycle { side: PwmSide::Left, ns: 10_000_000 },
                HardwareWrite::Enable { side: PwmSide::Left, on: true },
                HardwareWrite::Period { side: PwmSide::Right, ns: 10_000_000 },
                HardwareWrite::DutyCycle { side: PwmSide::Right, ns: 10_000_000 },
                HardwareWrite::Enable { side: PwmSide::Right, on: true },
            ]
        );
        assert!(writes[6..].iter().all(|w| matches!(w, HardwareWrite::Line { .. })));
    }
}

#[test]
fn forwards_writes_lines_in_order() {
    let writes = command_writes(Command::Forwards, 0);
    assert_eq!(
        &writes[6..],
        &[
            HardwareWrite::Line { line: DirectionLine::LeftForward, value: 1 },
            HardwareWrite::Line { line: DirectionLine::RightForward, value: 1 },
            HardwareWrite::Line { line: DirectionLine::LeftReverse, value: 0 },
            HardwareWrite::Line { line: DirectionLine::RightReverse, value: 0 },
        ]
    );
}

#[test]
fn drive_system_construction_fails_as_a_whole() {
    // Without the board's hardware every construction fails with a typed
    // error; with it, a second construction cannot claim the same pins.
    match DriveSystem::new() {
        Ok(d) => {
            assert_eq!(d.state(), acquired());
            assert_eq!(DriveSystem::new().err(), Some(HardwareError::LineAcquisition));
        }
        Err(e) => {
            assert!(e == HardwareError::LineAcquisition || e == HardwareError::PwmConfig)
        }
    }
}

#[test]
fn pwm_channel_open_failure_is_pwm_config() {
    match PwmChannel::open(977, 0) {
        Ok(_) => panic!("no such PWM chip should exist"),
        Err(e) => assert_eq!(e, HardwareError::PwmConfig),
    }
}

#[test]
fn direction_line_claim_failure_is_acquisition_error() {
    // Without the board's GPIO controller the claim fails as a line claim;
    // with it, a second claim of the same pins fails the same way.
    match DirectionLines::acquire() {
        Ok(_held) => {
            assert_eq!(DirectionLines::acquire().err(), Some(HardwareError::LineAcquisition));
            assert_eq!(DriveSystem::new().err(), Some(HardwareError::LineAcquisition));
        }
        Err(e) => {
            assert_eq!(e, HardwareError::LineAcquisition);
            assert_eq!(DriveSystem::new().err(), Some(HardwareError::LineAcquisition));
        }
    }
}
