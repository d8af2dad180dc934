use robocar_hardware::sensor::{SETTLE_DELAY_US, TRIGGER_PULSE_US};
use robocar_hardware::{
    distance_thousandths_cm, get_input, get_output, HardwareError, RangingAction, RangingEvent,
    RangingPhase, Sensor,
};

fn run(events: &[RangingEvent]) -> (RangingPhase, RangingAction) {
    let (mut phase, mut action) = RangingPhase::start();
    for e in events {
        let (p, a) = phase.advance(*e);
        phase = p;
        action = a;
    }
    (phase, action)
}

fn echo(level: u8, at_us: u64) -> RangingEvent {
    RangingEvent::EchoLevel { level, at_us }
}

fn measurement(rise_us: u64, pulse_us: u64) -> Vec<RangingEvent> {
    let mut events = vec![RangingEvent::Completed; 5];
    events.extend([echo(0, rise_us - 3), echo(0, rise_us - 1), echo(1, rise_us)]);
    events.extend([echo(1, rise_us + 1), echo(1, rise_us + pulse_us / 2)]);
    events.push(echo(0, rise_us + pulse_us));
    events
}

fn distance_cm(elapsed_us: u64) -> f64 {
    distance_thousandths_cm(elapsed_us) as f64 / 1000.0
}

#[test]
fn protocol_actions_in_order() {
    let (phase, action) = RangingPhase::start();
    assert_eq!(phase, RangingPhase::ClearTrigger);
    assert_eq!(action, RangingAction::SetTrigger { level: 0 });
    let expected = [
        RangingAction::Sleep { micros: 500_000 },
        RangingAction::SetTrigger { level: 1 },
        RangingAction::Sleep { micros: 10 },
        RangingAction::SetTrigger { level: 0 },
        RangingAction::ReadEcho,
    ];
    let mut phase = phase;
    for want in expected {
        let (p, a) = phase.advance(RangingEvent::Completed);
        assert_eq!(a, want);
        phase = p;
    }
    assert_eq!(phase, RangingPhase::AwaitRise);
    assert_eq!(SETTLE_DELAY_US, 500_000);
    assert_eq!(TRIGGER_PULSE_US, 10);
}

#[test]
fn echo_of_588_us_is_about_ten_cm() {
    let (phase, action) = run(&measurement(1_000, 588));
    assert_eq!(phase, RangingPhase::Finished { elapsed_us: 588 });
    assert_eq!(action, RangingAction::Report { elapsed_us: 588 });
    assert_eq!(distance_thousandths_cm(588), 9_996);
    assert!((distance_cm(588) - 9.996).abs() < 1e-9);
}

#[test]
fn distance_matches_speed_of_sound_formula() {
    for d in [0u64, 1, 7, 100, 588, 12_345, 38_000] {
        let (_, action) = run(&measurement(50_000, d));
        assert_eq!(action, RangingAction::Report { elapsed_us: d });
        let formula = (0.034 * d as f64) / 2.0;
        assert!((distance_cm(d) - formula).abs() < 1e-9, "{}", d);
    }
}

#[test]
fn distance_exact_values() {
    assert_eq!(distance_thousandths_cm(0), 0);
    assert_eq!(distance_thousandths_cm(1), 17);
    assert_eq!(distance_thousandths_cm(u64::MAX), 17 * u64::MAX as u128);
}

#[test]
fn missing_echo_never_finishes() {
    let mut events = vec![RangingEvent::Completed; 5];
    for t in 0..10_000u64 {
        events.push(echo(0, t));
    }
    let (phase, action) = run(&events);
    assert_eq!(phase, RangingPhase::AwaitRise);
    assert_eq!(action, RangingAction::ReadEcho);
}

#[test]
fn line_failure_aborts_measurement() {
    let mut events = vec![RangingEvent::Completed; 2];
    events.push(RangingEvent::Failed { error: HardwareError::LineIo });
    let (phase, action) = run(&events);
    assert_eq!(phase, RangingPhase::Aborted { error: HardwareError::LineIo });
    assert_eq!(action, RangingAction::Abort { error: HardwareError::LineIo });
    // An outcome is final.
    let (p, a) = phase.advance(echo(0, 5));
    assert_eq!(p, phase);
    assert_eq!(a, action);
}

#[test]
fn finished_measurement_is_final() {
    let (phase, _) = run(&measurement(10, 20));
    let (p, a) = phase.advance(RangingEvent::Failed { error: HardwareError::LineIo });
    assert_eq!(p, RangingPhase::Finished { elapsed_us: 20 });
    assert_eq!(a, RangingAction::Report { elapsed_us: 20 });
}

#[test]
fn unrelated_event_changes_nothing() {
    let (p, a) = RangingPhase::AwaitRise.advance(RangingEvent::Completed);
    assert_eq!(p, RangingPhase::AwaitRise);
    assert_eq!(a, RangingAction::ReadEcho);
    let (p, a) = RangingPhase::Settle.advance(echo(1, 3));
    assert_eq!(p, RangingPhase::Settle);
    assert_eq!(a, RangingAction::Sleep { micros: 500_000 });
}

#[test]
fn clock_going_backwards_reports_zero() {
    let (p, _) = RangingPhase::AwaitFall { start_us: 100 }.advance(echo(0, 40));
    assert_eq!(p, RangingPhase::Finished { elapsed_us: 0 });
}

#[test]
fn acquiring_held_pin_fails() {
    match get_output(51) {
        Ok(first) => {
            assert_eq!(get_output(51).err(), Some(HardwareError::LineAcquisition));
            assert_eq!(get_input(51).err(), Some(HardwareError::LineAcquisition));
            assert_eq!(first.pin(), 51);
            assert_eq!(first.value(), 0);
        }
        Err(e) => assert_eq!(e, HardwareError::LineAcquisition),
    }
}

#[test]
fn sensor_construction_failure_is_acquisition_error() {
    if let Err(e) = Sensor::new() {
        assert_eq!(e, HardwareError::LineAcquisition);
    }
}

#[test]
fn error_messages_are_distinct() {
    let all = [HardwareError::LineAcquisition, HardwareError::LineIo, HardwareError::PwmConfig];
    for (i, a) in all.iter().enumerate() {
        assert!(!a.message().is_empty());
        for b in &all[i + 1..] {
            assert_ne!(a.message(), b.message());
        }
    }
}
