use power_switch::command::{Action, Cmd};
use power_switch::effect::Effect;
use power_switch::engine::{Engine, Event, Step};
use power_switch::fault::{
    FaultAction, FaultKind, FaultPath, BLINK_MS, FAULT_BLINKS, WATCHDOG_ARM, WATCHDOG_UNLOCK,
};
use power_switch::port::{Port, PortError, PortManager};
use power_switch::variant::Variant;

fn sent(bytes: &[u8]) -> Vec<Effect> {
    bytes.iter().map(|b| Effect::Transmit(*b)).collect()
}

fn bytes_of(effects: &[Effect]) -> Vec<u8> {
    let mut out = Vec::new();
    for e in effects {
        if let Effect::Transmit(b) = e {
            out.push(*b);
        }
    }
    out
}

fn full_engine(a: bool, b: bool) -> Engine {
    Engine::new(Variant::RevisionB, PortManager::new(Port::new(a), Port::new(b)))
}

fn reduced_engine(a: bool) -> Engine {
    Engine::new(Variant::RevisionA, PortManager::with_ports(vec![Port::new(a)]))
}

fn feed(engine: &mut Engine, bytes: &[u8]) -> Vec<Step> {
    bytes.iter().map(|b| engine.step(Event::Byte(*b))).collect()
}

#[test]
fn new_engine_is_idle() {
    let mut en = full_engine(true, false);
    assert_eq!(en.variant(), Variant::RevisionB);
    assert_eq!(en.accumulated(), &[] as &[u8]);
    assert_eq!(en.fault(), None);
    assert!(en.fault_path().is_none());
    assert_eq!(en.port(0), Some(Port { asserted: true }));
    assert_eq!(en.port(1), Some(Port { asserted: false }));
    assert_eq!(en.port(2), None);
    assert_eq!(en.take_effects(), vec![]);
}

#[test]
fn on_frame_on_fresh_buffer_asserts_port_and_acknowledges() {
    let mut en = full_engine(false, false);
    let steps = feed(&mut en, &[0x42, 0x00, 0x01, 0x24]);
    assert_eq!(
        steps,
        vec![
            Step::Accumulating,
            Step::Accumulating,
            Step::Accumulating,
            Step::Dispatched { cmd: Cmd { action: Action::On, port: 0 }, result: Ok(()) },
        ]
    );
    assert_eq!(en.port(0), Some(Port { asserted: true }));
    assert_eq!(en.port(1), Some(Port { asserted: false }));
    let mut expected = sent(b"Cmd received: On\r\n");
    expected.push(Effect::Delay(5000));
    expected.push(Effect::AssertPort(0));
    expected.extend(sent(b"    succeeded!\r\n"));
    assert_eq!(en.take_effects(), expected);
    assert_eq!(en.accumulated(), &[] as &[u8]);
}

#[test]
fn status_frame_with_port_asserted_replies_on() {
    let mut en = full_engine(false, false);
    feed(&mut en, &[0x42, 0x00, 0x01, 0x24]);
    en.take_effects();
    let steps = feed(&mut en, &[0x42, 0x00, 0x03, 0x24]);
    assert_eq!(
        steps[3],
        Step::Dispatched { cmd: Cmd { action: Action::Status, port: 0 }, result: Ok(()) }
    );
    let effects = en.take_effects();
    let mut expected = sent(b"Cmd received: Status\r\n");
    expected.push(Effect::Delay(5000));
    expected.extend(sent(&[0x32, b'o', b'n', 0x23, b'\r', b'\n']));
    expected.extend(sent(b"    succeeded!\r\n"));
    assert_eq!(effects, expected);
    let wire = bytes_of(&effects);
    assert_eq!(&wire[22..28], &[0x32, b'o', b'n', 0x23, b'\r', b'\n']);
}

#[test]
fn nothing_is_dispatched_before_the_frame_is_complete() {
    let mut en = full_engine(false, false);
    for (i, b) in [0x42u8, 0x01, 0x01].iter().enumerate() {
        assert_eq!(en.step(Event::Byte(*b)), Step::Accumulating);
        assert_eq!(en.accumulated().len(), i + 1);
        assert_eq!(en.take_effects(), vec![]);
        assert_eq!(en.port(1), Some(Port { asserted: false }));
    }
    assert_eq!(en.accumulated(), &[0x42u8, 0x01, 0x01]);
}

#[test]
fn buffer_is_reset_once_per_decoded_command_only() {
    let mut en = full_engine(false, false);
    feed(&mut en, &[0x42, 0x00, 0x01]);
    assert_eq!(en.accumulated().len(), 3);
    en.step(Event::Byte(0x24));
    assert_eq!(en.accumulated().len(), 0);
    let steps = feed(&mut en, &[0x42, 0x01, 0x00, 0x24]);
    assert_eq!(
        steps[3],
        Step::Dispatched { cmd: Cmd { action: Action::Off, port: 1 }, result: Ok(()) }
    );
    assert_eq!(en.accumulated().len(), 0);
    let steps = feed(&mut en, &[0x42, 0x01, 0x09, 0x24]);
    assert_eq!(steps[3], Step::Accumulating);
    assert_eq!(en.accumulated(), &[0x42u8, 0x01, 0x09, 0x24]);
}

#[test]
fn unknown_action_keeps_accumulating() {
    let mut en = full_engine(false, false);
    let steps = feed(&mut en, &[0x42, 0x00, 0x04, 0x24, 0x42, 0x00, 0x01, 0x24]);
    assert!(steps.iter().all(|s| *s == Step::Accumulating));
    assert_eq!(en.accumulated().len(), 8);
    assert_eq!(en.take_effects(), vec![]);
    assert_eq!(en.port(0), Some(Port { asserted: false }));
}

#[test]
fn a_frame_behind_noise_is_not_found() {
    let mut en = full_engine(false, false);
    let steps = feed(&mut en, &[0x00, 0x42, 0x00, 0x01, 0x24]);
    assert!(steps.iter().all(|s| *s == Step::Accumulating));
    assert_eq!(en.accumulated(), &[0x00u8, 0x42, 0x00, 0x01, 0x24]);
    assert_eq!(en.port(0), Some(Port { asserted: false }));
}

#[test]
fn commands_are_served_in_arrival_order() {
    let mut en = full_engine(false, false);
    let steps = feed(
        &mut en,
        &[0x42, 0x00, 0x01, 0x24, 0x42, 0x01, 0x01, 0x24, 0x42, 0x00, 0x00, 0x24],
    );
    let served: Vec<Step> =
        steps.into_iter().filter(|s| matches!(s, Step::Dispatched { .. })).collect();
    assert_eq!(
        served,
        vec![
            Step::Dispatched { cmd: Cmd { action: Action::On, port: 0 }, result: Ok(()) },
            Step::Dispatched { cmd: Cmd { action: Action::On, port: 1 }, result: Ok(()) },
            Step::Dispatched { cmd: Cmd { action: Action::Off, port: 0 }, result: Ok(()) },
        ]
    );
    assert_eq!(en.port(0), Some(Port { asserted: false }));
    assert_eq!(en.port(1), Some(Port { asserted: true }));
    let drives: Vec<Effect> = en
        .take_effects()
        .into_iter()
        .filter(|e| matches!(e, Effect::AssertPort(_) | Effect::DeassertPort(_)))
        .collect();
    assert_eq!(
        drives,
        vec![Effect::AssertPort(0), Effect::AssertPort(1), Effect::DeassertPort(0)]
    );
}

#[test]
fn out_of_range_port_is_reported_as_failed() {
    let mut en = full_engine(true, true);
    let steps = feed(&mut en, &[0x42, 0x02, 0x00, 0x24]);
    assert_eq!(
        steps[3],
        Step::Dispatched {
            cmd: Cmd { action: Action::Off, port: 2 },
            result: Err(PortError::InvalidPort),
        }
    );
    let mut expected = sent(b"Cmd received: Off\r\n");
    expected.push(Effect::Delay(5000));
    expected.extend(sent(b"    failed!\r\n"));
    assert_eq!(en.take_effects(), expected);
    assert_eq!(en.port(0), Some(Port { asserted: true }));
    assert_eq!(en.port(1), Some(Port { asserted: true }));
    assert_eq!(en.accumulated(), &[] as &[u8]);
    assert_eq!(en.fault(), None);
}

#[test]
fn reboot_frame_pulses_the_port() {
    let mut en = full_engine(false, false);
    let steps = feed(&mut en, &[0x42, 0x01, 0x02, 0x24]);
    assert_eq!(
        steps[3],
        Step::Dispatched { cmd: Cmd { action: Action::Reboot, port: 1 }, result: Ok(()) }
    );
    let effects = en.take_effects();
    let rest: Vec<Effect> =
        effects.iter().filter(|e| !matches!(e, Effect::Transmit(_))).cloned().collect();
    assert_eq!(
        rest,
        vec![
            Effect::Delay(5000),
            Effect::AssertPort(1),
            Effect::Delay(5000),
            Effect::DeassertPort(1),
        ]
    );
    assert_eq!(bytes_of(&effects), b"Cmd received: Reboot\r\n    succeeded!\r\n".to_vec());
    assert_eq!(en.port(1), Some(Port { asserted: false }));
}

#[test]
fn byte_129_without_a_frame_faults() {
    let mut en = full_engine(false, false);
    for i in 0..128u32 {
        assert_eq!(en.step(Event::Byte(0x55)), Step::Accumulating, "byte {}", i + 1);
    }
    assert_eq!(en.accumulated().len(), 128);
    assert_eq!(en.fault(), None);
    assert!(en.fault_path().is_none());
    assert_eq!(en.step(Event::Byte(0x55)), Step::Fault(FaultKind::BufferExhausted));
    assert_eq!(en.fault(), Some(FaultKind::BufferExhausted));
    assert_eq!(en.accumulated().len(), 128);
    assert!(en.fault_path().is_some());
    assert_eq!(en.take_effects(), vec![]);
}

#[test]
fn frames_inside_a_desynchronised_stream_do_not_prevent_the_fault() {
    let mut en = full_engine(false, false);
    assert_eq!(en.step(Event::Byte(0x00)), Step::Accumulating);
    let mut count = 1;
    while count + 4 <= 128 {
        let steps = feed(&mut en, &[0x42, 0x00, 0x01, 0x24]);
        assert!(steps.iter().all(|s| *s == Step::Accumulating));
        count += 4;
    }
    while count < 128 {
        assert_eq!(en.step(Event::Byte(0x42)), Step::Accumulating);
        count += 1;
    }
    assert_eq!(en.step(Event::Byte(0x24)), Step::Fault(FaultKind::BufferExhausted));
    assert_eq!(en.port(0), Some(Port { asserted: false }));
}

#[test]
fn serial_fault_stops_the_engine() {
    let mut en = full_engine(false, false);
    feed(&mut en, &[0x42, 0x00]);
    assert_eq!(en.step(Event::SerialFault), Step::Fault(FaultKind::SerialFault));
    assert_eq!(en.fault(), Some(FaultKind::SerialFault));
    assert_eq!(en.accumulated(), &[0x42u8, 0x00]);
    assert!(en.fault_path().is_some());
}

#[test]
fn a_stopped_engine_ignores_everything() {
    let mut en = full_engine(false, false);
    feed(&mut en, &[0x42, 0x00, 0x01]);
    assert_eq!(en.step(Event::SerialFault), Step::Fault(FaultKind::SerialFault));
    assert_eq!(en.step(Event::Byte(0x24)), Step::Fault(FaultKind::SerialFault));
    assert_eq!(en.step(Event::SerialFault), Step::Fault(FaultKind::SerialFault));
    assert_eq!(en.accumulated(), &[0x42u8, 0x00, 0x01]);
    assert_eq!(en.port(0), Some(Port { asserted: false }));
    assert_eq!(en.take_effects(), vec![]);

    let mut full = full_engine(false, false);
    for _ in 0..129 {
        full.step(Event::Byte(0));
    }
    assert_eq!(full.step(Event::SerialFault), Step::Fault(FaultKind::BufferExhausted));
    assert_eq!(full.step(Event::Byte(1)), Step::Fault(FaultKind::BufferExhausted));
}

#[test]
fn reduced_variant_knows_only_on_and_off() {
    assert!(Variant::RevisionA.supports(Action::On));
    assert!(Variant::RevisionA.supports(Action::Off));
    assert!(!Variant::RevisionA.supports(Action::Reboot));
    assert!(!Variant::RevisionA.supports(Action::Status));
    for action in [Action::On, Action::Off, Action::Reboot, Action::Status] {
        assert!(Variant::RevisionB.supports(action));
    }
    assert_eq!(Variant::RevisionA.port_count(), 1);
    assert_eq!(Variant::RevisionB.port_count(), 2);
    assert!(!Variant::RevisionA.has_fault_path());
    assert!(Variant::RevisionB.has_fault_path());
}

#[test]
fn reduced_variant_switches_its_single_port() {
    let mut en = reduced_engine(false);
    let steps = feed(&mut en, &[0x42, 0x00, 0x01, 0x24]);
    assert_eq!(
        steps[3],
        Step::Dispatched { cmd: Cmd { action: Action::On, port: 0 }, result: Ok(()) }
    );
    assert_eq!(en.port(0), Some(Port { asserted: true }));
    let steps = feed(&mut en, &[0x42, 0x01, 0x01, 0x24]);
    assert_eq!(
        steps[3],
        Step::Dispatched {
            cmd: Cmd { action: Action::On, port: 1 },
            result: Err(PortError::InvalidPort),
        }
    );
    assert_eq!(en.port(0), Some(Port { asserted: true }));
}

#[test]
fn reduced_variant_treats_reboot_and_status_as_unknown() {
    for code in [2u8, 3] {
        let mut en = reduced_engine(true);
        let steps = feed(&mut en, &[0x42, 0x00, code, 0x24]);
        assert!(steps.iter().all(|s| *s == Step::Accumulating));
        assert_eq!(en.accumulated(), &[0x42u8, 0x00, code, 0x24]);
        assert_eq!(en.take_effects(), vec![]);
        assert_eq!(en.port(0), Some(Port { asserted: true }));
    }
}

#[test]
fn reduced_variant_has_no_fault_path() {
    let mut en = reduced_engine(false);
    assert_eq!(en.step(Event::SerialFault), Step::Fault(FaultKind::SerialFault));
    assert_eq!(en.fault(), Some(FaultKind::SerialFault));
    assert!(en.fault_path().is_none());
}

#[test]
fn fault_script_opens_blinks_ten_times_and_arms_the_watchdog() {
    assert_eq!(FAULT_BLINKS, 10);
    assert_eq!(BLINK_MS, 100);
    assert_eq!(WATCHDOG_UNLOCK, 0x18);
    assert_eq!(WATCHDOG_ARM, 0x08);
    let mut path = FaultPath::new();
    assert_eq!(path.next(), FaultAction::DisableInterrupts);
    assert_eq!(path.next(), FaultAction::SeizeHardware);
    for _ in 0..10 {
        assert_eq!(path.next(), FaultAction::IndicatorOn);
        assert_eq!(path.next(), FaultAction::Wait(100));
        assert_eq!(path.next(), FaultAction::IndicatorOff);
        assert_eq!(path.next(), FaultAction::Wait(100));
    }
    assert_eq!(path.next(), FaultAction::WatchdogControl(0x18));
    assert_eq!(path.next(), FaultAction::WatchdogControl(0x08));
}

#[test]
fn fault_script_blinks_forever_once_armed() {
    let mut path = FaultPath::new();
    for _ in 0..44 {
        path.next();
    }
    for _ in 0..1000 {
        assert_eq!(path.next(), FaultAction::IndicatorOn);
        assert_eq!(path.next(), FaultAction::Wait(100));
        assert_eq!(path.next(), FaultAction::IndicatorOff);
        assert_eq!(path.next(), FaultAction::Wait(100));
    }
}

#[test]
fn fault_path_from_a_faulted_engine_starts_at_the_beginning() {
    let mut en = full_engine(false, false);
    en.step(Event::SerialFault);
    let mut path = en.fault_path().unwrap();
    assert_eq!(path.next(), FaultAction::DisableInterrupts);
    assert_eq!(path.next(), FaultAction::SeizeHardware);
    assert_eq!(path.next(), FaultAction::IndicatorOn);
}
