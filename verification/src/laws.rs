//! Laws of the engine: what holds of every state, port and byte sequence.
use vstd::prelude::*;
use crate::command::{decode_spec, is_framed, Action, Cmd};
use crate::effect::{
    lemma_effects_concat, lemma_total_delay_push, lemma_transmit_roundtrip, total_delay, transmit,
    transmitted, Effect,
};
use crate::engine::{feed, next, outcome, recognize, EngineState, Event, Step};
use crate::fault::FaultKind;
use crate::port::{
    action_effects, command_effects, dispatch_result, has_port, ports_after, Port, PortError,
};
use crate::protocol::{CAPACITY, CMD_CODE_STATUS, FRAME_LEN, SETTLE_DELAY_MS};
use crate::report::{ack_bytes, outcome_bytes, status_reply, status_text};
use crate::variant::Variant;

verus! {

/// The last four of the bytes `s`, if it has that many, are a frame that an
/// engine of the given variant recognises as a command.
pub open spec fn ends_in_frame(variant: Variant, s: Seq<u8>) -> bool {
    s.len() >= FRAME_LEN && recognize(variant, s.subrange(s.len() - FRAME_LEN, s.len() as int))
        is Ok
}

/// The full variant recognises exactly the valid frames: four bytes, `0x42`
/// first, `0x24` last, and an action code from 0 to 3 in the third. The
/// reduced variant recognises those of them with action code 0 or 1.
pub proof fn law_recognized_frames(window: Seq<u8>)
    ensures
        recognize(Variant::RevisionB, window) == decode_spec(window),
        recognize(Variant::RevisionB, window) is Ok <==> is_framed(window) && window[2]
            <= CMD_CODE_STATUS,
        recognize(Variant::RevisionA, window) is Ok <==> is_framed(window) && window[2] <= 1,
        recognize(Variant::RevisionA, window) is Ok ==> recognize(Variant::RevisionA, window)
            == decode_spec(window),
{
}

/// An engine dispatches a command on a byte exactly when the bytes
/// accumulated, that byte included, end in a recognised frame of four bytes.
/// Until then nothing is dispatched and, while the engine runs and has
/// room, the byte is accumulated and nothing else changes.
///
/// The decoder looks at the whole accumulation and a stopped engine looks at
/// nothing, so this holds only while the accumulation has not outgrown a
/// frame that it ends in and no fault has stopped the engine before such a
/// frame; those two cases are left out.
pub proof fn law_dispatch_iff_frame(s: EngineState, b: u8)
    requires
        !(ends_in_frame(s.variant, s.accumulated.push(b)) && (s.accumulated.push(b).len()
            > FRAME_LEN || s.fault is Some)),
    ensures
        outcome(s, Event::Byte(b)) is Dispatched <==> ends_in_frame(
            s.variant,
            s.accumulated.push(b),
        ),
        !ends_in_frame(s.variant, s.accumulated.push(b)) && s.fault is None
            && s.accumulated.len() < CAPACITY ==> {
            &&& outcome(s, Event::Byte(b)) == Step::Accumulating
            &&& next(s, Event::Byte(b)) == (EngineState {
                accumulated: s.accumulated.push(b),
                ..s
            })
        },
{
    let window = s.accumulated.push(b);
    if window.len() == FRAME_LEN {
        assert(window.subrange(window.len() - FRAME_LEN, window.len() as int) =~= window);
    }
}

/// A running engine with room resets its accumulator on a byte exactly when
/// that byte completes a recognised command; on every other byte it keeps
/// all it had and adds the byte.
pub proof fn law_reset_iff_decoded(s: EngineState, b: u8)
    requires
        s.fault is None,
        s.accumulated.len() < CAPACITY,
    ensures
        recognize(s.variant, s.accumulated.push(b)) is Ok <==> next(
            s,
            Event::Byte(b),
        ).accumulated == Seq::<u8>::empty(),
        recognize(s.variant, s.accumulated.push(b)) is Err ==> next(
            s,
            Event::Byte(b),
        ).accumulated == s.accumulated.push(b),
{
    assert(s.accumulated.push(b).len() > 0);
}

/// Bytes that never complete a recognised command are all accumulated, in
/// order, and change nothing else, as long as they fit.
pub proof fn law_accumulates_without_frame(s: EngineState, bytes: Seq<u8>)
    requires
        s.fault is None,
        s.accumulated.len() + bytes.len() <= CAPACITY,
        forall|k: int|
            0 < k <= bytes.len() ==> recognize(
                s.variant,
                #[trigger] (s.accumulated + bytes.subrange(0, k)),
            ) is Err,
    ensures
        feed(s, bytes) == (EngineState { accumulated: s.accumulated + bytes, ..s }),
    decreases bytes.len(),
{
    if bytes.len() == 0 {
        assert(s.accumulated + bytes =~= s.accumulated);
    } else {
        let front = bytes.drop_last();
        assert forall|k: int| 0 < k <= front.len() implies recognize(
            s.variant,
            #[trigger] (s.accumulated + front.subrange(0, k)),
        ) is Err by {
            assert(front.subrange(0, k) =~= bytes.subrange(0, k));
        }
        law_accumulates_without_frame(s, front);
        assert(bytes.subrange(0, bytes.len() as int) =~= bytes);
        assert((s.accumulated + front).push(bytes.last()) =~= s.accumulated + bytes);
        assert(recognize(s.variant, s.accumulated + bytes.subrange(0, bytes.len() as int)) is Err);
    }
}

/// Delivering bytes in two batches is delivering them all in order: the
/// engine has no memory but its state.
pub proof fn law_feed_in_order(s: EngineState, first: Seq<u8>, second: Seq<u8>)
    ensures
        feed(s, first + second) == feed(feed(s, first), second),
    decreases second.len(),
{
    if second.len() == 0 {
        assert(first + second =~= first);
    } else {
        law_feed_in_order(s, first, second.drop_last());
        assert((first + second).drop_last() =~= first + second.drop_last());
        assert((first + second).last() == second.last());
    }
}

/// On a fresh accumulator only the first four bytes can ever be a command:
/// no shorter and no longer prefix of what arrives is recognised.
pub proof fn law_only_first_frame_counts(variant: Variant, bytes: Seq<u8>, k: int)
    requires
        0 <= k <= bytes.len(),
        k != FRAME_LEN,
    ensures
        recognize(variant, bytes.subrange(0, k)) is Err,
{
}

/// When the first four of 128 bytes given to a running engine with an empty
/// accumulator are no recognised command, all 128 are accumulated, nothing is
/// dispatched, and the byte after them stops the engine with
/// `BufferExhausted`.
pub proof fn law_exhaustion_faults(s: EngineState, bytes: Seq<u8>, extra: u8)
    requires
        s.fault is None,
        s.accumulated.len() == 0,
        bytes.len() == CAPACITY,
        recognize(s.variant, bytes.subrange(0, FRAME_LEN as int)) is Err,
    ensures
        feed(s, bytes) == (EngineState { accumulated: bytes, ..s }),
        outcome(feed(s, bytes), Event::Byte(extra)) == Step::Fault(FaultKind::BufferExhausted),
        next(feed(s, bytes), Event::Byte(extra)) == (EngineState {
            accumulated: bytes,
            fault: Some(FaultKind::BufferExhausted),
            ..s
        }),
{
    assert forall|k: int| 0 < k <= bytes.len() implies recognize(
        s.variant,
        #[trigger] (s.accumulated + bytes.subrange(0, k)),
    ) is Err by {
        assert(s.accumulated + bytes.subrange(0, k) =~= bytes.subrange(0, k));
        if k != FRAME_LEN {
            law_only_first_frame_counts(s.variant, bytes, k);
        }
    }
    law_accumulates_without_frame(s, bytes);
    assert(s.accumulated + bytes =~= bytes);
}

/// A stopped engine stays stopped: whatever arrives, it reports the fault
/// that stopped it and changes nothing.
pub proof fn law_fault_is_final(s: EngineState, event: Event)
    requires
        s.fault is Some,
    ensures
        outcome(s, event) == Step::Fault(s.fault->Some_0),
        next(s, event) == s,
{
}

/// A read error stops a running engine with `SerialFault`, whatever it had
/// accumulated.
pub proof fn law_serial_fault_stops(s: EngineState)
    requires
        s.fault is None,
    ensures
        outcome(s, Event::SerialFault) == Step::Fault(FaultKind::SerialFault),
        next(s, Event::SerialFault) == (EngineState {
            fault: Some(FaultKind::SerialFault),
            ..s
        }),
{
}

/// Switching a port off twice in a row succeeds both times and leaves the
/// port deasserted both times; the second time changes no port.
pub proof fn law_off_is_idempotent(ports: Seq<Port>, port: u8)
    requires
        has_port(ports, port),
    ensures
        ({
            let off = Cmd { action: Action::Off, port };
            let once = ports_after(ports, off);
            let twice = ports_after(once, off);
            &&& dispatch_result(ports, off) is Ok
            &&& dispatch_result(once, off) is Ok
            &&& !once[port as int].asserted
            &&& !twice[port as int].asserted
            &&& twice == once
        }),
{
    let off = Cmd { action: Action::Off, port };
    let once = ports_after(ports, off);
    assert(ports_after(once, off) =~= once);
}

/// A status query after switching the same port on answers with the payload
/// `on`, and after switching it off with the payload `off`; the query itself
/// changes no port.
pub proof fn law_status_round_trip(ports: Seq<Port>, port: u8)
    requires
        has_port(ports, port),
    ensures
        ({
            let status = Cmd { action: Action::Status, port };
            let on = ports_after(ports, Cmd { action: Action::On, port });
            let off = ports_after(ports, Cmd { action: Action::Off, port });
            &&& dispatch_result(on, status) is Ok
            &&& dispatch_result(off, status) is Ok
            &&& transmitted(action_effects(on, status)) == status_reply("on"@)
            &&& transmitted(action_effects(off, status)) == status_reply("off"@)
            &&& ports_after(on, status) == on
            &&& ports_after(off, status) == off
        }),
{
    lemma_transmit_roundtrip(status_reply("on"@));
    lemma_transmit_roundtrip(status_reply("off"@));
}

/// A status query reports the state that the port is in: the reply carries
/// `on` exactly when the port is asserted.
pub proof fn law_status_reports_state(ports: Seq<Port>, port: u8)
    requires
        has_port(ports, port),
    ensures
        transmitted(action_effects(ports, Cmd { action: Action::Status, port })) == status_reply(
            status_text(ports[port as int].asserted),
        ),
        total_delay(action_effects(ports, Cmd { action: Action::Status, port })) == 0,
{
    lemma_transmit_roundtrip(status_reply(status_text(ports[port as int].asserted)));
}

/// Rebooting a port asserts it first, holds it for the settle delay, and
/// then deasserts it, touching no other port. Served as a command, the
/// echo and the settle delay come before, the report of success after, and
/// the delays add up to twice the settle delay.
pub proof fn law_reboot_pulse(ports: Seq<Port>, port: u8)
    requires
        has_port(ports, port),
    ensures
        ({
            let reboot = Cmd { action: Action::Reboot, port };
            &&& dispatch_result(ports, reboot) is Ok
            &&& action_effects(ports, reboot) == seq![
                Effect::AssertPort(port),
                Effect::Delay(SETTLE_DELAY_MS),
                Effect::DeassertPort(port),
            ]
            &&& command_effects(ports, reboot) == transmit(ack_bytes(Action::Reboot)) + seq![
                Effect::Delay(SETTLE_DELAY_MS),
                Effect::AssertPort(port),
                Effect::Delay(SETTLE_DELAY_MS),
                Effect::DeassertPort(port),
            ] + transmit(outcome_bytes(true))
            &&& total_delay(command_effects(ports, reboot)) == 2 * SETTLE_DELAY_MS
            &&& ports_after(ports, reboot) == ports.update(port as int, Port { asserted: false })
        }),
{
    let reboot = Cmd { action: Action::Reboot, port };
    let ack = transmit(ack_bytes(Action::Reboot));
    let done = transmit(outcome_bytes(true));
    let pulse = seq![
        Effect::Delay(SETTLE_DELAY_MS),
        Effect::AssertPort(port),
        Effect::Delay(SETTLE_DELAY_MS),
        Effect::DeassertPort(port),
    ];
    assert(command_effects(ports, reboot) =~= ack + pulse + done);
    lemma_effects_concat(ack + pulse, done);
    lemma_effects_concat(ack, pulse);
    lemma_transmit_roundtrip(ack_bytes(Action::Reboot));
    lemma_transmit_roundtrip(outcome_bytes(true));
    lemma_pulse_delay(port);
}

proof fn lemma_pulse_delay(port: u8)
    ensures
        total_delay(
            seq![
                Effect::Delay(SETTLE_DELAY_MS),
                Effect::AssertPort(port),
                Effect::Delay(SETTLE_DELAY_MS),
                Effect::DeassertPort(port),
            ],
        ) == 2 * SETTLE_DELAY_MS,
{
    let none = Seq::<Effect>::empty();
    let settled = none.push(Effect::Delay(SETTLE_DELAY_MS));
    let asserted = settled.push(Effect::AssertPort(port));
    let held = asserted.push(Effect::Delay(SETTLE_DELAY_MS));
    let released = held.push(Effect::DeassertPort(port));
    lemma_total_delay_push(none, Effect::Delay(SETTLE_DELAY_MS));
    lemma_total_delay_push(settled, Effect::AssertPort(port));
    lemma_total_delay_push(asserted, Effect::Delay(SETTLE_DELAY_MS));
    lemma_total_delay_push(held, Effect::DeassertPort(port));
    assert(released =~= seq![
        Effect::Delay(SETTLE_DELAY_MS),
        Effect::AssertPort(port),
        Effect::Delay(SETTLE_DELAY_MS),
        Effect::DeassertPort(port),
    ]);
}

/// A command for a port that the device does not have fails with
/// `InvalidPort` and changes no port. Served as a command, it is echoed,
/// the settle delay passes, `failed!` is reported, and no pin is driven.
pub proof fn law_invalid_port_changes_nothing(ports: Seq<Port>, cmd: Cmd)
    requires
        !has_port(ports, cmd.port),
    ensures
        dispatch_result(ports, cmd) == Err::<(), PortError>(PortError::InvalidPort),
        ports_after(ports, cmd) == ports,
        action_effects(ports, cmd) == Seq::<Effect>::empty(),
        command_effects(ports, cmd) == transmit(ack_bytes(cmd.action)) + seq![
            Effect::Delay(SETTLE_DELAY_MS),
        ] + transmit(outcome_bytes(false)),
        forall|i: int|
            0 <= i < command_effects(ports, cmd).len() ==> !(#[trigger] command_effects(
                ports,
                cmd,
            )[i] is AssertPort) && !(command_effects(ports, cmd)[i] is DeassertPort),
{
    assert(command_effects(ports, cmd) =~= transmit(ack_bytes(cmd.action)) + seq![
        Effect::Delay(SETTLE_DELAY_MS),
    ] + transmit(outcome_bytes(false)));
}

/// Every command that names a port of the device succeeds, and every served
/// command takes at least the settle delay.
pub proof fn law_valid_port_succeeds(ports: Seq<Port>, cmd: Cmd)
    ensures
        dispatch_result(ports, cmd) is Ok <==> has_port(ports, cmd.port),
        ports_after(ports, cmd).len() == ports.len(),
        total_delay(command_effects(ports, cmd)) >= SETTLE_DELAY_MS,
{
    let ack = transmit(ack_bytes(cmd.action));
    let wait = seq![Effect::Delay(SETTLE_DELAY_MS)];
    let act = action_effects(ports, cmd);
    let done = transmit(outcome_bytes(has_port(ports, cmd.port)));
    lemma_effects_concat(ack + wait + act, done);
    lemma_effects_concat(ack + wait, act);
    lemma_effects_concat(ack, wait);
    lemma_total_delay_push(Seq::<Effect>::empty(), Effect::Delay(SETTLE_DELAY_MS));
    assert(wait =~= Seq::<Effect>::empty().push(Effect::Delay(SETTLE_DELAY_MS)));
}

} // verus!
