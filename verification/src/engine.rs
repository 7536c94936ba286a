//! The control loop as a state machine: one event in, one step out.
//!
//! The firmware shell blocks on the serial channel, hands each byte (or the
//! read error) to [`Engine::step`], carries out the effects that the step
//! queued, and enters the fault path when the step reports a fault.
use vstd::prelude::*;
use crate::command::{decode_spec, Cmd, DecodeError};
use crate::effect::Effect;
use crate::fault::{FaultKind, FaultPath};
use crate::frame::Cmdbuf;
use crate::port::{command_effects, dispatch_result, ports_after, Port, PortError, PortManager};
use crate::protocol::CAPACITY;
use crate::variant::Variant;

verus! {

/// What the serial channel delivered.
#[derive(Clone, Copy, Debug, PartialEq, Eq, Structural)]
pub enum Event {
    /// A byte from the host.
    Byte(u8),
    /// A read error.
    SerialFault,
}

/// What the engine did with an event.
#[derive(Clone, Copy, Debug, PartialEq, Eq)]
pub enum Step {
    /// The byte was accumulated; no command is complete yet.
    Accumulating,
    /// The byte completed a command, which was served with this result.
    Dispatched { cmd: Cmd, result: Result<(), PortError> },
    /// The engine cannot go on; nothing but a reset recovers it.
    Fault(FaultKind),
}

/// The state of the engine as a mathematical value.
pub struct EngineState {
    /// The variant the engine runs as.
    pub variant: Variant,
    /// The bytes accumulated since the last served command.
    pub accumulated: Seq<u8>,
    /// The ports, in index order.
    pub ports: Seq<Port>,
    /// The effects queued and not yet handed over.
    pub pending: Seq<Effect>,
    /// The fault that stopped the engine, if one did.
    pub fault: Option<FaultKind>,
}

/// The meaning of a byte window to an engine of the given variant: what the
/// decoder makes of it, except that an action the variant does not know is
/// an unknown action.
pub open spec fn recognize(variant: Variant, window: Seq<u8>) -> Result<Cmd, DecodeError> {
    match decode_spec(window) {
        Ok(cmd) => if variant.supports_action(cmd.action) {
            Ok(cmd)
        } else {
            Err(DecodeError::UnknownAction)
        },
        Err(e) => Err(e),
    }
}

/// What the engine answers to an event in a given state.
pub open spec fn outcome(s: EngineState, event: Event) -> Step {
    match s.fault {
        Some(kind) => Step::Fault(kind),
        None => match event {
            Event::SerialFault => Step::Fault(FaultKind::SerialFault),
            Event::Byte(b) => if s.accumulated.len() >= CAPACITY {
                Step::Fault(FaultKind::BufferExhausted)
            } else {
                match recognize(s.variant, s.accumulated.push(b)) {
                    Ok(cmd) => Step::Dispatched { cmd, result: dispatch_result(s.ports, cmd) },
                    Err(_) => Step::Accumulating,
                }
            },
        },
    }
}

/// The state that follows a given state on an event.
pub open spec fn next(s: EngineState, event: Event) -> EngineState {
    match outcome(s, event) {
        Step::Fault(kind) => EngineState { fault: Some(kind), ..s },
        Step::Accumulating => EngineState {
            accumulated: s.accumulated.push(event->Byte_0),
            ..s
        },
        Step::Dispatched { cmd, result } => EngineState {
            accumulated: Seq::empty(),
            ports: ports_after(s.ports, cmd),
            pending: s.pending + command_effects(s.ports, cmd),
            ..s
        },
    }
}

/// The state reached from a given state when the serial channel delivers
/// the given bytes one at a time.
pub open spec fn feed(s: EngineState, bytes: Seq<u8>) -> EngineState
    decreases bytes.len(),
{
    if bytes.len() == 0 {
        s
    } else {
        next(feed(s, bytes.drop_last()), Event::Byte(bytes.last()))
    }
}

/// The control engine: frame accumulator, device state and fault latch.
pub struct Engine {
    variant: Variant,
    cmdbuf: Cmdbuf,
    ports: PortManager,
    fault: Option<FaultKind>,
}

impl View for Engine {
    type V = EngineState;

    closed spec fn view(&self) -> EngineState {
        EngineState {
            variant: self.variant,
            accumulated: self.cmdbuf@,
            ports: self.ports.ports(),
            pending: self.ports.pending(),
            fault: self.fault,
        }
    }
}

impl Engine {
    /// An engine of the given variant over the given device state, with
    /// nothing accumulated and no fault.
    pub fn new(variant: Variant, ports: PortManager) -> (r: Self)
        ensures
            r@ == (EngineState {
                variant,
                accumulated: Seq::empty(),
                ports: ports.ports(),
                pending: ports.pending(),
                fault: None,
            }),
    {
        Engine { variant, cmdbuf: Cmdbuf::new(), ports, fault: None }
    }

    /// Takes one event from the serial channel. A byte is accumulated and,
    /// if it completes a command, the command is served and the accumulator
    /// reset. A read error or a byte that finds the accumulator full stops
    /// the engine for good.
    pub fn step(&mut self, event: Event) -> (r: Step)
        ensures
            r == outcome(old(self)@, event),
            final(self)@ == next(old(self)@, event),
            old(self)@.accumulated.len() <= CAPACITY,
            final(self)@.accumulated.len() <= CAPACITY,
    {
        proof {
            use_type_invariant(&self.cmdbuf);
            self.cmdbuf.lemma_within_capacity();
        }
        if let Some(kind) = self.fault {
            return Step::Fault(kind);
        }
        match event {
            Event::SerialFault => {
                self.fault = Some(FaultKind::SerialFault);
                Step::Fault(FaultKind::SerialFault)
            },
            Event::Byte(b) => {
                match self.cmdbuf.append(b) {
                    Err(_) => {
                        self.fault = Some(FaultKind::BufferExhausted);
                        Step::Fault(FaultKind::BufferExhausted)
                    },
                    Ok(()) => {
                        match Cmd::from_cmdbuf(&self.cmdbuf) {
                            Ok(cmd) => {
                                if self.variant.supports(cmd.action) {
                                    let result: Result<(), PortError> = self.ports.execute(&cmd);
                                    self.cmdbuf.reset();
                                    Step::Dispatched { cmd, result }
                                } else {
                                    Step::Accumulating
                                }
                            },
                            Err(_) => Step::Accumulating,
                        }
                    },
                }
            },
        }
    }

    /// Hands over the effects queued so far, oldest first, leaving none
    /// queued. Nothing else changes.
    pub fn take_effects(&mut self) -> (r: Vec<Effect>)
        ensures
            r@ == old(self)@.pending,
            final(self)@ == (EngineState { pending: Seq::empty(), ..old(self)@ }),
    {
        self.ports.take_effects()
    }

    /// The state of the port with the given index, if the device has it.
    pub fn port(&self, index: u8) -> (r: Option<Port>)
        ensures
            index < self@.ports.len() ==> r == Some(self@.ports[index as int]),
            index >= self@.ports.len() ==> r is None,
    {
        self.ports.port(index)
    }

    /// The bytes accumulated since the last served command.
    pub fn accumulated(&self) -> (r: &[u8])
        ensures
            r@ == self@.accumulated,
            r@.len() <= CAPACITY,
    {
        self.cmdbuf.get()
    }

    /// The variant the engine runs as.
    pub fn variant(&self) -> (r: Variant)
        ensures
            r == self@.variant,
    {
        self.variant
    }

    /// The fault that stopped the engine, if one did.
    pub fn fault(&self) -> (r: Option<FaultKind>)
        ensures
            r == self@.fault,
    {
        self.fault
    }

    /// The fault path to run now: one at the start of its script if the
    /// engine has stopped on a fault and its variant has a fault path, and
    /// none otherwise.
    pub fn fault_path(&self) -> (r: Option<FaultPath>)
        ensures
            r is Some <==> self@.fault is Some && self@.variant.runs_fault_path(),
            r is Some ==> r->Some_0.position() == 0,
    {
        if self.fault.is_some() && self.variant.has_fault_path() {
            Some(FaultPath::new())
        } else {
            None
        }
    }
}

} // verus!
