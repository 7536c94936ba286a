//! Ports and the dispatcher that carries commands out on them.
use vstd::prelude::*;
use vstd::utf8::encode_utf8;
use crate::command::{action_name, Action, Cmd};
use crate::effect::{lemma_transmit_concat, transmit, Effect};
use crate::protocol::{SETTLE_DELAY_MS, STATUS_MAGIC_END, STATUS_MAGIC_START};
use crate::report::{
    ack_bytes, char_bytes, lemma_char_bytes, line_bytes, outcome_bytes, status_reply, status_str,
    status_text, LINE_FEED,
};

verus! {

/// The state of one output port. A port is asserted when its pin is driven
/// to logical low, which switches the attached load on.
#[derive(Clone, Copy, Debug, PartialEq, Eq, Structural)]
pub struct Port {
    pub asserted: bool,
}

impl Port {
    /// A port in the given state.
    pub fn new(asserted: bool) -> (r: Self)
        ensures
            r.asserted == asserted,
    {
        Port { asserted }
    }

    /// Drives the port to logical low, asserting it.
    pub fn set_low(&mut self)
        ensures
            final(self).asserted,
    {
        self.asserted = true;
    }

    /// Drives the port to logical high, deasserting it.
    pub fn set_high(&mut self)
        ensures
            !final(self).asserted,
    {
        self.asserted = false;
    }

    /// Whether the port is driven to logical low.
    pub fn is_set_low(&self) -> (r: bool)
        ensures
            r == self.asserted,
    {
        self.asserted
    }
}

/// Why a command could not be carried out.
#[derive(Clone, Copy, Debug, PartialEq, Eq, Structural)]
pub enum PortError {
    /// The command names a port that the device does not have.
    InvalidPort,
}

/// The device has a port with this index.
pub open spec fn has_port(ports: Seq<Port>, index: u8) -> bool {
    (index as int) < ports.len()
}

/// Whether a command can be carried out on the given ports.
pub open spec fn dispatch_result(ports: Seq<Port>, cmd: Cmd) -> Result<(), PortError> {
    if has_port(ports, cmd.port) {
        Ok(())
    } else {
        Err(PortError::InvalidPort)
    }
}

/// The ports once a command has been carried out on them.
pub open spec fn ports_after(ports: Seq<Port>, cmd: Cmd) -> Seq<Port> {
    if !has_port(ports, cmd.port) {
        ports
    } else {
        match cmd.action {
            Action::Off => ports.update(cmd.port as int, Port { asserted: false }),
            Action::On => ports.update(cmd.port as int, Port { asserted: true }),
            Action::Status => ports,
            Action::Reboot => ports.update(cmd.port as int, Port { asserted: false }),
        }
    }
}

/// What carrying a command out does to the outside world, in order.
pub open spec fn action_effects(ports: Seq<Port>, cmd: Cmd) -> Seq<Effect> {
    if !has_port(ports, cmd.port) {
        Seq::empty()
    } else {
        match cmd.action {
            Action::Off => seq![Effect::DeassertPort(cmd.port)],
            Action::On => seq![Effect::AssertPort(cmd.port)],
            Action::Status => transmit(
                status_reply(status_text(ports[cmd.port as int].asserted)),
            ),
            Action::Reboot => seq![
                Effect::AssertPort(cmd.port),
                Effect::Delay(SETTLE_DELAY_MS),
                Effect::DeassertPort(cmd.port),
            ],
        }
    }
}

/// Everything that serving a command does to the outside world, in order:
/// the echo of the command, the settle delay, the action itself, and the
/// line that reports how it went.
pub open spec fn command_effects(ports: Seq<Port>, cmd: Cmd) -> Seq<Effect> {
    transmit(ack_bytes(cmd.action)) + seq![Effect::Delay(SETTLE_DELAY_MS)] + action_effects(
        ports,
        cmd,
    ) + transmit(outcome_bytes(has_port(ports, cmd.port)))
}

/// The device state: the ports in index order, and the effects that have
/// been decided but not yet handed to the firmware shell.
pub struct PortManager {
    ports: Vec<Port>,
    pending: Vec<Effect>,
}

impl PortManager {
    /// The ports, in index order.
    pub closed spec fn ports(&self) -> Seq<Port> {
        self.ports@
    }

    /// The effects waiting to be carried out, oldest first.
    pub closed spec fn pending(&self) -> Seq<Effect> {
        self.pending@
    }

    /// A device with two ports and nothing pending.
    pub fn new(pin0: Port, pin1: Port) -> (r: Self)
        ensures
            r.ports() == seq![pin0, pin1],
            r.pending() == Seq::<Effect>::empty(),
    {
        let mut ports: Vec<Port> = Vec::new();
        ports.push(pin0);
        ports.push(pin1);
        assert(ports@ =~= seq![pin0, pin1]);
        PortManager { ports, pending: Vec::new() }
    }

    /// A device with the given ports and nothing pending.
    pub fn with_ports(ports: Vec<Port>) -> (r: Self)
        ensures
            r.ports() == ports@,
            r.pending() == Seq::<Effect>::empty(),
    {
        PortManager { ports, pending: Vec::new() }
    }

    /// Number of ports of the device.
    pub fn port_count(&self) -> (r: usize)
        ensures
            r == self.ports().len(),
    {
        self.ports.len()
    }

    /// The state of the port with the given index, if the device has it.
    pub fn port(&self, index: u8) -> (r: Option<Port>)
        ensures
            index < self.ports().len() ==> r == Some(self.ports()[index as int]),
            index >= self.ports().len() ==> r is None,
    {
        if (index as usize) < self.ports.len() {
            Some(self.ports[index as usize])
        } else {
            None
        }
    }

    /// Hands over the pending effects, leaving none behind.
    pub fn take_effects(&mut self) -> (r: Vec<Effect>)
        ensures
            r@ == old(self).pending(),
            final(self).pending() == Seq::<Effect>::empty(),
            final(self).ports() == old(self).ports(),
    {
        let mut taken: Vec<Effect> = Vec::new();
        std::mem::swap(&mut taken, &mut self.pending);
        taken
    }

    fn queue_bytes(&mut self, bytes: &[u8])
        ensures
            final(self).pending() == old(self).pending() + transmit(bytes@),
            final(self).ports() == old(self).ports(),
    {
        let ghost before = self.pending@;
        let mut i: usize = 0;
        assert(self.pending@ =~= before + transmit(bytes@.subrange(0, 0)));
        while i < bytes.len()
            invariant
                i <= bytes.len(),
                self.ports == old(self).ports,
                self.pending@ == before + transmit(bytes@.subrange(0, i as int)),
            decreases bytes.len() - i,
        {
            self.pending.push(Effect::Transmit(bytes[i]));
            assert(self.pending@ =~= before + transmit(bytes@.subrange(0, i + 1)));
            i = i + 1;
        }
        assert(bytes@.subrange(0, i as int) =~= bytes@);
    }

    /// Queues the bytes of `string` for transmission.
    pub fn serial_write(&mut self, string: &str)
        ensures
            final(self).pending() == old(self).pending() + transmit(encode_utf8(string@)),
            final(self).ports() == old(self).ports(),
    {
        self.queue_bytes(string.as_bytes());
    }

    /// Carries a command out: updates the addressed port and queues what the
    /// hardware has to do. A command for a port that the device does not have
    /// changes nothing.
    pub fn process_cmd(&mut self, cmd: &Cmd) -> (r: Result<(), PortError>)
        ensures
            r == dispatch_result(old(self).ports(), *cmd),
            final(self).ports() == ports_after(old(self).ports(), *cmd),
            final(self).pending() == old(self).pending() + action_effects(
                old(self).ports(),
                *cmd,
            ),
    {
        let index: usize = cmd.port as usize;
        if index >= self.ports.len() {
            assert(self.pending@ =~= old(self).pending@ + Seq::<Effect>::empty());
            return Err(PortError::InvalidPort);
        }
        match cmd.action {
            Action::Off => {
                self.ports[index].set_high();
                self.pending.push(Effect::DeassertPort(cmd.port));
            },
            Action::On => {
                self.ports[index].set_low();
                self.pending.push(Effect::AssertPort(cmd.port));
            },
            Action::Status => {
                let status: &str = status_str(self.ports[index].is_set_low());
                self.serial_write_status_str(status);
            },
            Action::Reboot => {
                self.ports[index].set_low();
                self.pending.push(Effect::AssertPort(cmd.port));
                self.pending.push(Effect::Delay(SETTLE_DELAY_MS));
                self.ports[index].set_high();
                self.pending.push(Effect::DeassertPort(cmd.port));
            },
        }
        assert(self.ports@ =~= ports_after(old(self).ports(), *cmd));
        assert(self.pending@ =~= old(self).pending@ + action_effects(old(self).ports(), *cmd));
        Ok(())
    }

    /// Serves a decoded command: echoes it to the host, waits out the settle
    /// delay, carries it out, and reports whether that succeeded.
    pub fn execute(&mut self, cmd: &Cmd) -> (r: Result<(), PortError>)
        ensures
            r == dispatch_result(old(self).ports(), *cmd),
            final(self).ports() == ports_after(old(self).ports(), *cmd),
            final(self).pending() == old(self).pending() + command_effects(
                old(self).ports(),
                *cmd,
            ),
    {
        self.serial_write("Cmd received: ");
        self.serial_write(cmd.repr());
        self.serial_writeln("\r");
        self.pending.push(Effect::Delay(SETTLE_DELAY_MS));
        let ghost echoed = self.pending@;
        proof {
            lemma_transmit_concat(
                encode_utf8("Cmd received: "@) + encode_utf8(action_name(cmd.action)),
                line_bytes("\r"@),
            );
            lemma_transmit_concat(
                encode_utf8("Cmd received: "@),
                encode_utf8(action_name(cmd.action)),
            );
            assert(echoed =~= old(self).pending@ + transmit(ack_bytes(cmd.action)) + seq![
                Effect::Delay(SETTLE_DELAY_MS),
            ]);
        }
        let res: Result<(), PortError> = self.process_cmd(cmd);
        match res {
            Ok(()) => self.serial_writeln("    succeeded!\r"),
            Err(_) => self.serial_writeln("    failed!\r"),
        }
        assert(self.pending@ =~= old(self).pending@ + command_effects(old(self).ports(), *cmd));
        res
    }

    /// Queues a status reply that carries `status_str` as its payload.
    pub fn serial_write_status_str(&mut self, status_str: &str)
        ensures
            final(self).pending() == old(self).pending() + transmit(status_reply(status_str@)),
            final(self).ports() == old(self).ports(),
    {
        self.serial_write_byte(STATUS_MAGIC_START);
        self.serial_write(status_str);
        self.serial_write_byte(STATUS_MAGIC_END);
        self.serial_writeln("\r");
        proof {
            lemma_transmit_concat(
                char_bytes(STATUS_MAGIC_START) + encode_utf8(status_str@) + char_bytes(
                    STATUS_MAGIC_END,
                ),
                line_bytes("\r"@),
            );
            lemma_transmit_concat(
                char_bytes(STATUS_MAGIC_START) + encode_utf8(status_str@),
                char_bytes(STATUS_MAGIC_END),
            );
            lemma_transmit_concat(char_bytes(STATUS_MAGIC_START), encode_utf8(status_str@));
            assert(self.pending@ =~= old(self).pending@ + transmit(status_reply(status_str@)));
        }
    }

    /// Queues the character whose code point is `byte` for transmission.
    pub fn serial_write_byte(&mut self, byte: u8)
        ensures
            final(self).pending() == old(self).pending() + transmit(char_bytes(byte)),
            final(self).ports() == old(self).ports(),
    {
        proof {
            lemma_char_bytes(byte);
        }
        if byte < 0x80 {
            self.pending.push(Effect::Transmit(byte));
        } else {
            let lead: u8 = 0xC0u8 | (byte >> 6);
            let tail: u8 = 0x80u8 | (byte & 0x3F);
            self.pending.push(Effect::Transmit(lead));
            self.pending.push(Effect::Transmit(tail));
        }
        assert(self.pending@ =~= old(self).pending@ + transmit(char_bytes(byte)));
    }

    /// Queues the bytes of `string` and a line feed for transmission.
    pub fn serial_writeln(&mut self, string: &str)
        ensures
            final(self).pending() == old(self).pending() + transmit(line_bytes(string@)),
            final(self).ports() == old(self).ports(),
    {
        self.queue_bytes(string.as_bytes());
        self.pending.push(Effect::Transmit(LINE_FEED));
        assert(self.pending@ =~= old(self).pending@ + transmit(line_bytes(string@)));
    }
}

} // verus!
