//! The two firmware variants as configurations of one engine.
use vstd::prelude::*;
use crate::command::Action;

verus! {

/// Which firmware variant the engine runs as.
#[derive(Clone, Copy, Debug, PartialEq, Eq, Structural)]
pub enum Variant {
    /// The reduced variant: one port, switching on and off only, and no
    /// fault path of its own.
    RevisionA,
    /// The full variant: two ports, all four actions, and the fault path.
    RevisionB,
}

impl Variant {
    /// Whether the variant knows the action.
    pub open spec fn supports_action(self, action: Action) -> bool {
        match self {
            Variant::RevisionA => action == Action::On || action == Action::Off,
            Variant::RevisionB => true,
        }
    }

    /// Number of ports that a device of the variant has.
    pub open spec fn number_of_ports(self) -> nat {
        match self {
            Variant::RevisionA => 1,
            Variant::RevisionB => 2,
        }
    }

    /// Whether a device of the variant runs the fault path on a fault.
    pub open spec fn runs_fault_path(self) -> bool {
        self == Variant::RevisionB
    }

    /// Whether the variant knows the action.
    pub fn supports(&self, action: Action) -> (r: bool)
        ensures
            r == self.supports_action(action),
    {
        match self {
            Variant::RevisionA => match action {
                Action::On => true,
                Action::Off => true,
                _ => false,
            },
            Variant::RevisionB => true,
        }
    }

    /// Number of ports that a device of the variant has.
    pub fn port_count(&self) -> (r: u8)
        ensures
            r == self.number_of_ports(),
    {
        match self {
            Variant::RevisionA => 1,
            Variant::RevisionB => 2,
        }
    }

    /// Whether a device of the variant runs the fault path on a fault.
    pub fn has_fault_path(&self) -> (r: bool)
        ensures
            r == self.runs_fault_path(),
    {
        match self {
            Variant::RevisionA => false,
            Variant::RevisionB => true,
        }
    }
}

} // verus!
