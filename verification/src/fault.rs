//! The fault path: what the device does once it cannot go on.
//!
//! The path is a fixed script of hardware actions that ends in a loop which
//! only the watchdog reset leaves. [`FaultPath`] steps through the script;
//! the firmware shell performs each action and asks for the next.
use vstd::prelude::*;

verus! {

/// The conditions from which the engine cannot recover.
#[derive(Clone, Copy, Debug, PartialEq, Eq, Structural)]
pub enum FaultKind {
    /// A byte arrived while the frame accumulator was full.
    BufferExhausted,
    /// The serial channel reported a read error.
    SerialFault,
}

/// One hardware action of the fault script.
#[derive(Clone, Copy, Debug, PartialEq, Eq, Structural)]
pub enum FaultAction {
    /// Disable all interrupt sources.
    DisableInterrupts,
    /// Take access to the hardware registers, whoever held them before.
    SeizeHardware,
    /// Light the fault indicator.
    IndicatorOn,
    /// Darken the fault indicator.
    IndicatorOff,
    /// Block for this many milliseconds.
    Wait(u16),
    /// Write this value to the watchdog control register.
    WatchdogControl(u8),
}

/// Number of times the indicator blinks before the watchdog is armed.
pub const FAULT_BLINKS: u8 = 10;

/// Time, in milliseconds, that the indicator stays on, and stays off, in a blink.
pub const BLINK_MS: u16 = 100;

/// Watchdog control value that opens the timed configuration window.
pub const WATCHDOG_UNLOCK: u8 = 0x18;

/// Watchdog control value that selects reset mode with the shortest timeout.
pub const WATCHDOG_ARM: u8 = 0x08;

/// Number of actions in one blink.
pub const BLINK_STEPS: u8 = 4;

/// Script position of the first blink.
pub const BLINK_START: u8 = 2;

/// Script position at which the watchdog is armed.
pub const ARM_START: u8 = 42;

/// Script position at which the final blink loop begins.
pub const LOOP_START: u8 = 44;

/// Script position just past the first round of the final blink loop.
pub const LOOP_END: u8 = 48;

/// The action at the given offset within one blink.
pub open spec fn blink_action(offset: int) -> FaultAction {
    if offset == 0 {
        FaultAction::IndicatorOn
    } else if offset == 2 {
        FaultAction::IndicatorOff
    } else {
        FaultAction::Wait(BLINK_MS)
    }
}

/// The `n`-th action of the fault script, counting from zero. The script has
/// no end: past the arming of the watchdog it blinks forever.
pub open spec fn fault_action_at(n: nat) -> FaultAction {
    if n == 0 {
        FaultAction::DisableInterrupts
    } else if n == 1 {
        FaultAction::SeizeHardware
    } else if n < ARM_START {
        blink_action((n - BLINK_START) % (BLINK_STEPS as int))
    } else if n == ARM_START {
        FaultAction::WatchdogControl(WATCHDOG_UNLOCK)
    } else if n < LOOP_START {
        FaultAction::WatchdogControl(WATCHDOG_ARM)
    } else {
        blink_action((n - LOOP_START) % (BLINK_STEPS as int))
    }
}

/// The script position at which blink number `blink` begins, counting the
/// blinks before the watchdog is armed from zero.
pub open spec fn blink_position(blink: nat) -> nat {
    (BLINK_START + BLINK_STEPS * blink) as nat
}

/// The position within the first round of the script that stands for
/// position `n`: `n` itself up to the end of the first round of the final
/// loop, and the matching position of that round afterwards.
pub open spec fn settle(n: nat) -> nat {
    if n < LOOP_END {
        n
    } else {
        (LOOP_START + (n - LOOP_START) % (BLINK_STEPS as int)) as nat
    }
}

/// The position that a fault path holds after `steps` actions were taken.
pub open spec fn position_after(steps: nat) -> nat
    decreases steps,
{
    if steps == 0 {
        0
    } else {
        settle(position_after((steps - 1) as nat) + 1)
    }
}

/// A cursor into the fault script.
pub struct FaultPath {
    at: u8,
}

impl FaultPath {
    #[verifier::type_invariant]
    closed spec fn inv(&self) -> bool {
        self.at < LOOP_END
    }

    /// The script position of the action that comes next.
    pub closed spec fn position(&self) -> nat {
        self.at as nat
    }

    /// The fault path at the start of its script.
    pub fn new() -> (r: Self)
        ensures
            r.position() == 0,
    {
        FaultPath { at: 0 }
    }

    /// The action to perform now; the path moves on to the one after it.
    pub fn next(&mut self) -> (r: FaultAction)
        ensures
            r == fault_action_at(old(self).position()),
            final(self).position() == settle(old(self).position() + 1),
            final(self).position() < LOOP_END,
    {
        proof {
            use_type_invariant(&*self);
        }
        let at: u8 = self.at;
        let action: FaultAction = if at == 0 {
            FaultAction::DisableInterrupts
        } else if at == 1 {
            FaultAction::SeizeHardware
        } else if at < ARM_START {
            Self::blink((at - BLINK_START) % BLINK_STEPS)
        } else if at == ARM_START {
            FaultAction::WatchdogControl(WATCHDOG_UNLOCK)
        } else if at < LOOP_START {
            FaultAction::WatchdogControl(WATCHDOG_ARM)
        } else {
            Self::blink((at - LOOP_START) % BLINK_STEPS)
        };
        self.at = if at + 1 == LOOP_END {
            LOOP_START
        } else {
            at + 1
        };
        action
    }

    fn blink(offset: u8) -> (r: FaultAction)
        ensures
            r == blink_action(offset as int),
    {
        if offset == 0 {
            FaultAction::IndicatorOn
        } else if offset == 2 {
            FaultAction::IndicatorOff
        } else {
            FaultAction::Wait(BLINK_MS)
        }
    }
}

/// Folding a position into the first round of the script changes neither the
/// action found there nor where the script goes next.
pub proof fn lemma_settle(n: nat)
    ensures
        settle(n) < LOOP_END,
        fault_action_at(settle(n)) == fault_action_at(n),
        settle(settle(n) + 1) == settle(n + 1),
{
}

/// After any number of steps a fault path stands at the folded position of
/// that number, so its next action is the one the script has there.
pub proof fn lemma_fault_path_follows_script(steps: nat)
    ensures
        position_after(steps) == settle(steps),
        fault_action_at(position_after(steps)) == fault_action_at(steps),
    decreases steps,
{
    if steps > 0 {
        lemma_fault_path_follows_script((steps - 1) as nat);
        lemma_settle((steps - 1) as nat);
    }
    lemma_settle(steps);
}

/// The script opens by disabling interrupts and seizing the hardware, then
/// blinks the indicator `FAULT_BLINKS` times, on and off for `BLINK_MS`
/// each, and only then arms the watchdog with two control writes.
pub proof fn lemma_fault_script_prelude(blink: nat)
    requires
        blink < FAULT_BLINKS,
    ensures
        fault_action_at(0) == FaultAction::DisableInterrupts,
        fault_action_at(1) == FaultAction::SeizeHardware,
        fault_action_at(blink_position(blink)) == FaultAction::IndicatorOn,
        fault_action_at(blink_position(blink) + 1) == FaultAction::Wait(BLINK_MS),
        fault_action_at(blink_position(blink) + 2) == FaultAction::IndicatorOff,
        fault_action_at(blink_position(blink) + 3) == FaultAction::Wait(BLINK_MS),
        blink_position(FAULT_BLINKS as nat) == ARM_START,
        fault_action_at(ARM_START as nat) == FaultAction::WatchdogControl(WATCHDOG_UNLOCK),
        fault_action_at((ARM_START + 1) as nat) == FaultAction::WatchdogControl(WATCHDOG_ARM),
{
}

/// Once the watchdog is armed the script never ends and never does anything
/// but blink: every later action is an indicator change or a wait.
pub proof fn lemma_fault_script_never_ends(n: nat)
    requires
        n >= LOOP_START,
    ensures
        fault_action_at(n) == blink_action((n - LOOP_START) % (BLINK_STEPS as int)),
        fault_action_at(n + BLINK_STEPS as nat) == fault_action_at(n),
        fault_action_at(n) == FaultAction::IndicatorOn || fault_action_at(n)
            == FaultAction::IndicatorOff || fault_action_at(n) == FaultAction::Wait(BLINK_MS),
{
}

} // verus!
