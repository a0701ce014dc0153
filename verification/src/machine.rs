//! The shared model of the execution environment: its control state, the
//! fault signal, and single-stepping, as a loader or a single-stepping test
//! harness observes them.

use vstd::prelude::*;

verus! {

/// The control state of the freestanding environment. There is no richer
/// state at this layer: the core neither inspects nor mutates the machine's
/// registers or stack, so all that can be observed of it is whether normal
/// instruction flow continues or the terminal halt has been entered.
#[derive(Clone, Copy, Debug, PartialEq, Eq, Structural)]
pub enum ControlState {
    /// Normal instruction flow, from the moment the loader transfers control.
    Running,
    /// The terminal state reached through the fault handler. It has no
    /// outgoing transition.
    Halted,
}

/// One observed instruction step of the environment. Normal flow continues as
/// normal flow; the halted state has no outgoing transition, so a step taken
/// there leads nowhere else.
pub open spec fn step(s: ControlState) -> ControlState {
    match s {
        ControlState::Running => ControlState::Running,
        ControlState::Halted => ControlState::Halted,
    }
}

/// The control state after `n` observed steps from `s`.
pub open spec fn step_n(s: ControlState, n: nat) -> ControlState
    decreases n,
{
    if n == 0 {
        s
    } else {
        step(step_n(s, (n - 1) as nat))
    }
}

/// A description of an unrecoverable fault — its source location — supplied
/// by the runtime-support layer when it raises the fault signal. The core
/// carries it but deliberately never consumes or reports it: no diagnostic
/// output channel exists at this layer.
#[derive(Clone, Copy, Debug, PartialEq, Eq, Structural)]
pub struct FaultDescription {
    /// Source line of the fault site, when known; zero otherwise.
    pub line: u32,
    /// Source column of the fault site, when known; zero otherwise.
    pub column: u32,
}

/// The executable counterpart of [`ControlState`]: the environment's
/// lifecycle from the moment the loader transfers control until power-loss or
/// the terminal halt. The core creates no entity beyond this: it only marks
/// the beginning and, on a fault, the unrecoverable end of that lifecycle.
pub struct Machine {
    /// The one piece of observable state at this layer.
    pub control: ControlState,
}

impl Machine {
    /// The environment as the loader hands it over: a defined execution mode,
    /// a valid stack pointer, and normal instruction flow about to begin.
    pub fn at_entry() -> (m: Machine)
        ensures
            m.control == ControlState::Running,
    {
        Machine { control: ControlState::Running }
    }

    /// One observed instruction step, as a single-stepping harness takes it.
    pub fn single_step(&mut self)
        ensures
            final(self).control == step(old(self).control),
    {
        let next = match self.control {
            ControlState::Running => ControlState::Running,
            ControlState::Halted => ControlState::Halted,
        };
        self.control = next;
    }

    /// Steps the environment `n` times in a row.
    pub fn run_steps(&mut self, n: u64)
        ensures
            final(self).control == step_n(old(self).control, n as nat),
    {
        let mut i: u64 = 0;
        while i < n
            invariant
                i <= n,
                self.control == step_n(old(self).control, i as nat),
            decreases n - i,
        {
            self.single_step();
            i = i + 1;
        }
    }

    /// Whether the environment has entered the terminal halted state.
    pub fn is_halted(&self) -> (halted: bool)
        ensures
            halted == (self.control == ControlState::Halted),
    {
        self.control == ControlState::Halted
    }
}

} // verus!
