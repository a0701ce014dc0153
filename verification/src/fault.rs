//! The fault handler: the terminal response to an unrecoverable fault.
//!
//! Its state machine has exactly one state, halted, reached from any point in
//! execution via the fault signal; halted is terminal and has no outgoing
//! transition. On a fault the safest action, when no recovery infrastructure
//! exists, is to stop all forward progress rather than continue with possibly
//! corrupted state. The embedding build follows the transition below with an
//! unconditional spin — the simplest portable "halt forever" — which cannot
//! stand here: a verified loop must carry a termination measure, and the spin
//! by design has none. That the halt is nevertheless permanent is what
//! [`lemma_fault_path_is_terminal`] states of the model.

use vstd::prelude::*;

use crate::machine::ControlState;
use crate::machine::FaultDescription;
use crate::machine::Machine;
use crate::machine::step_n;

verus! {

/// What the fault signal does to the control state: from any point in
/// execution, an unrecoverable fault routes the environment to `Halted`.
pub open spec fn fault_transition(s: ControlState) -> ControlState {
    ControlState::Halted
}

/// The fault handler core. Whatever state execution was in and whatever the
/// fault was, the environment is routed unconditionally to the terminal
/// halted state; the description is accepted and ignored, since no diagnostic
/// output channel exists at this layer. Nothing is retried, nothing is
/// reported, and no escalation beyond "stop" exists here.
pub fn fault_handler(m: &mut Machine, _description: FaultDescription)
    ensures
        final(m).control == fault_transition(old(m).control),
{
    m.control = ControlState::Halted;
}

/// The fault path, once entered, never resumes normal instruction flow:
/// however many steps a harness observes after the fault signal, the control
/// state stays `Halted`.
pub proof fn lemma_fault_path_is_terminal(s: ControlState, n: nat)
    ensures
        step_n(fault_transition(s), n) == ControlState::Halted,
    decreases n,
{
    if n > 0 {
        lemma_fault_path_is_terminal(s, (n - 1) as nat);
    }
}

} // verus!
