//! The boot entry: the single function a loader transfers control to once the
//! image is mapped into memory.

use vstd::prelude::*;

use crate::machine::Machine;

verus! {

/// The boot entry core. The embedding build exposes it to the loader under a
/// stable, unmangled name with the target's native calling convention; the
/// loader must already have established a defined execution mode and a valid
/// stack pointer, a precondition this core does not (and cannot) validate.
///
/// In its minimal form it performs no initialization work and returns. No
/// return-value channel exists at this level, so it neither takes nor
/// produces anything.
pub fn kernel_main() {
}

/// The entry as a harness observes it on the modelled environment: running
/// the minimal entry leaves the control state untouched. In particular it
/// never raises the fault signal, so an environment that enters in normal
/// instruction flow leaves in normal instruction flow.
pub fn boot_entry(m: &mut Machine)
    ensures
        final(m).control == old(m).control,
{
    kernel_main();
}

} // verus!
