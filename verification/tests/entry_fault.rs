use kernel::entry::boot_entry;
use kernel::entry::kernel_main;
use kernel::fault::fault_handler;
use kernel::machine::ControlState;
use kernel::machine::FaultDescription;
use kernel::machine::Machine;

#[test]
fn entry_symbol_is_reachable() {
    // Smoke test: the entry is present, linked, and callable with no setup.
    kernel_main();
}

#[test]
fn entry_completes_without_fault() {
    // Scenario: jump to the entry and observe it complete without raising a
    // fault — the environment is still in normal instruction flow afterwards.
    let mut m = Machine::at_entry();
    boot_entry(&mut m);
    assert!(!m.is_halted());
    assert_eq!(m.control, ControlState::Running);
}

#[test]
fn fault_enters_halted() {
    // Scenario: synthetically raise the fault signal with an arbitrary
    // description — the environment enters the terminal halted state.
    let mut m = Machine::at_entry();
    fault_handler(&mut m, FaultDescription { line: 7, column: 42 });
    assert!(m.is_halted());
    assert_eq!(m.control, ControlState::Halted);
}

#[test]
fn fault_path_stays_halted_step_by_step() {
    // Single-step the environment after a fault and watch the control state
    // at every step: it never leaves the halted state.
    let mut m = Machine::at_entry();
    fault_handler(&mut m, FaultDescription { line: 0, column: 0 });
    let mut i: u32 = 0;
    while i < 10_000 {
        m.single_step();
        assert!(m.is_halted());
        i += 1;
    }
}

#[test]
fn fault_path_stays_halted_after_many_steps() {
    // The same observation over a long run of steps at once.
    let mut m = Machine::at_entry();
    fault_handler(&mut m, FaultDescription { line: 1, column: 1 });
    m.run_steps(1_000_000);
    assert!(m.is_halted());
}

#[test]
fn fault_is_terminal_from_any_state() {
    // A fault raised when the environment is already halted leaves it halted:
    // the halted state has no outgoing transition.
    let mut m = Machine::at_entry();
    fault_handler(&mut m, FaultDescription { line: 3, column: 9 });
    fault_handler(&mut m, FaultDescription { line: 5, column: 1 });
    assert!(m.is_halted());
}

#[test]
fn normal_flow_continues_until_fault() {
    // Stepping an environment that has not faulted keeps it in normal flow.
    let mut m = Machine::at_entry();
    m.run_steps(1_000);
    assert!(!m.is_halted());
    assert_eq!(m.control, ControlState::Running);
}
