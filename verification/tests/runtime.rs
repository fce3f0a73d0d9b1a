use console_bridge::bindings::translate;
use console_bridge::image::{validate_image, LinkError, UnitDescriptor};
use console_bridge::shell::{
    entry_point, greeting_message, halted_step, handle_fault, SystemState,
};

#[test]
fn greeting_is_null_terminated_literal() {
    let g = greeting_message();
    assert_eq!(g.len(), 12);
    assert_eq!(&g[..11], b"Hello Rust!");
    assert_eq!(g[11], 0);
    assert!(g[..11].iter().all(|&b| b != 0));
}

#[test]
fn entry_point_makes_exactly_one_write_call() {
    let calls = entry_point();
    assert_eq!(calls.len(), 1);
    assert_eq!(calls[0].symbol, b"write".to_vec());
    assert_eq!(calls[0].bytes, b"Hello Rust!\0".to_vec());
}

#[test]
fn fault_from_running_halts() {
    assert_eq!(handle_fault(SystemState::Running), SystemState::Halted);
}

#[test]
fn fault_from_halted_stays_halted() {
    assert_eq!(handle_fault(SystemState::Halted), SystemState::Halted);
}

#[test]
fn halted_handler_step_has_no_observable_effect() {
    let mut state = SystemState::Halted;
    for _ in 0..64 {
        let (next, call) = halted_step(state);
        assert_eq!(next, SystemState::Halted);
        assert!(call.is_none());
        state = next;
    }
}

fn unit(entry: bool, handler: bool) -> UnitDescriptor {
    UnitDescriptor { provides_entry_point: entry, provides_fault_handler: handler }
}

#[test]
fn accepts_single_owner_configuration() {
    // the application unit owns the entry point, the library unit the handler
    let units = vec![unit(false, true), unit(true, false)];
    assert_eq!(validate_image(&units), Ok(()));
    // one unit owning both is also a single-owner configuration
    let units = vec![unit(true, true)];
    assert_eq!(validate_image(&units), Ok(()));
}

#[test]
fn rejects_duplicate_fault_handlers() {
    // one handler per unit: rejected at build time, not resolved by link order
    let units = vec![unit(true, true), unit(false, true)];
    assert_eq!(validate_image(&units), Err(LinkError::MultipleFaultHandlers));
}

#[test]
fn rejects_duplicate_entry_points() {
    let units = vec![unit(true, false), unit(true, true)];
    assert_eq!(validate_image(&units), Err(LinkError::MultipleEntryPoints));
}

#[test]
fn rejects_missing_definitions() {
    let units = vec![unit(false, false), unit(false, false)];
    assert_eq!(validate_image(&units), Err(LinkError::NoEntryPoint));
    let units = vec![unit(true, false), unit(false, false)];
    assert_eq!(validate_image(&units), Err(LinkError::NoFaultHandler));
}

#[test]
fn end_to_end_write_scenario() {
    // a header declaring `void write(const char*)`, a 64-bit bare-metal ARM
    // target, and a system root produce a one-symbol binding; the entry point
    // then makes exactly one call to that symbol with the greeting bytes
    let header = b"void write(const char*);".to_vec();
    let target = b"aarch64-unknown-none".to_vec();
    let sysroot = b"/opt/cross".to_vec();
    let m = translate(Some(&header), &target, Some(&sysroot)).unwrap();
    assert_eq!(m.symbols.len(), 1);
    assert_eq!(m.symbols[0].name, b"write".to_vec());
    assert_eq!(m.symbols[0].params.len(), 1);

    let calls = entry_point();
    assert_eq!(calls.len(), 1);
    assert_eq!(calls[0].symbol, m.symbols[0].name);
    // the shell calls only what the module declares, never a symbol of its own
    assert!(console_bridge::bindings::symbol_is_declared(&m, &calls[0].symbol));
    assert_eq!(calls[0].bytes.len(), 12);
    assert_eq!(&calls[0].bytes[..11], b"Hello Rust!");
    assert_eq!(*calls[0].bytes.last().unwrap(), 0);
}
