//! The library-proxy lifecycle machine: construction, forwarding, failure.

use quake3_native_vm::proxy::{
    DispatchCall, LibraryProxy, ProxyAction, ProxyError, ProxyEvent, ProxySymbol,
};

fn call(command: i32, args: [i32; 12]) -> DispatchCall {
    DispatchCall {
        command,
        arg0: args[0],
        arg1: args[1],
        arg2: args[2],
        arg3: args[3],
        arg4: args[4],
        arg5: args[5],
        arg6: args[6],
        arg7: args[7],
        arg8: args[8],
        arg9: args[9],
        arg10: args[10],
        arg11: args[11],
    }
}

fn construct(proxy: &mut LibraryProxy, callback: u32) {
    let action = proxy.step(ProxyEvent::BeginConstruct {
        library_found: true,
        entry_found: true,
        dispatch_found: true,
        callback,
    });
    assert_eq!(action, ProxyAction::ForwardInit { callback });
    let action = proxy.step::<u32>(ProxyEvent::InitForwarded);
    assert_eq!(action, ProxyAction::ConstructionComplete);
}

#[test]
fn valid_target_forwards_init_with_the_received_callback() {
    let mut proxy = LibraryProxy::new();
    // The callback the proxy itself received is the one and only value the
    // machine asks to pass to the target's init, before construction is
    // allowed to complete.
    let action = proxy.step(ProxyEvent::BeginConstruct {
        library_found: true,
        entry_found: true,
        dispatch_found: true,
        callback: 42u32,
    });
    assert_eq!(action, ProxyAction::ForwardInit { callback: 42u32 });
    let action = proxy.step::<u32>(ProxyEvent::InitForwarded);
    assert_eq!(action, ProxyAction::ConstructionComplete);
}

#[test]
fn dispatch_through_the_proxy_is_a_verbatim_round_trip() {
    let mut proxy = LibraryProxy::new();
    construct(&mut proxy, 42);

    let request = call(7, [1, -2, 3, -4, 5, -6, 7, -8, 9, -10, 11, -12]);
    let action = proxy.step::<u32>(ProxyEvent::DispatchRequested { call: request });
    // The forwarded call carries the opcode and all twelve arguments
    // unchanged...
    assert_eq!(action, ProxyAction::ForwardDispatch { call: request });

    // ...and the target's result comes back unchanged, so dispatching
    // through the proxy equals dispatching directly against the target.
    let action = proxy.step::<u32>(ProxyEvent::DispatchReturned { result: -1717 });
    assert_eq!(action, ProxyAction::ReturnResult { result: -1717 });
}

#[test]
fn proxy_relays_many_calls_in_order() {
    let mut proxy = LibraryProxy::new();
    construct(&mut proxy, 7);

    for (command, result) in [(0, 0isize), (8, 0), (2, 501), (9, 1)] {
        let request = call(command, [5, 0, 7, 0, 0, 0, 0, 0, 0, 0, 0, 0]);
        let action = proxy.step::<u32>(ProxyEvent::DispatchRequested { call: request });
        assert_eq!(action, ProxyAction::ForwardDispatch { call: request });
        let action = proxy.step::<u32>(ProxyEvent::DispatchReturned { result });
        assert_eq!(action, ProxyAction::ReturnResult { result });
    }
}

#[test]
fn missing_library_is_fatal_at_construction() {
    let mut proxy = LibraryProxy::new();
    let action = proxy.step(ProxyEvent::BeginConstruct {
        library_found: false,
        entry_found: false,
        dispatch_found: false,
        callback: 42u32,
    });
    assert_eq!(action, ProxyAction::Abort { error: ProxyError::LibraryNotFound });

    // The broken proxy never becomes usable: every later event aborts with
    // the diagnosis made at construction.
    let request = call(0, [0; 12]);
    let action = proxy.step::<u32>(ProxyEvent::DispatchRequested { call: request });
    assert_eq!(action, ProxyAction::Abort { error: ProxyError::LibraryNotFound });
}

#[test]
fn missing_entry_symbol_is_fatal_at_construction() {
    let mut proxy = LibraryProxy::new();
    let action = proxy.step(ProxyEvent::BeginConstruct {
        library_found: true,
        entry_found: false,
        dispatch_found: true,
        callback: 42u32,
    });
    assert_eq!(
        action,
        ProxyAction::Abort { error: ProxyError::SymbolNotFound(ProxySymbol::DllEntry) }
    );
}

#[test]
fn missing_dispatch_symbol_is_fatal_at_construction() {
    let mut proxy = LibraryProxy::new();
    let action = proxy.step(ProxyEvent::BeginConstruct {
        library_found: true,
        entry_found: true,
        dispatch_found: false,
        callback: 42u32,
    });
    assert_eq!(
        action,
        ProxyAction::Abort { error: ProxyError::SymbolNotFound(ProxySymbol::VmMain) }
    );
}

#[test]
fn dispatch_before_construction_is_a_protocol_violation() {
    let mut proxy = LibraryProxy::new();
    let request = call(0, [0; 12]);
    let action = proxy.step::<u32>(ProxyEvent::DispatchRequested { call: request });
    assert_eq!(action, ProxyAction::Abort { error: ProxyError::ProtocolViolation });
}

#[test]
fn second_construction_is_a_protocol_violation() {
    let mut proxy = LibraryProxy::new();
    construct(&mut proxy, 42);
    let action = proxy.step(ProxyEvent::BeginConstruct {
        library_found: true,
        entry_found: true,
        dispatch_found: true,
        callback: 43u32,
    });
    assert_eq!(action, ProxyAction::Abort { error: ProxyError::ProtocolViolation });
}
