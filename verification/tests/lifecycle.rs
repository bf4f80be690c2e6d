//! The singleton lifecycle: one init, many dispatches, loud failures.

use quake3_native_vm::qagame::{Module, ModuleWrapper, Syscalls};
use quake3_native_vm::registry::{trampoline_dispatch, trampoline_init, LifecycleError, Registry, TrampolineFailure};
use quake3_native_vm::{DispatchFailure, Syscall};

#[derive(Clone, Copy, PartialEq, Eq, Debug)]
struct NullSyscall;

impl Syscall for NullSyscall {
    fn call_text(&self, code: isize, _text: &[u8]) -> isize {
        if code == 1 {
            panic!("the fatal-error trap never returns");
        }
        0
    }
}

/// A module whose integer-returning operation encodes the typed arguments
/// it observed, so the values can be checked from outside the registry.
struct Echo;

impl Module<NullSyscall> for Echo {
    fn dll_entry(_syscalls: Syscalls<NullSyscall>) -> Box<Self> {
        Box::new(Echo)
    }

    fn init(&self, _level_time: i32, _random_seed: i32, _restart: bool) {}

    fn shutdown(&self, _restart: bool) {}

    fn client_connect(&self, client_number: i32, first_time: bool, is_bot: bool) -> isize {
        (client_number as isize) * 100
            + (if first_time { 10 } else { 0 })
            + (if is_bot { 1 } else { 0 })
    }

    fn client_begin(&self, _client_number: i32) {}

    fn client_userinfo_changed(&self, _client_number: i32) {}

    fn client_disconnect(&self, _client_number: i32) {}

    fn client_command(&self, _client_number: i32) {}

    fn client_think(&self, _client_number: i32) {}

    fn run_frame(&self, _level_time: i32) {}

    fn console_command(&self) -> bool {
        true
    }

    fn botai_start_frame(&self, _level_time: i32) -> bool {
        false
    }
}

type EchoVm = ModuleWrapper<Echo>;

fn dispatch(
    reg: &Registry<EchoVm>,
    command: i32,
    a0: i32,
    a1: i32,
    a2: i32,
) -> Result<isize, TrampolineFailure> {
    trampoline_dispatch(reg, command, a0, a1, a2, 0, 0, 0, 0, 0, 0, 0, 0, 0)
}

#[test]
fn registry_slot_accepts_one_write_and_keeps_it() {
    let mut reg: Registry<u32> = Registry::new();
    assert!(!reg.is_initialized());
    assert_eq!(reg.get(), Err(LifecycleError::NotInitialized));

    assert_eq!(reg.set(7), Ok(()));
    assert!(reg.is_initialized());
    assert_eq!(reg.get(), Ok(&7));

    // The second write is rejected, the instance comes back, the slot keeps
    // what it held.
    assert_eq!(reg.set(9), Err(9));
    assert_eq!(reg.get(), Ok(&7));
}

#[test]
fn readers_observe_the_same_instance() {
    let mut reg: Registry<u32> = Registry::new();
    assert_eq!(reg.set(41), Ok(()));
    let first = reg.get();
    let second = reg.get();
    assert_eq!(first, second);
    assert_eq!(first, Ok(&41));
}

#[test]
fn dispatch_before_init_is_a_loud_protocol_violation() {
    let reg: Registry<EchoVm> = Registry::new();
    assert_eq!(dispatch(&reg, 0, 1000, 42, 0), Err(TrampolineFailure::NotInitialized));
    assert_eq!(dispatch(&reg, 8, 250, 0, 0), Err(TrampolineFailure::NotInitialized));
}

#[test]
fn second_init_is_rejected_and_first_instance_kept() {
    let mut reg: Registry<EchoVm> = Registry::new();
    assert_eq!(trampoline_init(&mut reg, NullSyscall), Ok(()));
    assert_eq!(
        trampoline_init(&mut reg, NullSyscall),
        Err(LifecycleError::AlreadyInitialized)
    );
    // The registry still serves the first instance.
    assert_eq!(dispatch(&reg, 2, 5, 7, 0), Ok(510));
}

#[test]
fn dispatches_after_one_init_each_get_their_own_result() {
    let mut reg: Registry<EchoVm> = Registry::new();
    assert_eq!(trampoline_init(&mut reg, NullSyscall), Ok(()));

    // Distinct opcodes and arguments, interleaved reads of the one slot:
    // every call sees the same instance and gets the result of its own
    // opcode, nothing crossed.
    assert_eq!(dispatch(&reg, 2, 1, 0, 0), Ok(100));
    assert_eq!(dispatch(&reg, 9, 0, 0, 0), Ok(1));
    assert_eq!(dispatch(&reg, 2, 3, 7, 7), Ok(311));
    assert_eq!(dispatch(&reg, 10, 250, 0, 0), Ok(0));
    assert_eq!(dispatch(&reg, 2, 1, 0, 0), Ok(100));
}

#[test]
fn end_to_end_init_and_shutdown_scenario() {
    let mut reg: Registry<EchoVm> = Registry::new();
    assert_eq!(trampoline_init(&mut reg, NullSyscall), Ok(()));

    // The initialize operation is void, so the raw result is the fixed 0.
    assert_eq!(dispatch(&reg, 0, 1000, 42, 0), Ok(0));
    // So is shutdown, with its truth argument reinterpreted.
    assert_eq!(dispatch(&reg, 1, 1, 0, 0), Ok(0));

    // An opcode outside the closed set travels back as the distinct
    // protocol violation, never as a made-up result.
    assert_eq!(
        dispatch(&reg, 99, 0, 0, 0),
        Err(TrampolineFailure::Module(DispatchFailure::UnknownCommand(99)))
    );
}
