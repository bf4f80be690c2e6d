//! Native Rust libraries as id Tech 3 engine modules.
//!
//! The engine loads a game module as a shared library, calls a fixed-name
//! initialization entry point once with a callback into the engine, and then
//! repeatedly calls a fixed-name dispatch entry point with an opcode and
//! twelve untyped integer arguments. This crate gives a module author a typed
//! interface to implement instead of the raw entry points: a capability
//! contract ([`NativeVM`], [`qagame::Module`]), an opcode dispatcher that
//! decodes and marshals the raw arguments, a singleton registry for the one
//! live module instance, and a library-proxy lifecycle for a module that
//! relays every call to a second shared library.
//!
//! Everything across the ABI boundary itself (the exported `extern "C"`
//! functions, the process-wide slot they share, the OS dynamic loader) is a
//! thin unverified shell around this crate; every decision it takes is made
//! by a function here and is specified below.

use vstd::prelude::*;

pub mod proxy;
pub mod qagame;
pub mod registry;

verus! {

/// The host engine's callback into its system-call handler for this module.
///
/// The host supplies the callback at initialization; the module stores it and
/// only ever invokes it, never inspects it. The raw ABI form is a
/// variable-argument function taking a leading trap code; this trait is its
/// typed face for the one payload shape the crate uses, a text message.
pub trait Syscall: Sized {
    /// Invoke the host's handler with a trap code and a text payload.
    ///
    /// The payload crosses the ABI as a C string, so it must be free of NUL
    /// bytes. The host defines the trap named by
    /// [`qagame::Imports::G_ERROR`] to shut the game down and never return
    /// control to the module; the conditional `false` records that host
    /// guarantee, so an implementation must diverge on that code.
    fn call_text(&self, code: isize, text: &[u8]) -> (r: isize)
        requires
            forall|i: int| 0 <= i < text@.len() ==> text@[i] != 0u8,
        ensures
            code == crate::qagame::Imports::G_ERROR.spec_code() ==> false,
    ;
}

/// Why a dispatch could not be completed. Both outcomes are fatal for the
/// process -- the host cannot tell a meaningful `0` from "nothing happened",
/// so no default result is ever returned in their place -- but they carry
/// distinct diagnostics: an opcode outside the closed set is a host-protocol
/// violation, while a recognized opcode that no operation is wired to is a
/// gap in the module itself.
#[derive(Clone, Copy, PartialEq, Eq, Structural, Debug)]
pub enum DispatchFailure {
    /// The opcode is outside the module family's closed set: the host sent a
    /// command this module cannot have been meant to receive.
    UnknownCommand(i32),
    /// The opcode is in the closed set but not wired to an operation yet.
    NotImplemented(i32),
}

impl DispatchFailure {
    /// The diagnostic the process terminates with; the two failure kinds keep
    /// distinct messages (the offending opcode itself travels in the variant).
    pub fn diagnostic(&self) -> (r: &'static str)
        ensures
            self is UnknownCommand ==> r@ == "unknown game command"@,
            self is NotImplemented ==> r@ == "game command not implemented"@,
    {
        match self {
            DispatchFailure::UnknownCommand(_) => "unknown game command",
            DispatchFailure::NotImplemented(_) => "game command not implemented",
        }
    }
}

/// Law: the diagnostic for an opcode outside the closed set is distinct from
/// the diagnostic for a recognized-but-unwired opcode, whatever the opcodes.
pub proof fn lemma_distinct_diagnostics()
    ensures
        "unknown game command"@ != "game command not implemented"@,
{
    reveal_strlit("unknown game command");
    reveal_strlit("game command not implemented");
    assert("unknown game command"@.len() != "game command not implemented"@.len());
}

/// The raw dispatch contract a loaded module satisfies, one instance per
/// loaded library. `S` is the host callback type handed to `dll_entry`.
///
/// The two methods mirror the two ABI entry points: the unverified shell's
/// exported functions forward to them through the singleton registry and turn
/// a [`DispatchFailure`] into process termination with its diagnostic.
pub trait NativeVM<S: Syscall>: 'static + Send + Sync {
    /// Construct the one module instance, storing the host callback.
    fn dll_entry(syscall: S) -> Box<Self> where Self: Sized;

    /// Interpret one host command: an opcode and twelve raw arguments, of
    /// which each operation reads a fixed leading prefix.
    fn vm_main(
        &self,
        command: i32,
        arg0: i32,
        arg1: i32,
        arg2: i32,
        arg3: i32,
        arg4: i32,
        arg5: i32,
        arg6: i32,
        arg7: i32,
        arg8: i32,
        arg9: i32,
        arg10: i32,
        arg11: i32,
    ) -> Result<isize, DispatchFailure>;
}

} // verus!
