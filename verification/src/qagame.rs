//! The `qagame` module family: the server-side logic of the game.
//!
//! This module fixes the family's two external integer tables -- the traps
//! the engine provides ([`Imports`]) and the operations the module exports
//! ([`Exports`]) -- and the dispatcher that decodes an opcode against the
//! closed set, reshapes the raw integer arguments into typed parameters, and
//! converts the typed result back into the single integer the ABI requires.

use vstd::prelude::*;

verus! {

/// System traps provided by the engine to a `qagame` module.
///
/// The integer each trap is wired to is part of the external ABI and must
/// never be renumbered; [`Imports::spec_code`] is that fixed table.
#[allow(non_camel_case_types)]
#[derive(Clone, Copy, PartialEq, Eq, Structural, Debug)]
pub enum Imports {
    /// Print a message to the console.
    G_PRINT,
    /// Shut the game down with an error message; the host never returns
    /// control from this trap.
    G_ERROR,
}

impl Imports {
    /// The integer the engine's import table assigns this trap.
    pub open spec fn spec_code(self) -> isize {
        match self {
            Imports::G_PRINT => 0,
            Imports::G_ERROR => 1,
        }
    }

    /// The trap code passed to the raw callback.
    #[verifier::when_used_as_spec(spec_code)]
    pub fn code(self) -> (r: isize)
        ensures
            r == self.spec_code(),
    {
        match self {
            Imports::G_PRINT => 0,
            Imports::G_ERROR => 1,
        }
    }
}

/// Operations a `qagame` module exports to the engine: the family's closed
/// opcode set.
///
/// The mapping from integer to operation is part of the external ABI and
/// must never be renumbered; [`Exports::spec_code`] is that fixed table and
/// [`Exports::spec_of_code`] its inverse, defined exactly on the closed set.
#[allow(non_camel_case_types)]
#[derive(Clone, Copy, PartialEq, Eq, Structural, Debug)]
pub enum Exports {
    /// Initialize the module upon loading a level.
    GAME_INIT,
    /// Shut the module down upon loading another level, mod etc.
    GAME_SHUTDOWN,
    /// Connect or reject a client.
    GAME_CLIENT_CONNECT,
    /// Client finished connecting.
    GAME_CLIENT_BEGIN,
    /// Userinfo data for a client changed.
    GAME_CLIENT_USERINFO_CHANGED,
    /// Disconnect a client.
    GAME_CLIENT_DISCONNECT,
    /// Client text command.
    GAME_CLIENT_COMMAND,
    /// Run a client frame.
    GAME_CLIENT_THINK,
    /// Run a server frame.
    GAME_RUN_FRAME,
    /// Server console text command.
    GAME_CONSOLE_COMMAND,
    /// Run a bot frame.
    BOTAI_START_FRAME,
}

impl Exports {
    /// The opcode the external ABI assigns this operation.
    pub open spec fn spec_code(self) -> i32 {
        match self {
            Exports::GAME_INIT => 0,
            Exports::GAME_SHUTDOWN => 1,
            Exports::GAME_CLIENT_CONNECT => 2,
            Exports::GAME_CLIENT_BEGIN => 3,
            Exports::GAME_CLIENT_USERINFO_CHANGED => 4,
            Exports::GAME_CLIENT_DISCONNECT => 5,
            Exports::GAME_CLIENT_COMMAND => 6,
            Exports::GAME_CLIENT_THINK => 7,
            Exports::GAME_RUN_FRAME => 8,
            Exports::GAME_CONSOLE_COMMAND => 9,
            Exports::BOTAI_START_FRAME => 10,
        }
    }

    /// The closed-set decode: defined exactly on the eleven ABI opcodes.
    pub open spec fn spec_of_code(command: i32) -> Option<Exports> {
        if command == 0 {
            Some(Exports::GAME_INIT)
        } else if command == 1 {
            Some(Exports::GAME_SHUTDOWN)
        } else if command == 2 {
            Some(Exports::GAME_CLIENT_CONNECT)
        } else if command == 3 {
            Some(Exports::GAME_CLIENT_BEGIN)
        } else if command == 4 {
            Some(Exports::GAME_CLIENT_USERINFO_CHANGED)
        } else if command == 5 {
            Some(Exports::GAME_CLIENT_DISCONNECT)
        } else if command == 6 {
            Some(Exports::GAME_CLIENT_COMMAND)
        } else if command == 7 {
            Some(Exports::GAME_CLIENT_THINK)
        } else if command == 8 {
            Some(Exports::GAME_RUN_FRAME)
        } else if command == 9 {
            Some(Exports::GAME_CONSOLE_COMMAND)
        } else if command == 10 {
            Some(Exports::BOTAI_START_FRAME)
        } else {
            None
        }
    }

    /// The opcode this operation answers to.
    #[verifier::when_used_as_spec(spec_code)]
    pub fn code(self) -> (r: i32)
        ensures
            r == self.spec_code(),
    {
        match self {
            Exports::GAME_INIT => 0,
            Exports::GAME_SHUTDOWN => 1,
            Exports::GAME_CLIENT_CONNECT => 2,
            Exports::GAME_CLIENT_BEGIN => 3,
            Exports::GAME_CLIENT_USERINFO_CHANGED => 4,
            Exports::GAME_CLIENT_DISCONNECT => 5,
            Exports::GAME_CLIENT_COMMAND => 6,
            Exports::GAME_CLIENT_THINK => 7,
            Exports::GAME_RUN_FRAME => 8,
            Exports::GAME_CONSOLE_COMMAND => 9,
            Exports::BOTAI_START_FRAME => 10,
        }
    }

    /// Decode an opcode against the closed set. An integer outside the set
    /// is a host-protocol violation, reported with the offending opcode and
    /// never silently mapped to some operation.
    pub fn try_from(command: i32) -> (r: Result<Exports, crate::DispatchFailure>)
        ensures
            Self::spec_of_code(command) matches Some(op) ==> r == Ok::<
                Exports,
                crate::DispatchFailure,
            >(op),
            Self::spec_of_code(command) is None ==> r == Err::<Exports, crate::DispatchFailure>(
                crate::DispatchFailure::UnknownCommand(command),
            ),
    {
        match command {
            0 => Ok(Exports::GAME_INIT),
            1 => Ok(Exports::GAME_SHUTDOWN),
            2 => Ok(Exports::GAME_CLIENT_CONNECT),
            3 => Ok(Exports::GAME_CLIENT_BEGIN),
            4 => Ok(Exports::GAME_CLIENT_USERINFO_CHANGED),
            5 => Ok(Exports::GAME_CLIENT_DISCONNECT),
            6 => Ok(Exports::GAME_CLIENT_COMMAND),
            7 => Ok(Exports::GAME_CLIENT_THINK),
            8 => Ok(Exports::GAME_RUN_FRAME),
            9 => Ok(Exports::GAME_CONSOLE_COMMAND),
            10 => Ok(Exports::BOTAI_START_FRAME),
            _ => Err(crate::DispatchFailure::UnknownCommand(command)),
        }
    }
}

/// A decoded host command: the semantic operation together with its
/// arguments already reshaped into typed parameters.
///
/// Each operation reads a fixed leading prefix of the twelve raw arguments
/// the ABI always supplies; the trailing ones are dropped here. Truth-valued
/// parameters follow the ABI's reinterpretation rule: nonzero means true.
#[derive(Clone, Copy, PartialEq, Eq, Structural, Debug)]
pub enum Command {
    /// Initialize upon loading a level.
    Init { level_time: i32, random_seed: i32, restart: bool },
    /// Shut down, possibly for a restart.
    Shutdown { restart: bool },
    /// Connect or reject a client.
    ClientConnect { client_number: i32, first_time: bool, is_bot: bool },
    /// Client finished connecting.
    ClientBegin { client_number: i32 },
    /// Userinfo data for a client changed.
    ClientUserinfoChanged { client_number: i32 },
    /// Disconnect a client.
    ClientDisconnect { client_number: i32 },
    /// Client text command.
    ClientCommand { client_number: i32 },
    /// Run a client frame.
    ClientThink { client_number: i32 },
    /// Run a server frame.
    RunFrame { level_time: i32 },
    /// Server console text command.
    ConsoleCommand,
    /// Run a bot frame.
    BotaiStartFrame { level_time: i32 },
}

/// The ABI's truth reinterpretation for raw integer arguments: nonzero
/// means true.
pub open spec fn spec_truthy(arg: i32) -> bool {
    arg != 0
}

/// The fixed argument-marshaling rule of the family: which leading raw
/// arguments each operation reads, and as what.
pub open spec fn spec_marshal(op: Exports, arg0: i32, arg1: i32, arg2: i32) -> Command {
    match op {
        Exports::GAME_INIT => Command::Init {
            level_time: arg0,
            random_seed: arg1,
            restart: spec_truthy(arg2),
        },
        Exports::GAME_SHUTDOWN => Command::Shutdown { restart: spec_truthy(arg0) },
        Exports::GAME_CLIENT_CONNECT => Command::ClientConnect {
            client_number: arg0,
            first_time: spec_truthy(arg1),
            is_bot: spec_truthy(arg2),
        },
        Exports::GAME_CLIENT_BEGIN => Command::ClientBegin { client_number: arg0 },
        Exports::GAME_CLIENT_USERINFO_CHANGED => Command::ClientUserinfoChanged {
            client_number: arg0,
        },
        Exports::GAME_CLIENT_DISCONNECT => Command::ClientDisconnect { client_number: arg0 },
        Exports::GAME_CLIENT_COMMAND => Command::ClientCommand { client_number: arg0 },
        Exports::GAME_CLIENT_THINK => Command::ClientThink { client_number: arg0 },
        Exports::GAME_RUN_FRAME => Command::RunFrame { level_time: arg0 },
        Exports::GAME_CONSOLE_COMMAND => Command::ConsoleCommand,
        Exports::BOTAI_START_FRAME => Command::BotaiStartFrame { level_time: arg0 },
    }
}

/// Reshape the leading raw arguments of an operation into its typed
/// parameters, exactly as [`spec_marshal`] prescribes.
pub fn marshal(op: Exports, arg0: i32, arg1: i32, arg2: i32) -> (c: Command)
    ensures
        c == spec_marshal(op, arg0, arg1, arg2),
{
    match op {
        Exports::GAME_INIT => Command::Init {
            level_time: arg0,
            random_seed: arg1,
            restart: arg2 != 0,
        },
        Exports::GAME_SHUTDOWN => Command::Shutdown { restart: arg0 != 0 },
        Exports::GAME_CLIENT_CONNECT => Command::ClientConnect {
            client_number: arg0,
            first_time: arg1 != 0,
            is_bot: arg2 != 0,
        },
        Exports::GAME_CLIENT_BEGIN => Command::ClientBegin { client_number: arg0 },
        Exports::GAME_CLIENT_USERINFO_CHANGED => Command::ClientUserinfoChanged {
            client_number: arg0,
        },
        Exports::GAME_CLIENT_DISCONNECT => Command::ClientDisconnect { client_number: arg0 },
        Exports::GAME_CLIENT_COMMAND => Command::ClientCommand { client_number: arg0 },
        Exports::GAME_CLIENT_THINK => Command::ClientThink { client_number: arg0 },
        Exports::GAME_RUN_FRAME => Command::RunFrame { level_time: arg0 },
        Exports::GAME_CONSOLE_COMMAND => Command::ConsoleCommand,
        Exports::BOTAI_START_FRAME => Command::BotaiStartFrame { level_time: arg0 },
    }
}

/// `qagame`-specific wrapper around the generic engine callback.
pub struct Syscalls<S> {
    syscall: S,
}

impl<S: crate::Syscall> Syscalls<S> {
    /// The stored engine callback, for specification purposes.
    pub closed spec fn callback(&self) -> S {
        self.syscall
    }

    /// Wrap the callback the engine handed to the init entry point. The
    /// callback is stored unchanged and only ever invoked.
    pub fn new(syscall: S) -> (r: Self)
        ensures
            r.callback() == syscall,
    {
        Syscalls { syscall }
    }

    /// Shut the game down with an error message, through the engine's
    /// fatal-error trap.
    ///
    /// The message crosses the ABI as a C string, so it must be free of NUL
    /// bytes. The host handles this trap with a non-local jump out of the
    /// call and never returns control: this is a call that diverges, which
    /// the signature records by promising a value of an arbitrary caller-
    /// chosen type -- only a function that never returns can do that. The
    /// divergence itself is the host guarantee stated on
    /// [`crate::Syscall::call_text`] for this trap code.
    pub fn error<A>(&self, text: &[u8]) -> (r: A)
        requires
            forall|i: int| 0 <= i < text@.len() ==> text@[i] != 0u8,
    {
        let code = Imports::G_ERROR.code();
        let _ = self.syscall.call_text(code, text);
        vstd::pervasive::unreached::<A>()
    }
}

/// The typed capability contract a `qagame` module author implements
/// instead of hand-writing the raw dispatch entry point. One method per
/// operation of the closed set; [`dispatch_module`] decodes and marshals a
/// raw host call into exactly one of them.
pub trait Module<S: crate::Syscall>: 'static + Send + Sync {
    /// Construct the module, storing the wrapped engine callback.
    fn dll_entry(syscalls: Syscalls<S>) -> Box<Self> where Self: Sized;

    /// Initialize upon loading a level.
    fn init(&self, level_time: i32, random_seed: i32, restart: bool);

    /// Shut down, possibly for a restart.
    fn shutdown(&self, restart: bool);

    /// Connect or reject a client; the returned integer goes back to the
    /// host unchanged.
    fn client_connect(&self, client_number: i32, first_time: bool, is_bot: bool) -> isize;

    /// Client finished connecting.
    fn client_begin(&self, client_number: i32);

    /// Userinfo data for a client changed.
    fn client_userinfo_changed(&self, client_number: i32);

    /// Disconnect a client.
    fn client_disconnect(&self, client_number: i32);

    /// Client text command.
    fn client_command(&self, client_number: i32);

    /// Run a client frame.
    fn client_think(&self, client_number: i32);

    /// Run a server frame.
    fn run_frame(&self, level_time: i32);

    /// Server console text command; reports whether the command was
    /// consumed.
    fn console_command(&self) -> bool;

    /// Run a bot frame; reports whether bot AI ran.
    fn botai_start_frame(&self, level_time: i32) -> bool;
}

/// Whether an operation's typed result is void, so its raw result is the
/// fixed integer `0`.
pub open spec fn spec_returns_void(op: Exports) -> bool {
    match op {
        Exports::GAME_CLIENT_CONNECT => false,
        Exports::GAME_CONSOLE_COMMAND => false,
        Exports::BOTAI_START_FRAME => false,
        _ => true,
    }
}

/// The ABI's conversion of a typed truth result back into the single raw
/// integer: true is `1`, false is `0`.
pub open spec fn spec_truth_to_raw(b: bool) -> isize {
    if b {
        1
    } else {
        0
    }
}

/// Convert a truth-valued operation's typed result to its raw integer,
/// exactly as [`spec_truth_to_raw`] prescribes.
#[verifier::when_used_as_spec(spec_truth_to_raw)]
pub fn truth_to_raw(b: bool) -> (r: isize)
    ensures
        r == spec_truth_to_raw(b),
{
    if b {
        1
    } else {
        0
    }
}

/// Invoke the typed operation a decoded command names -- exactly one method
/// call per command -- and convert the typed result back to the single raw
/// integer the ABI requires: void becomes `0`, a truth value becomes `0` or
/// `1`, an integer passes through unchanged.
pub fn run_command<S: crate::Syscall, M: Module<S>>(module: &M, command: Command) -> (r: isize)
    ensures
        !(command is ClientConnect) && !(command is ConsoleCommand) && !(command
            is BotaiStartFrame) ==> r == 0,
        command is ConsoleCommand || command is BotaiStartFrame ==> exists|b: bool|
            r == spec_truth_to_raw(b),
{
    match command {
        Command::Init { level_time, random_seed, restart } => {
            module.init(level_time, random_seed, restart);
            0
        },
        Command::Shutdown { restart } => {
            module.shutdown(restart);
            0
        },
        Command::ClientConnect { client_number, first_time, is_bot } => module.client_connect(
            client_number,
            first_time,
            is_bot,
        ),
        Command::ClientBegin { client_number } => {
            module.client_begin(client_number);
            0
        },
        Command::ClientUserinfoChanged { client_number } => {
            module.client_userinfo_changed(client_number);
            0
        },
        Command::ClientDisconnect { client_number } => {
            module.client_disconnect(client_number);
            0
        },
        Command::ClientCommand { client_number } => {
            module.client_command(client_number);
            0
        },
        Command::ClientThink { client_number } => {
            module.client_think(client_number);
            0
        },
        Command::RunFrame { level_time } => {
            module.run_frame(level_time);
            0
        },
        Command::ConsoleCommand => truth_to_raw(module.console_command()),
        Command::BotaiStartFrame { level_time } => truth_to_raw(
            module.botai_start_frame(level_time),
        ),
    }
}

/// The family's opcode dispatcher: decode the opcode against the closed
/// set, marshal the leading arguments, invoke the one typed operation and
/// convert its result back.
///
/// An opcode outside the closed set is handed back as the protocol
/// violation [`crate::DispatchFailure::UnknownCommand`] carrying the
/// offending opcode -- never a silently made-up result. Every opcode of the
/// closed set is wired to an operation here, so dispatch itself never
/// reports [`crate::DispatchFailure::NotImplemented`]; that outcome is
/// reserved for module implementations with gaps.
pub fn dispatch_module<S: crate::Syscall, M: Module<S>>(
    module: &M,
    command: i32,
    arg0: i32,
    arg1: i32,
    arg2: i32,
    arg3: i32,
    arg4: i32,
    arg5: i32,
    arg6: i32,
    arg7: i32,
    arg8: i32,
    arg9: i32,
    arg10: i32,
    arg11: i32,
) -> (r: Result<isize, crate::DispatchFailure>)
    ensures
        Exports::spec_of_code(command) is None <==> r == Err::<isize, crate::DispatchFailure>(
            crate::DispatchFailure::UnknownCommand(command),
        ),
        Exports::spec_of_code(command) is Some ==> r is Ok,
        Exports::spec_of_code(command) matches Some(op) && spec_returns_void(op) ==> r == Ok::<
            isize,
            crate::DispatchFailure,
        >(0),
        Exports::spec_of_code(command) matches Some(op) && (op == Exports::GAME_CONSOLE_COMMAND
            || op == Exports::BOTAI_START_FRAME) ==> (r matches Ok(v) && exists|b: bool|
            v == spec_truth_to_raw(b)),
{
    match Exports::try_from(command) {
        Ok(op) => {
            let typed = marshal(op, arg0, arg1, arg2);
            Ok(run_command(module, typed))
        },
        Err(failure) => Err(failure),
    }
}

/// Adapts a typed [`Module`] implementation to the raw dispatch contract
/// [`crate::NativeVM`]: construction wraps the engine callback in
/// [`Syscalls`], and every raw host call goes through [`dispatch_module`].
pub struct ModuleWrapper<M> {
    module: Box<M>,
}

impl<S: crate::Syscall, M: Module<S>> crate::NativeVM<S> for ModuleWrapper<M> {
    fn dll_entry(syscall: S) -> Box<Self> {
        Box::new(ModuleWrapper { module: M::dll_entry(Syscalls::new(syscall)) })
    }

    fn vm_main(
        &self,
        command: i32,
        arg0: i32,
        arg1: i32,
        arg2: i32,
        arg3: i32,
        arg4: i32,
        arg5: i32,
        arg6: i32,
        arg7: i32,
        arg8: i32,
        arg9: i32,
        arg10: i32,
        arg11: i32,
    ) -> (r: Result<isize, crate::DispatchFailure>)
        ensures
            Exports::spec_of_code(command) is None <==> r == Err::<isize, crate::DispatchFailure>(
                crate::DispatchFailure::UnknownCommand(command),
            ),
            Exports::spec_of_code(command) is Some ==> r is Ok,
            Exports::spec_of_code(command) matches Some(op) && spec_returns_void(op) ==> r
                == Ok::<isize, crate::DispatchFailure>(0),
            Exports::spec_of_code(command) matches Some(op) && (op
                == Exports::GAME_CONSOLE_COMMAND || op == Exports::BOTAI_START_FRAME) ==> (
            r matches Ok(v) && exists|b: bool| v == spec_truth_to_raw(b)),
    {
        dispatch_module(
            &*self.module,
            command,
            arg0,
            arg1,
            arg2,
            arg3,
            arg4,
            arg5,
            arg6,
            arg7,
            arg8,
            arg9,
            arg10,
            arg11,
        )
    }
}

/// Law: the opcode table and the closed-set decode are mutual inverses, so
/// no opcode in the closed set can silently stand for two operations and no
/// operation can be reached from an opcode other than its own.
pub proof fn lemma_opcode_table_inverse(op: Exports, command: i32)
    ensures
        Exports::spec_of_code(op.spec_code()) == Some(op),
        Exports::spec_of_code(command) matches Some(decoded) ==> decoded.spec_code() == command,
{
}

} // verus!
