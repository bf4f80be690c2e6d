//! The singleton registry and the ABI trampoline's decisions.
//!
//! The module-loading protocol has no notion of an instance handle, so the
//! one live module instance lives in a process-wide slot: written exactly
//! once by the init entry point, read by every dispatch call afterwards.
//! [`Registry`] is that slot with its lifecycle law -- one writer
//! transition, never back to empty, a second write rejected -- and
//! [`trampoline_init`] / [`trampoline_dispatch`] are the decisions the two
//! exported entry points take. The unverified shell contributes only what
//! cannot stand here: the `static` cell holding the registry and the lock
//! that makes the single write exclusive; every read goes through the
//! shared borrow [`Registry::get`], so concurrent dispatch calls are never
//! serialized against each other.

use vstd::prelude::*;

verus! {

/// A host-protocol lifecycle violation at one of the two entry points.
#[derive(Clone, Copy, PartialEq, Eq, Structural, Debug)]
pub enum LifecycleError {
    /// Dispatch was called before init stored an instance. Fatal for the
    /// process: an instance cannot be conjured, and a silent default result
    /// would be indistinguishable from a meaningful one.
    NotInitialized,
    /// Init was called a second time. The policy here is to reject the
    /// second call and keep the first instance: a library receiving two
    /// independent init calls indicates a host-protocol bug.
    AlreadyInitialized,
}

/// The process-wide singleton slot: empty until the one write, then holding
/// the single live module instance for the rest of the process's life.
pub struct Registry<T> {
    slot: Option<T>,
}

impl<T> Registry<T> {
    /// The instance the slot holds, if any.
    pub closed spec fn instance(&self) -> Option<T> {
        self.slot
    }

    /// The empty slot. Constructing it takes no process-startup ordering,
    /// so the shell may create it lazily on first touch.
    pub fn new() -> (r: Self)
        ensures
            r.instance() is None,
    {
        Registry { slot: None }
    }

    /// Whether the writer transition has happened.
    pub fn is_initialized(&self) -> (b: bool)
        ensures
            b == (self.instance() is Some),
    {
        match &self.slot {
            Some(_) => true,
            None => false,
        }
    }

    /// The one writer transition. An empty slot accepts the instance and
    /// holds it from then on; a filled slot is never overwritten -- the
    /// rejected instance comes back to the caller and the slot keeps what
    /// it held.
    pub fn set(&mut self, instance: T) -> (r: Result<(), T>)
        ensures
            old(self).instance() is None ==> final(self).instance() == Some(instance) && r
                is Ok,
            old(self).instance() is Some ==> final(self).instance() == old(self).instance() && (
            r matches Err(rejected) && rejected == instance),
    {
        match &self.slot {
            Some(_) => Err(instance),
            None => {
                self.slot = Some(instance);
                Ok(())
            },
        }
    }

    /// A reader's view of the slot: the one instance, by shared borrow, or
    /// the loud failure if the writer transition has not happened. Never a
    /// silent default.
    pub fn get(&self) -> (r: Result<&T, LifecycleError>)
        ensures
            self.instance() matches Some(instance) ==> (r matches Ok(t) && *t == instance),
            self.instance() is None ==> (r matches Err(e) && e == LifecycleError::NotInitialized),
    {
        match &self.slot {
            Some(t) => Ok(t),
            None => Err(LifecycleError::NotInitialized),
        }
    }
}

/// Law: all readers of one registry state observe one and the same fully
/// constructed instance. [`Registry::get`] pins any successful read to the
/// single stored instance, and it reads through a shared borrow, so
/// arbitrarily many dispatch calls may hold such reads concurrently; any
/// two of them agree.
pub proof fn lemma_concurrent_readers_agree<T>(reg: Registry<T>, a: T, b: T)
    requires
        reg.instance() matches Some(i) && a == i,
        reg.instance() matches Some(j) && b == j,
    ensures
        a == b,
{
}

/// The decision of the init entry point: construct the module instance via
/// the capability contract, passing the host callback through unchanged,
/// and perform the registry's one writer transition. A second call is
/// rejected and leaves the stored instance untouched.
pub fn trampoline_init<S: crate::Syscall, V: crate::NativeVM<S>>(
    reg: &mut Registry<V>,
    syscall: S,
) -> (r: Result<(), LifecycleError>)
    ensures
        old(reg).instance() is None ==> r is Ok && final(reg).instance() is Some,
        old(reg).instance() is Some ==> final(reg).instance() == old(reg).instance() && (
        r matches Err(e) && e == LifecycleError::AlreadyInitialized),
{
    if reg.is_initialized() {
        Err(LifecycleError::AlreadyInitialized)
    } else {
        let instance: Box<V> = V::dll_entry(syscall);
        let _ = reg.set(*instance);
        Ok(())
    }
}

/// Why the dispatch entry point could not hand a result back to the host.
/// Every variant is fatal for the process; the shell terminates with the
/// matching diagnostic.
#[derive(Clone, Copy, PartialEq, Eq, Structural, Debug)]
pub enum TrampolineFailure {
    /// Dispatch before init: a host-protocol violation.
    NotInitialized,
    /// The instance was there but dispatch failed; the payload says how.
    Module(crate::DispatchFailure),
}

/// The decision of the dispatch entry point: read the one instance from the
/// registry and forward the opcode and all twelve arguments to its dispatch
/// method verbatim, returning its result unchanged. No opcode semantics
/// live here. Dispatch before init fails loudly, never with a default
/// result.
pub fn trampoline_dispatch<S: crate::Syscall, V: crate::NativeVM<S>>(
    reg: &Registry<V>,
    command: i32,
    arg0: i32,
    arg1: i32,
    arg2: i32,
    arg3: i32,
    arg4: i32,
    arg5: i32,
    arg6: i32,
    arg7: i32,
    arg8: i32,
    arg9: i32,
    arg10: i32,
    arg11: i32,
) -> (r: Result<isize, TrampolineFailure>)
    ensures
        reg.instance() is None <==> (r matches Err(f) && f == TrampolineFailure::NotInitialized),
{
    match reg.get() {
        Err(_) => Err(TrampolineFailure::NotInitialized),
        Ok(instance) => {
            match instance.vm_main(
                command,
                arg0,
                arg1,
                arg2,
                arg3,
                arg4,
                arg5,
                arg6,
                arg7,
                arg8,
                arg9,
                arg10,
                arg11,
            ) {
                Ok(result) => Ok(result),
                Err(failure) => Err(TrampolineFailure::Module(failure)),
            }
        },
    }
}

} // verus!
