//! The library-proxy lifecycle: a module that relays to a second library.
//!
//! A proxy module implements the module-loading contract not by executing
//! logic itself but by loading a second shared library at construction
//! time, resolving the two fixed-name entry symbols inside it, forwarding
//! its own init call to the target before construction completes, and then
//! relaying every dispatch call verbatim.
//!
//! The OS dynamic loader and the resolved symbols cannot stand in verified
//! code, so the lifecycle is split: every decision is taken here, by the
//! pure transition [`spec_step`] and its executable form
//! [`LibraryProxy::step`], while the unverified shell around it performs
//! each returned [`ProxyAction`] (mapping the library, resolving a symbol,
//! calling through it) and reports what happened as the next
//! [`ProxyEvent`]. The shell owns the loaded library handle for the whole
//! life of the proxy and resolves symbols against that one handle, so no
//! resolved symbol can outlive the image it points into.
//!
//! The callback type `C` is carried through untouched: the machine moves
//! the host callback from the construction event into the forwarded init
//! call and never inspects it.

use vstd::prelude::*;

verus! {

/// The two entry symbols the module-loading protocol fixes by name inside
/// every loadable module, the proxy's target included.
#[derive(Clone, Copy, PartialEq, Eq, Structural, Debug)]
pub enum ProxySymbol {
    /// The initialization entry point.
    DllEntry,
    /// The dispatch entry point.
    VmMain,
}

/// Why the proxy cannot serve. Every variant is fatal: a proxy with a
/// missing or half-resolved target must terminate the process rather than
/// stand as a usable-but-broken instance.
#[derive(Clone, Copy, PartialEq, Eq, Structural, Debug)]
pub enum ProxyError {
    /// The target library could not be loaded by its path.
    LibraryNotFound,
    /// The target library lacks one of the two fixed-name entry symbols.
    SymbolNotFound(ProxySymbol),
    /// An event arrived that the current lifecycle state does not allow,
    /// e.g. a dispatch before construction completed.
    ProtocolViolation,
}

/// One raw dispatch call as the ABI hands it over: an opcode and twelve
/// integer arguments, meaning unknown to the proxy.
#[derive(Clone, Copy, PartialEq, Eq, Structural, Debug)]
pub struct DispatchCall {
    pub command: i32,
    pub arg0: i32,
    pub arg1: i32,
    pub arg2: i32,
    pub arg3: i32,
    pub arg4: i32,
    pub arg5: i32,
    pub arg6: i32,
    pub arg7: i32,
    pub arg8: i32,
    pub arg9: i32,
    pub arg10: i32,
    pub arg11: i32,
}

/// What the surrounding shell reports to the proxy machine.
#[derive(Clone, Copy, PartialEq, Eq, Debug)]
pub enum ProxyEvent<C> {
    /// The proxy's own construction began: the outcome of loading the
    /// target library and looking up its two entry symbols, together with
    /// the callback the proxy itself received from the host.
    BeginConstruct {
        library_found: bool,
        entry_found: bool,
        dispatch_found: bool,
        callback: C,
    },
    /// The forwarded init call into the target returned.
    InitForwarded,
    /// The host asked the proxy to dispatch a call.
    DispatchRequested { call: DispatchCall },
    /// The target's dispatch entry point returned a result.
    DispatchReturned { result: isize },
}

/// What the proxy machine asks the surrounding shell to perform next.
#[derive(Clone, Copy, PartialEq, Eq, Debug)]
pub enum ProxyAction<C> {
    /// Call the target's init symbol with exactly this callback.
    ForwardInit { callback: C },
    /// Call the target's dispatch symbol with exactly this call.
    ForwardDispatch { call: DispatchCall },
    /// Hand this result back to the host unchanged.
    ReturnResult { result: isize },
    /// Construction is complete; the proxy is loaded and idle.
    ConstructionComplete,
    /// Fatal: terminate the process with this error's diagnostic.
    Abort { error: ProxyError },
}

/// The proxy's lifecycle states. The only transition the protocol admits is
/// unloaded to loaded, exactly once, during the proxy's own construction;
/// there is no unload transition.
#[derive(Clone, Copy, PartialEq, Eq, Structural, Debug)]
pub enum ProxyState {
    /// No target library loaded yet.
    Unloaded,
    /// The target is mapped and both symbols resolved; the forwarded init
    /// call has been issued and has not returned yet.
    Initializing,
    /// The target's init ran; the proxy relays dispatch calls from now on,
    /// for the rest of its life.
    Loaded,
    /// A dispatch call has been handed to the target; its result is owed
    /// to the host.
    Forwarding,
    /// Construction or use failed; the proxy must never serve.
    Failed { error: ProxyError },
}

/// The proxy's entire decision logic, as one total transition function
/// from state and event to successor state and action for the shell.
pub open spec fn spec_step<C>(state: ProxyState, event: ProxyEvent<C>) -> (ProxyState, ProxyAction<
    C,
>) {
    match (state, event) {
        (
            ProxyState::Unloaded,
            ProxyEvent::BeginConstruct { library_found, entry_found, dispatch_found, callback },
        ) => {
            if !library_found {
                (
                    ProxyState::Failed { error: ProxyError::LibraryNotFound },
                    ProxyAction::Abort { error: ProxyError::LibraryNotFound },
                )
            } else if !entry_found {
                (
                    ProxyState::Failed {
                        error: ProxyError::SymbolNotFound(ProxySymbol::DllEntry),
                    },
                    ProxyAction::Abort { error: ProxyError::SymbolNotFound(ProxySymbol::DllEntry) },
                )
            } else if !dispatch_found {
                (
                    ProxyState::Failed { error: ProxyError::SymbolNotFound(ProxySymbol::VmMain) },
                    ProxyAction::Abort { error: ProxyError::SymbolNotFound(ProxySymbol::VmMain) },
                )
            } else {
                (ProxyState::Initializing, ProxyAction::ForwardInit { callback })
            }
        },
        (ProxyState::Initializing, ProxyEvent::InitForwarded) => (
            ProxyState::Loaded,
            ProxyAction::ConstructionComplete,
        ),
        (ProxyState::Loaded, ProxyEvent::DispatchRequested { call }) => (
            ProxyState::Forwarding,
            ProxyAction::ForwardDispatch { call },
        ),
        (ProxyState::Forwarding, ProxyEvent::DispatchReturned { result }) => (
            ProxyState::Loaded,
            ProxyAction::ReturnResult { result },
        ),
        (ProxyState::Failed { error }, _) => (
            ProxyState::Failed { error },
            ProxyAction::Abort { error },
        ),
        (_, _) => (
            ProxyState::Failed { error: ProxyError::ProtocolViolation },
            ProxyAction::Abort { error: ProxyError::ProtocolViolation },
        ),
    }
}

/// The executable proxy machine: holds the lifecycle state and takes every
/// decision exactly as [`spec_step`] prescribes.
pub struct LibraryProxy {
    state: ProxyState,
}

impl LibraryProxy {
    /// The current lifecycle state.
    pub closed spec fn state(&self) -> ProxyState {
        self.state
    }

    /// A fresh proxy: nothing loaded.
    pub fn new() -> (r: Self)
        ensures
            r.state() == ProxyState::Unloaded,
    {
        LibraryProxy { state: ProxyState::Unloaded }
    }

    /// Feed one event from the shell through the machine and get the next
    /// action to perform.
    pub fn step<C>(&mut self, event: ProxyEvent<C>) -> (action: ProxyAction<C>)
        ensures
            (final(self).state(), action) == spec_step(old(self).state(), event),
    {
        let current = self.state;
        match (current, event) {
            (
                ProxyState::Unloaded,
                ProxyEvent::BeginConstruct { library_found, entry_found, dispatch_found, callback },
            ) => {
                if !library_found {
                    self.state = ProxyState::Failed { error: ProxyError::LibraryNotFound };
                    ProxyAction::Abort { error: ProxyError::LibraryNotFound }
                } else if !entry_found {
                    self.state = ProxyState::Failed {
                        error: ProxyError::SymbolNotFound(ProxySymbol::DllEntry),
                    };
                    ProxyAction::Abort { error: ProxyError::SymbolNotFound(ProxySymbol::DllEntry) }
                } else if !dispatch_found {
                    self.state = ProxyState::Failed {
                        error: ProxyError::SymbolNotFound(ProxySymbol::VmMain),
                    };
                    ProxyAction::Abort { error: ProxyError::SymbolNotFound(ProxySymbol::VmMain) }
                } else {
                    self.state = ProxyState::Initializing;
                    ProxyAction::ForwardInit { callback }
                }
            },
            (ProxyState::Initializing, ProxyEvent::InitForwarded) => {
                self.state = ProxyState::Loaded;
                ProxyAction::ConstructionComplete
            },
            (ProxyState::Loaded, ProxyEvent::DispatchRequested { call }) => {
                self.state = ProxyState::Forwarding;
                ProxyAction::ForwardDispatch { call }
            },
            (ProxyState::Forwarding, ProxyEvent::DispatchReturned { result }) => {
                self.state = ProxyState::Loaded;
                ProxyAction::ReturnResult { result }
            },
            (ProxyState::Failed { error }, _) => {
                self.state = ProxyState::Failed { error };
                ProxyAction::Abort { error }
            },
            (_, _) => {
                self.state = ProxyState::Failed { error: ProxyError::ProtocolViolation };
                ProxyAction::Abort { error: ProxyError::ProtocolViolation }
            },
        }
    }
}

/// Law: constructing a proxy against a valid target forwards the proxy's
/// own callback -- the very value it received, unchanged -- into the
/// target's init, and that is the only way the machine ever asks for an
/// init call; construction completes (the machine reaches its loaded
/// state for the first time) only after that forwarded init has returned.
pub proof fn lemma_init_forwarded_before_loaded<C>(state: ProxyState, event: ProxyEvent<C>)
    ensures
        spec_step(state, event).1 matches ProxyAction::ForwardInit { callback } ==> state
            == ProxyState::Unloaded && (event matches ProxyEvent::BeginConstruct {
            library_found: true,
            entry_found: true,
            dispatch_found: true,
            callback: received,
        } && callback == received) && spec_step(state, event).0 == ProxyState::Initializing,
        spec_step(state, event).0 == ProxyState::Loaded && state != ProxyState::Loaded && state
            != ProxyState::Forwarding ==> (state == ProxyState::Initializing && event
            == ProxyEvent::<C>::InitForwarded),
{
}

/// The state a whole event history leaves a fresh machine in, together
/// with the actions it asked the shell to perform along the way.
pub open spec fn spec_run<C>(events: Seq<ProxyEvent<C>>) -> (ProxyState, Seq<ProxyAction<C>>)
    decreases events.len(),
{
    if events.len() == 0 {
        (ProxyState::Unloaded, Seq::empty())
    } else {
        let prior = spec_run(events.drop_last());
        let stepped = spec_step(prior.0, events.last());
        (stepped.0, prior.1.push(stepped.1))
    }
}

/// How many of a history's actions call into the target's init symbol.
pub open spec fn spec_count_init_forwards<C>(actions: Seq<ProxyAction<C>>) -> int
    decreases actions.len(),
{
    if actions.len() == 0 {
        0
    } else {
        spec_count_init_forwards(actions.drop_last()) + (
        if actions.last() matches ProxyAction::ForwardInit { .. } {
            1int
        } else {
            0int
        })
    }
}

/// Law: over any event history whatsoever, a fresh proxy machine asks for
/// the target's init to be called at most once; while nothing is loaded it
/// has asked for none, and in every working state -- construction under
/// way, loaded, or forwarding a dispatch -- it has asked for exactly one.
/// The target's init can therefore never run twice through one proxy.
pub proof fn lemma_one_init_per_construction<C>(events: Seq<ProxyEvent<C>>)
    ensures
        spec_count_init_forwards(spec_run(events).1) <= 1,
        spec_run(events).0 == ProxyState::Unloaded ==> spec_count_init_forwards(
            spec_run(events).1,
        ) == 0,
        spec_run(events).0 == ProxyState::Initializing || spec_run(events).0 == ProxyState::Loaded
            || spec_run(events).0 == ProxyState::Forwarding ==> spec_count_init_forwards(
            spec_run(events).1,
        ) == 1,
    decreases events.len(),
{
    if events.len() > 0 {
        let prefix = events.drop_last();
        lemma_one_init_per_construction(prefix);
        let prior = spec_run(prefix);
        let stepped = spec_step(prior.0, events.last());
        assert(spec_run(events) == (stepped.0, prior.1.push(stepped.1)));
        assert(prior.1.push(stepped.1).drop_last() =~= prior.1);
        assert(prior.1.push(stepped.1).last() == stepped.1);
    }
}

/// Law: the proxy is a pure relay. A dispatch request is forwarded with
/// the opcode and all twelve arguments unchanged, and the target's result
/// is handed back unchanged -- so dispatching a call through the proxy
/// yields exactly what dispatching the same call directly against the
/// target library yields.
pub proof fn lemma_pure_relay<C>(call: DispatchCall, result: isize)
    ensures
        spec_step::<C>(ProxyState::Loaded, ProxyEvent::DispatchRequested { call }) == (
            ProxyState::Forwarding,
            ProxyAction::<C>::ForwardDispatch { call },
        ),
        spec_step::<C>(ProxyState::Forwarding, ProxyEvent::DispatchReturned { result }) == (
            ProxyState::Loaded,
            ProxyAction::<C>::ReturnResult { result },
        ),
{
}

/// Law: a missing target library or missing entry symbol fails
/// construction fatally, with the error naming what was missing; no init
/// is forwarded into the target and no usable state is reached. A
/// failed proxy never serves afterwards -- every later event aborts with
/// the error first diagnosed, and no event ever takes a failed machine to a
/// usable state.
pub proof fn lemma_missing_target_is_fatal<C>(event: ProxyEvent<C>, error: ProxyError)
    ensures
        event matches ProxyEvent::BeginConstruct { library_found: false, .. } ==> spec_step(
            ProxyState::Unloaded,
            event,
        ).0 == (ProxyState::Failed { error: ProxyError::LibraryNotFound }),
        event matches ProxyEvent::BeginConstruct {
            library_found: true,
            entry_found: false,
            ..
        } ==> spec_step(ProxyState::Unloaded, event).0 == (ProxyState::Failed {
            error: ProxyError::SymbolNotFound(ProxySymbol::DllEntry),
        }),
        event matches ProxyEvent::BeginConstruct {
            library_found: true,
            entry_found: true,
            dispatch_found: false,
            ..
        } ==> spec_step(ProxyState::Unloaded, event).0 == (ProxyState::Failed {
            error: ProxyError::SymbolNotFound(ProxySymbol::VmMain),
        }),
        (event matches ProxyEvent::BeginConstruct {
            library_found: lf,
            entry_found: ef,
            dispatch_found: df,
            ..
        } && !(lf && ef && df)) ==> !(spec_step(ProxyState::Unloaded, event).1 is ForwardInit)
            && !(spec_step(ProxyState::Unloaded, event).0 is Initializing) && !(spec_step(
            ProxyState::Unloaded,
            event,
        ).0 is Loaded),
        spec_step(ProxyState::Failed { error }, event) == (
            ProxyState::Failed { error },
            ProxyAction::<C>::Abort { error },
        ),
{
}

} // verus!
