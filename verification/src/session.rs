//! One session: configure, link, instantiate, run, tear down.

use crate::adapter::{AdapterView, AuditRecord, InterfaceAdapter};
use crate::engine::{
    build_engine, compile_component, default_config, set_async_support, set_component_model,
};
use crate::error::BridgeError;
use crate::table::Handle;
use vstd::prelude::*;

verus! {

/// The engine options that matter to a session.
#[derive(Clone, Copy, Debug, PartialEq, Eq, Structural)]
pub struct EngineOptions {
    /// Whether the engine links modules as components.
    pub component_model: bool,
    /// Whether the engine lets a call suspend its caller.
    pub async_support: bool,
}

impl EngineOptions {
    /// A session needs both: components, and calls that can suspend.
    pub open spec fn carries_bridge(self) -> bool {
        self.component_model && self.async_support
    }

    /// The options every session is built with.
    pub fn for_bridge() -> (options: EngineOptions)
        ensures
            options.carries_bridge(),
            options == (EngineOptions { component_model: true, async_support: true }),
    {
        EngineOptions { component_model: true, async_support: true }
    }
}

/// What the guest's entry point reported when it returned.
#[derive(Clone, Copy, Debug, PartialEq, Eq, Structural)]
pub enum GuestExit {
    Success,
    Failure,
}

/// How a session ended.
#[derive(Clone, Copy, Debug, PartialEq, Eq, Structural)]
pub enum Outcome {
    /// The guest's entry point returned and reported success.
    Completed,
    /// The guest's entry point returned and reported failure.
    GuestFailed,
    /// A fatal error ended the session.
    Failed(BridgeError),
    /// The host cancelled the session.
    Cancelled,
}

impl Outcome {
    /// The exit status that the host process reports for this outcome: zero
    /// for a guest that reported success, and one for everything else.
    pub open spec fn exit_code(self) -> u8 {
        if self is Completed {
            0
        } else {
            1
        }
    }
}

/// Where a session stands.
#[derive(Clone, Copy, Debug, PartialEq, Eq, Structural)]
pub enum Phase {
    /// The engine stands, with its options fixed.
    Configured,
    /// Every adapter and capability shim is registered.
    Linked,
    /// The guest module is loaded and instantiated.
    Instantiated,
    /// The guest's entry point is executing.
    Running,
    /// The session is over, and no object of it is left.
    Terminated(Outcome),
}

/// What the driver of a session reports to it.
#[derive(Clone, Copy, Debug, PartialEq, Eq, Structural)]
pub enum Event {
    /// Every adapter and capability shim was registered.
    ProvidersRegistered,
    /// A registration failed, or a declared import has no provider.
    ProviderMissing,
    /// The guest module was instantiated.
    ModuleInstantiated,
    /// The module's bytes were malformed, or an import stayed unmet.
    ModuleRejected,
    /// The guest's entry point was invoked.
    GuestEntered,
    /// The guest's entry point returned.
    GuestReturned(GuestExit),
    /// The guest faulted.
    GuestTrapped,
    /// The host gave the session up.
    Cancelled,
}

/// What the driver of a session has to do next.
#[derive(Clone, Copy, Debug, PartialEq, Eq, Structural)]
pub enum Action {
    /// Register every adapter and capability shim.
    Link,
    /// Load the guest module and instantiate it.
    Instantiate,
    /// Invoke the guest's entry point.
    Enter,
    /// Wait for the guest's entry point to return.
    Await,
    /// Leave, with this exit status.
    Exit(u8),
}

impl Phase {
    /// The phase that follows when the driver reports `event`. An event that
    /// the phase does not expect changes nothing, and nothing follows
    /// `Terminated`.
    pub open spec fn after(self, event: Event) -> Phase {
        match (self, event) {
            (Phase::Terminated(_), _) => self,
            (_, Event::Cancelled) => Phase::Terminated(Outcome::Cancelled),
            (Phase::Configured, Event::ProvidersRegistered) => Phase::Linked,
            (Phase::Configured, Event::ProviderMissing) => Phase::Terminated(
                Outcome::Failed(BridgeError::Link),
            ),
            (Phase::Linked, Event::ModuleInstantiated) => Phase::Instantiated,
            (Phase::Linked, Event::ModuleRejected) => Phase::Terminated(
                Outcome::Failed(BridgeError::Instantiation),
            ),
            (Phase::Instantiated, Event::GuestEntered) => Phase::Running,
            (Phase::Running, Event::GuestReturned(GuestExit::Success)) => Phase::Terminated(
                Outcome::Completed,
            ),
            (Phase::Running, Event::GuestReturned(GuestExit::Failure)) => Phase::Terminated(
                Outcome::GuestFailed,
            ),
            (Phase::Running, Event::GuestTrapped) => Phase::Terminated(
                Outcome::Failed(BridgeError::GuestTrap),
            ),
            _ => self,
        }
    }

    /// What the driver has to do in this phase.
    pub open spec fn action(self) -> Action {
        match self {
            Phase::Configured => Action::Link,
            Phase::Linked => Action::Instantiate,
            Phase::Instantiated => Action::Enter,
            Phase::Running => Action::Await,
            Phase::Terminated(outcome) => Action::Exit(outcome.exit_code()),
        }
    }
}

/// The phase that follows `phase` when the driver reports `event`.
pub fn next_phase(phase: Phase, event: Event) -> (next: Phase)
    ensures
        next == phase.after(event),
{
    match (phase, event) {
        (Phase::Terminated(_), _) => phase,
        (_, Event::Cancelled) => Phase::Terminated(Outcome::Cancelled),
        (Phase::Configured, Event::ProvidersRegistered) => Phase::Linked,
        (Phase::Configured, Event::ProviderMissing) => Phase::Terminated(
            Outcome::Failed(BridgeError::Link),
        ),
        (Phase::Linked, Event::ModuleInstantiated) => Phase::Instantiated,
        (Phase::Linked, Event::ModuleRejected) => Phase::Terminated(
            Outcome::Failed(BridgeError::Instantiation),
        ),
        (Phase::Instantiated, Event::GuestEntered) => Phase::Running,
        (Phase::Running, Event::GuestReturned(GuestExit::Success)) => Phase::Terminated(
            Outcome::Completed,
        ),
        (Phase::Running, Event::GuestReturned(GuestExit::Failure)) => Phase::Terminated(
            Outcome::GuestFailed,
        ),
        (Phase::Running, Event::GuestTrapped) => Phase::Terminated(
            Outcome::Failed(BridgeError::GuestTrap),
        ),
        _ => phase,
    }
}

/// The exit status that the host process reports for `outcome`.
pub fn exit_code(outcome: Outcome) -> (code: u8)
    ensures
        code == outcome.exit_code(),
{
    match outcome {
        Outcome::Completed => 0,
        _ => 1,
    }
}

/// What the driver has to do in `phase`.
pub fn action_of(phase: Phase) -> (action: Action)
    ensures
        action == phase.action(),
{
    match phase {
        Phase::Configured => Action::Link,
        Phase::Linked => Action::Instantiate,
        Phase::Instantiated => Action::Enter,
        Phase::Running => Action::Await,
        Phase::Terminated(outcome) => Action::Exit(exit_code(outcome)),
    }
}

/// What a session is, seen from outside.
pub struct SessionView {
    pub phase: Phase,
    pub adapter: AdapterView,
}

impl SessionView {
    /// A session that has just been configured.
    pub open spec fn configured() -> SessionView {
        SessionView { phase: Phase::Configured, adapter: AdapterView::empty() }
    }

    /// What holds of a session at every moment: its table is well formed, and
    /// holds objects only while the guest runs.
    pub open spec fn wf(self) -> bool {
        &&& self.adapter.table.wf()
        &&& !(self.phase is Running) ==> self.adapter.table.live == Map::<Handle, u32>::empty()
    }

    /// The session after the driver reported `event`. Whatever ends the
    /// session releases every object that is still live.
    pub open spec fn step(self, event: Event) -> SessionView {
        let phase = self.phase.after(event);
        if phase is Terminated && !(self.phase is Terminated) {
            SessionView { phase, adapter: self.adapter.release_all() }
        } else {
            SessionView { phase, adapter: self.adapter }
        }
    }

    /// The session after it failed with `error`, unless it was over already.
    pub open spec fn fail(self, error: BridgeError) -> SessionView {
        if self.phase is Terminated {
            self
        } else {
            SessionView {
                phase: Phase::Terminated(Outcome::Failed(error)),
                adapter: self.adapter.release_all(),
            }
        }
    }

    /// What `new` answers: guest calls are served only while the guest runs.
    pub open spec fn new_reply(self) -> Result<Handle, BridgeError> {
        if self.phase is Running {
            self.adapter.new_reply()
        } else {
            Err(BridgeError::GuestTrap)
        }
    }

    /// The session after `new(value)`.
    pub open spec fn new(self, value: u32) -> SessionView {
        if self.phase is Running {
            SessionView { phase: self.phase, adapter: self.adapter.new(value) }
        } else {
            self
        }
    }

    /// The session after `set(handle, value)`.
    pub open spec fn set(self, handle: Handle, value: u32) -> SessionView {
        SessionView { phase: self.phase, adapter: self.adapter.set(handle, value) }
    }

    /// The session after `drop(handle)`.
    pub open spec fn drop(self, handle: Handle) -> SessionView {
        SessionView { phase: self.phase, adapter: self.adapter.drop(handle) }
    }
}

/// A session: the engine, the adapter through which the guest reaches its
/// host's objects, and the phase the session is in.
pub struct SandboxSession {
    engine: wasmtime::Engine,
    adapter: InterfaceAdapter,
    phase: Phase,
}

impl View for SandboxSession {
    type V = SessionView;

    closed spec fn view(&self) -> SessionView {
        SessionView { phase: self.phase, adapter: self.adapter@ }
    }
}

impl SandboxSession {
    /// The engine this session was built on. It stays the same engine for as
    /// long as the session lasts.
    pub closed spec fn built_on(&self) -> wasmtime::Engine {
        self.engine
    }

    /// Builds an engine with `options` and a session on it. Options that
    /// cannot carry a session are refused before any engine is built; an
    /// engine that cannot be built is a configuration error too.
    pub fn configure(options: EngineOptions) -> (result: Result<SandboxSession, BridgeError>)
        ensures
            !options.carries_bridge() ==> result is Err,
            match result {
                Ok(session) => session@ == SessionView::configured(),
                Err(error) => error == BridgeError::Configuration,
            },
    {
        if !(options.component_model && options.async_support) {
            return Err(BridgeError::Configuration);
        }
        let mut config = default_config();
        set_component_model(&mut config, options.component_model);
        set_async_support(&mut config, options.async_support);
        SandboxSession::with_engine(options, build_engine(&config))
    }

    /// The session on the engine that was built with `options`, if one was.
    pub fn with_engine(
        options: EngineOptions,
        built: Result<wasmtime::Engine, anyhow::Error>,
    ) -> (result: Result<SandboxSession, BridgeError>)
        ensures
            result is Ok <==> options.carries_bridge() && built is Ok,
            match result {
                Ok(session) => session@ == SessionView::configured() && built == Ok::<
                    wasmtime::Engine,
                    anyhow::Error,
                >(session.built_on()),
                Err(error) => error == BridgeError::Configuration,
            },
    {
        if !(options.component_model && options.async_support) {
            return Err(BridgeError::Configuration);
        }
        match built {
            Ok(engine) => Ok(
                SandboxSession {
                    engine,
                    adapter: InterfaceAdapter::default(),
                    phase: Phase::Configured,
                },
            ),
            Err(_) => Err(BridgeError::Configuration),
        }
    }

    /// Takes the driver's report and says what the driver has to do next.
    /// Whatever ends the session releases every object that is still live.
    pub fn step(&mut self, event: Event) -> (action: Action)
        ensures
            final(self)@ == old(self)@.step(event),
            final(self).built_on() == old(self).built_on(),
            action == final(self)@.phase.action(),
    {
        let next = next_phase(self.phase, event);
        match (self.phase, next) {
            (Phase::Terminated(_), _) => {},
            (_, Phase::Terminated(_)) => {
                self.adapter.release_all();
            },
            _ => {},
        }
        self.phase = next;
        action_of(next)
    }

    /// Ends the session with `error` and releases every object that is still
    /// live. A session that is over stays as it is.
    pub fn fail(&mut self, error: BridgeError)
        ensures
            final(self)@ == old(self)@.fail(error),
            final(self).built_on() == old(self).built_on(),
    {
        match self.phase {
            Phase::Terminated(_) => {},
            _ => {
                self.adapter.release_all();
                self.phase = Phase::Terminated(Outcome::Failed(error));
            },
        }
    }

    /// Compiles the image of the guest module on this session's engine. An
    /// image that the engine rejects ends the session.
    pub fn load(&mut self, image: &[u8]) -> (result: Result<
        wasmtime::component::Component,
        BridgeError,
    >)
        ensures
            final(self).built_on() == old(self).built_on(),
            match result {
                Ok(_) => final(self)@ == old(self)@,
                Err(error) => error == BridgeError::Instantiation && final(self)@ == old(
                    self,
                )@.fail(BridgeError::Instantiation),
            },
    {
        let compiled = compile_component(&self.engine, image);
        self.admit_module(compiled)
    }

    /// Takes what the compiler made of the guest module: the module, or the
    /// end of the session where the compiler rejected the image.
    pub fn admit_module(
        &mut self,
        compiled: Result<wasmtime::component::Component, anyhow::Error>,
    ) -> (result: Result<wasmtime::component::Component, BridgeError>)
        ensures
            final(self).built_on() == old(self).built_on(),
            match compiled {
                Ok(component) => result == Ok::<wasmtime::component::Component, BridgeError>(
                    component,
                ) && final(self)@ == old(self)@,
                Err(_) => result == Err::<wasmtime::component::Component, BridgeError>(
                    BridgeError::Instantiation,
                ) && final(self)@ == old(self)@.fail(BridgeError::Instantiation),
            },
    {
        match compiled {
            Ok(component) => Ok(component),
            Err(_) => {
                self.fail(BridgeError::Instantiation);
                Err(BridgeError::Instantiation)
            },
        }
    }

    /// Serves the guest's `new`: creates an object in state `value` and
    /// returns its handle. The call traps where no guest is running or no
    /// handle is left to issue, and then nothing is created.
    pub fn new(&mut self, value: u32) -> (reply: Result<Handle, BridgeError>)
        ensures
            reply == old(self)@.new_reply(),
            final(self)@ == old(self)@.new(value),
            final(self).built_on() == old(self).built_on(),
    {
        match self.phase {
            Phase::Running => self.adapter.new(value),
            _ => Err(BridgeError::GuestTrap),
        }
    }

    /// Serves the guest's `set`: replaces the state of the object that
    /// `handle` names.
    pub fn set(&mut self, handle: Handle, value: u32) -> (reply: Result<(), BridgeError>)
        ensures
            reply == old(self)@.adapter.unit_reply(handle),
            final(self)@ == old(self)@.set(handle, value),
            final(self).built_on() == old(self).built_on(),
    {
        self.adapter.set(handle, value)
    }

    /// Serves the guest's `get`: the state of the object that `handle` names.
    pub fn get(&self, handle: Handle) -> (reply: Result<u32, BridgeError>)
        ensures
            reply == self@.adapter.table.read(handle),
    {
        self.adapter.get(handle)
    }

    /// Serves the guest's `drop`: destroys the object that `handle` names.
    pub fn drop(&mut self, handle: Handle) -> (reply: Result<(), BridgeError>)
        ensures
            reply == old(self)@.adapter.unit_reply(handle),
            final(self)@ == old(self)@.drop(handle),
            final(self).built_on() == old(self).built_on(),
    {
        self.adapter.drop(handle)
    }

    /// Hands over the records gathered since they were last taken.
    pub fn take_audit(&mut self) -> (records: Vec<AuditRecord>)
        ensures
            records@ == old(self)@.adapter.audit,
            final(self).built_on() == old(self).built_on(),
            final(self)@ == (SessionView {
                phase: old(self)@.phase,
                adapter: AdapterView { table: old(self)@.adapter.table, audit: Seq::empty() },
            }),
    {
        self.adapter.take_audit()
    }

    /// What the driver has to do next.
    pub fn action(&self) -> (action: Action)
        ensures
            action == self@.phase.action(),
    {
        action_of(self.phase)
    }

    /// The phase the session is in.
    pub fn phase(&self) -> (phase: Phase)
        ensures
            phase == self@.phase,
    {
        self.phase
    }

    /// The engine of this session: the one it was built on.
    pub fn engine(&self) -> (engine: &wasmtime::Engine)
        ensures
            *engine == self.built_on(),
    {
        &self.engine
    }

    /// The adapter of this session.
    pub fn adapter(&self) -> (adapter: &InterfaceAdapter)
        ensures
            adapter@ == self@.adapter,
    {
        &self.adapter
    }
}

} // verus!
