//! The lifecycle manager: owner of the execution engine, of the network
//! client handle and of the listener task, and keeper of the lifecycle state.
//!
//! The manager is generic in the three things it owns, and never looks inside
//! them. It performs no blocking work itself. Each of the three lifecycle
//! operations is split into the decisions that frame the blocking work:
//!
//! * initialize: `begin_initialize`, then (at most once per manager) the
//!   creation of the engine and `engine_created`, then the bootstrap and
//!   `finish_initialize`;
//! * start: `begin_start`, then the cancellation of the previous listener and
//!   the bind, then `finish_start`;
//! * stop: `begin_stop`, then the cancellation and the grace period, then
//!   `finish_stop`.
//!
//! Every one of these calls is a short exchange of handles and may come at
//! any time, from any state: the invariant of the manager holds whatever the
//! order of the calls.

use crate::text::{push_signed_decimal, signed_decimal};
use vstd::prelude::*;
use vstd::string::*;

verus! {

/// The code of an operation that succeeded.
pub const SUCCESS: i32 = 0;

/// How long `stop` waits after cancelling the listener, in milliseconds, so
/// that the port is free again when it returns.
pub const STOP_GRACE_MS: u64 = 100;

/// Name of the directory, below the data directory, that holds the client's
/// persistent state.
pub const STATE_SUBDIRECTORY: &'static str = "state";

/// Name of the directory, below the data directory, that holds the client's
/// cache.
pub const CACHE_SUBDIRECTORY: &'static str = "cache";

/// The lifecycle state.
#[derive(Clone, Copy, Debug, PartialEq, Eq, Structural)]
pub enum LifecycleState {
    Uninitialized,
    Ready,
    ProxyRunning,
    Stopping,
    Stopped,
}

/// Why `initialize` failed.
#[derive(Clone, Copy, Debug, PartialEq, Eq, Structural)]
pub enum InitError {
    /// The data directory could not be read from the caller.
    InvalidDataDirectory,
    /// The engine could not be created, now or on the first attempt.
    EngineUnavailable,
    /// The client could not be bootstrapped.
    BootstrapFailed,
    /// The client configuration could not be built.
    ConfigBuildFailed,
}

/// Why `start` failed.
#[derive(Clone, Copy, Debug, PartialEq, Eq, Structural)]
pub enum StartError {
    /// There is no client handle: `initialize` has not succeeded yet.
    NotInitialized,
    /// There is no engine to run the listener on.
    EngineUnavailable,
    /// The local port could not be bound.
    BindFailed,
}

/// What `initialize` has to do next.
#[derive(Clone, Copy, Debug, PartialEq, Eq, Structural)]
pub enum InitStep {
    /// Create the engine and report it with `engine_created`.
    CreateEngine,
    /// Bootstrap a client on the engine, with its state and its cache in the
    /// two subdirectories of the data directory, and report it with
    /// `finish_initialize`.
    Bootstrap,
    /// Give up.
    Fail(InitError),
}

/// The code that the caller of `initialize` gets for `error`.
pub open spec fn init_error_code(error: InitError) -> int {
    match error {
        InitError::InvalidDataDirectory => -1,
        InitError::EngineUnavailable => -2,
        InitError::BootstrapFailed => -3,
        InitError::ConfigBuildFailed => -4,
    }
}

/// The code that the caller of `start` gets for `error`.
pub open spec fn start_error_code(error: StartError) -> int {
    match error {
        StartError::NotInitialized => -1,
        StartError::EngineUnavailable => -2,
        StartError::BindFailed => -3,
    }
}

/// The address that the listener binds: the loopback interface, and the port
/// in decimal.
pub open spec fn bind_address_text(port: int) -> Seq<char> {
    "127.0.0.1:"@ + signed_decimal(port)
}

/// The manager as a mathematical value.
pub struct Model<E, C, L> {
    /// The lifecycle state.
    pub state: LifecycleState,
    /// True once the creation of the engine has been asked for.
    pub engine_claimed: bool,
    /// The execution engine.
    pub engine: Option<E>,
    /// The network client handle.
    pub client: Option<C>,
    /// The listener task in the slot.
    pub listener: Option<L>,
}

/// One call on the manager, with its argument.
pub enum Op<E, C, L> {
    BeginInitialize,
    EngineCreated(Option<E>),
    FinishInitialize(Result<C, InitError>),
    BeginStart,
    FinishStart(Option<L>),
    BeginStop,
    FinishStop,
}

impl<E, C, L> Model<E, C, L> {
    /// A manager that owns nothing yet.
    pub open spec fn initial() -> Self {
        Model {
            state: LifecycleState::Uninitialized,
            engine_claimed: false,
            engine: None,
            client: None,
            listener: None,
        }
    }

    /// The invariant of the manager: an engine is only there once its
    /// creation was asked for, a client only beside an engine, a listener
    /// only beside a client and only while the state is `Ready` or
    /// `ProxyRunning`; and the state tells whether there is a client as far
    /// as it can: none in `Uninitialized`, one in `Ready` and `ProxyRunning`.
    pub open spec fn wf(self) -> bool {
        &&& self.engine is Some ==> self.engine_claimed
        &&& self.client is Some ==> self.engine is Some
        &&& self.listener is Some ==> self.client is Some
        &&& self.listener is Some ==> (self.state is Ready || self.state is ProxyRunning)
        &&& self.state is Uninitialized ==> self.client is None
        &&& (self.state is Ready || self.state is ProxyRunning) ==> self.client is Some
    }

    /// What `begin_initialize` answers: the engine is created on the first
    /// call and never again; later calls go on with the engine that is there,
    /// or fail for want of one.
    pub open spec fn init_step(self) -> InitStep {
        if !self.engine_claimed {
            InitStep::CreateEngine
        } else if self.engine is Some {
            InitStep::Bootstrap
        } else {
            InitStep::Fail(InitError::EngineUnavailable)
        }
    }

    /// The manager after `begin_initialize`.
    pub open spec fn begin_initialize(self) -> Self {
        Model { engine_claimed: true, ..self }
    }

    /// The manager after `engine_created(engine)`: the engine is stored
    /// unless one is there already, which stays.
    pub open spec fn engine_created(self, engine: Option<E>) -> Self {
        if self.engine is Some {
            self
        } else {
            Model { engine_claimed: true, engine, ..self }
        }
    }

    /// What `finish_initialize(outcome)` answers.
    pub open spec fn init_result(self, outcome: Result<C, InitError>) -> Result<(), InitError> {
        match outcome {
            Ok(_) => if self.engine is Some {
                Ok(())
            } else {
                Err(InitError::EngineUnavailable)
            },
            Err(error) => Err(error),
        }
    }

    /// The manager after `finish_initialize(outcome)`: a new client takes the
    /// place of the one before it and the state becomes `Ready`; a failure
    /// changes nothing.
    pub open spec fn finish_initialize(self, outcome: Result<C, InitError>) -> Self {
        match outcome {
            Ok(client) => if self.engine is Some {
                Model { state: LifecycleState::Ready, client: Some(client), ..self }
            } else {
                self
            },
            Err(_) => self,
        }
    }

    /// Why `begin_start` refuses to go on; `None` where it goes on to bind.
    pub open spec fn start_refusal(self) -> Option<StartError> {
        if self.client is None {
            Some(StartError::NotInitialized)
        } else if self.engine is None {
            Some(StartError::EngineUnavailable)
        } else {
            None
        }
    }

    /// The manager after `begin_start`: the listener has left the slot.
    pub open spec fn begin_start(self) -> Self {
        Model { listener: None, ..self }
    }

    /// What `finish_start(bound)` answers.
    pub open spec fn start_result(self, bound: Option<L>) -> Result<(), StartError> {
        match bound {
            None => Err(StartError::BindFailed),
            Some(_) => if self.client is Some {
                Ok(())
            } else {
                Err(StartError::NotInitialized)
            },
        }
    }

    /// The listener that `finish_start(bound)` hands back to be cancelled:
    /// the one that the new listener displaced, or the new one itself where
    /// there is no client for it.
    pub open spec fn start_displaced(self, bound: Option<L>) -> Option<L> {
        match bound {
            None => None,
            Some(_) => if self.client is Some {
                self.listener
            } else {
                bound
            },
        }
    }

    /// The manager after `finish_start(bound)`: a bound listener is stored
    /// and the state becomes `ProxyRunning`; a failure changes nothing.
    pub open spec fn finish_start(self, bound: Option<L>) -> Self {
        match bound {
            None => self,
            Some(_) => if self.client is Some {
                Model { state: LifecycleState::ProxyRunning, listener: bound, ..self }
            } else {
                self
            },
        }
    }

    /// How long `stop` is to wait after the cancellation: the grace period
    /// where there is an engine to wait on, nothing otherwise.
    pub open spec fn stop_grace(self) -> Option<u64> {
        if self.engine is Some {
            Some(STOP_GRACE_MS)
        } else {
            None
        }
    }

    /// The manager after `begin_stop`: the listener has left the slot and the
    /// state is `Stopping`. Engine and client stay.
    pub open spec fn begin_stop(self) -> Self {
        Model { state: LifecycleState::Stopping, listener: None, ..self }
    }

    /// The manager after `finish_stop`: the state is `Stopped` and the slot
    /// is empty, whatever came before. Engine and client stay.
    pub open spec fn finish_stop(self) -> Self {
        Model { state: LifecycleState::Stopped, listener: None, ..self }
    }

    /// The manager after one call.
    pub open spec fn apply(self, op: Op<E, C, L>) -> Self {
        match op {
            Op::BeginInitialize => self.begin_initialize(),
            Op::EngineCreated(engine) => self.engine_created(engine),
            Op::FinishInitialize(outcome) => self.finish_initialize(outcome),
            Op::BeginStart => self.begin_start(),
            Op::FinishStart(bound) => self.finish_start(bound),
            Op::BeginStop => self.begin_stop(),
            Op::FinishStop => self.finish_stop(),
        }
    }

    /// The manager after all of `ops`, in order.
    pub open spec fn apply_all(self, ops: Seq<Op<E, C, L>>) -> Self
        decreases ops.len(),
    {
        if ops.len() == 0 {
            self
        } else {
            self.apply_all(ops.drop_last()).apply(ops.last())
        }
    }
}

/// The invariant holds of a new manager and is kept by every call, whatever
/// its argument and whatever the state.
pub proof fn lemma_invariant_kept<E, C, L>(m: Model<E, C, L>, op: Op<E, C, L>)
    requires
        m.wf(),
    ensures
        Model::<E, C, L>::initial().wf(),
        m.apply(op).wf(),
{
}

/// Along any sequence of calls the invariant is kept, the engine is asked
/// for at most once and stays the one it is, and a client, once there, is
/// never taken away.
pub proof fn lemma_kept_along<E, C, L>(m: Model<E, C, L>, ops: Seq<Op<E, C, L>>)
    requires
        m.wf(),
    ensures
        m.apply_all(ops).wf(),
        m.engine_claimed ==> m.apply_all(ops).init_step() != InitStep::CreateEngine,
        m.engine is Some ==> m.apply_all(ops).engine == m.engine,
        m.client is Some ==> m.apply_all(ops).client is Some,
    decreases ops.len(),
{
    if ops.len() > 0 {
        lemma_kept_along(m, ops.drop_last());
        lemma_invariant_kept(m.apply_all(ops.drop_last()), ops.last());
    }
}

/// The engine is created once: after the first `begin_initialize`, whatever
/// calls follow and however the creation went, no `begin_initialize` asks for
/// an engine again.
pub proof fn lemma_engine_created_once<E, C, L>(m: Model<E, C, L>, ops: Seq<Op<E, C, L>>)
    requires
        m.wf(),
    ensures
        m.begin_initialize().apply_all(ops).init_step() != InitStep::CreateEngine,
{
    lemma_invariant_kept(m, Op::BeginInitialize);
    lemma_kept_along(m.begin_initialize(), ops);
}

/// A second `initialize` on a manager that holds an engine goes straight to
/// the bootstrap, and its success leaves a client in place, in state `Ready`.
pub proof fn lemma_initialize_again<E, C, L>(m: Model<E, C, L>, client: C)
    requires
        m.wf(),
        m.engine is Some,
    ensures
        m.init_step() == InitStep::Bootstrap,
        m.begin_initialize().init_result(Ok(client)) == Ok::<(), InitError>(()),
        m.begin_initialize().finish_initialize(Ok(client)).client == Some(client),
        m.begin_initialize().finish_initialize(Ok(client)).state == LifecycleState::Ready,
        m.begin_initialize().finish_initialize(Ok(client)).engine == m.engine,
{
}

/// A second start without a stop in between: the listener that the first
/// start stored is handed out for cancellation before anything is bound, the
/// slot is empty while the port is bound anew, and the start goes on.
pub proof fn lemma_restart_cancels_previous<E, C, L>(m: Model<E, C, L>, first: L)
    requires
        m.wf(),
        m.client is Some,
    ensures
        m.finish_start(Some(first)).listener == Some(first),
        m.finish_start(Some(first)).state == LifecycleState::ProxyRunning,
        m.finish_start(Some(first)).start_refusal() is None,
        m.finish_start(Some(first)).begin_start().listener is None,
{
}

/// Stop keeps the client: after a stop, a start goes on to bind with the
/// very handle that was there before, and no `initialize` is needed.
pub proof fn lemma_start_after_stop<E, C, L>(m: Model<E, C, L>)
    requires
        m.wf(),
        m.client is Some,
    ensures
        m.begin_stop().finish_stop().state == LifecycleState::Stopped,
        m.begin_stop().finish_stop().listener is None,
        m.begin_stop().finish_stop().client == m.client,
        m.begin_stop().finish_stop().engine == m.engine,
        m.begin_stop().finish_stop().start_refusal() is None,
{
}

/// A start never finds the engine missing beside a client: of the three
/// failures of a start, a manager only ever reports two.
pub proof fn lemma_start_refusal<E, C, L>(m: Model<E, C, L>)
    requires
        m.wf(),
    ensures
        m.start_refusal() != Some(StartError::EngineUnavailable),
        m.start_refusal() == Some(StartError::NotInitialized) <==> m.client is None,
        m.state is Uninitialized ==> m.start_refusal() == Some(StartError::NotInitialized),
{
}

/// A failed call changes nothing: neither the state nor anything owned.
pub proof fn lemma_failure_changes_nothing<E, C, L>(
    m: Model<E, C, L>,
    outcome: Result<C, InitError>,
    bound: Option<L>,
)
    ensures
        m.init_result(outcome) is Err ==> m.finish_initialize(outcome) == m,
        m.start_result(bound) is Err ==> m.finish_start(bound) == m,
        m.begin_start().state == m.state,
{
}

/// The codes of the failures of one operation are negative and differ from
/// one another.
pub proof fn lemma_codes_distinct(a: InitError, b: InitError, c: StartError, d: StartError)
    ensures
        init_error_code(a) < SUCCESS,
        start_error_code(c) < SUCCESS,
        init_error_code(a) == init_error_code(b) ==> a == b,
        start_error_code(c) == start_error_code(d) ==> c == d,
{
}

impl InitError {
    /// The code that the caller of `initialize` gets for this failure.
    pub fn code(self) -> (code: i32)
        ensures
            code == init_error_code(self),
    {
        match self {
            InitError::InvalidDataDirectory => -1,
            InitError::EngineUnavailable => -2,
            InitError::BootstrapFailed => -3,
            InitError::ConfigBuildFailed => -4,
        }
    }
}

impl StartError {
    /// The code that the caller of `start` gets for this failure.
    pub fn code(self) -> (code: i32)
        ensures
            code == start_error_code(self),
    {
        match self {
            StartError::NotInitialized => -1,
            StartError::EngineUnavailable => -2,
            StartError::BindFailed => -3,
        }
    }
}

/// The address to bind for `port`.
pub fn bind_address(port: i32) -> (address: String)
    ensures
        address@ == bind_address_text(port as int),
{
    let mut address = String::from_str("127.0.0.1:");
    push_signed_decimal(&mut address, port);
    address
}

/// What `begin_start` decided.
#[derive(Debug)]
pub struct StartPlan<L> {
    /// The listener that was in the slot: cancel it before binding.
    pub cancel: Option<L>,
    /// The address to bind, or the reason not to.
    pub bind: Result<String, StartError>,
}

/// What `finish_start` decided.
#[derive(Debug)]
pub struct StartDone<L> {
    /// Whether the proxy is running now.
    pub result: Result<(), StartError>,
    /// A listener that must not run on: cancel it.
    pub cancel: Option<L>,
}

/// What `begin_stop` decided.
#[derive(Debug)]
pub struct StopPlan<L> {
    /// The listener that was in the slot: cancel it.
    pub cancel: Option<L>,
    /// How long to wait after the cancellation, in milliseconds.
    pub grace_ms: Option<u64>,
}

/// The lifecycle manager.
#[derive(Debug)]
pub struct Lifecycle<E, C, L> {
    state: LifecycleState,
    engine_claimed: bool,
    engine: Option<E>,
    client: Option<C>,
    listener: Option<L>,
}

impl<E, C, L> View for Lifecycle<E, C, L> {
    type V = Model<E, C, L>;

    closed spec fn view(&self) -> Model<E, C, L> {
        Model {
            state: self.state,
            engine_claimed: self.engine_claimed,
            engine: self.engine,
            client: self.client,
            listener: self.listener,
        }
    }
}

impl<E, C, L> Lifecycle<E, C, L> {
    #[verifier::type_invariant]
    spec fn well_formed(self) -> bool {
        self@.wf()
    }

    /// A manager that owns nothing, in state `Uninitialized`.
    pub fn new() -> (manager: Self)
        ensures
            manager@ == Model::<E, C, L>::initial(),
    {
        Lifecycle {
            state: LifecycleState::Uninitialized,
            engine_claimed: false,
            engine: None,
            client: None,
            listener: None,
        }
    }

    /// The lifecycle state.
    pub fn state(&self) -> (state: LifecycleState)
        ensures
            state == self@.state,
            self@.wf(),
    {
        proof {
            use_type_invariant(self);
        }
        self.state
    }

    /// The engine, if there is one.
    pub fn engine(&self) -> (engine: Option<&E>)
        ensures
            engine is Some <==> self@.engine is Some,
            engine matches Some(e) ==> self@.engine == Some(*e),
    {
        self.engine.as_ref()
    }

    /// The client handle, if there is one.
    pub fn client(&self) -> (client: Option<&C>)
        ensures
            client is Some <==> self@.client is Some,
            client matches Some(c) ==> self@.client == Some(*c),
    {
        self.client.as_ref()
    }

    /// True while a listener is in the slot.
    pub fn has_listener(&self) -> (present: bool)
        ensures
            present == (self@.listener is Some),
    {
        self.listener.is_some()
    }

    /// First step of `initialize`: says whether the engine is to be created,
    /// which it is on the first call and never again.
    pub fn begin_initialize(&mut self) -> (step: InitStep)
        ensures
            step == old(self)@.init_step(),
            final(self)@ == old(self)@.begin_initialize(),
    {
        proof {
            use_type_invariant(&*self);
        }
        if !self.engine_claimed {
            self.engine_claimed = true;
            InitStep::CreateEngine
        } else if self.engine.is_some() {
            InitStep::Bootstrap
        } else {
            InitStep::Fail(InitError::EngineUnavailable)
        }
    }

    /// Takes the engine that was created, or `None` where its creation
    /// failed, and says how `initialize` goes on. An engine that is already
    /// there stays, and the one offered is dropped.
    pub fn engine_created(&mut self, engine: Option<E>) -> (step: InitStep)
        ensures
            final(self)@ == old(self)@.engine_created(engine),
            step == final(self)@.init_step(),
            step != InitStep::CreateEngine,
    {
        proof {
            use_type_invariant(&*self);
        }
        if self.engine.is_none() {
            self.engine_claimed = true;
            self.engine = engine;
        }
        if self.engine.is_some() {
            InitStep::Bootstrap
        } else {
            InitStep::Fail(InitError::EngineUnavailable)
        }
    }

    /// Last step of `initialize`: takes the bootstrapped client, or the
    /// reason why there is none. A client is stored, in place of the one
    /// before it, and the state becomes `Ready`; a failure is handed on and
    /// changes nothing.
    pub fn finish_initialize(&mut self, outcome: Result<C, InitError>) -> (result: Result<
        (),
        InitError,
    >)
        ensures
            result == old(self)@.init_result(outcome),
            final(self)@ == old(self)@.finish_initialize(outcome),
    {
        proof {
            use_type_invariant(&*self);
        }
        match outcome {
            Ok(client) => {
                if self.engine.is_some() {
                    // State and client change together, so the manager is
                    // rebuilt rather than updated field by field.
                    let mut before = Lifecycle::new();
                    core::mem::swap(self, &mut before);
                    let Lifecycle { state: _, engine_claimed, engine, client: _, listener } = before;
                    *self = Lifecycle {
                        state: LifecycleState::Ready,
                        engine_claimed,
                        engine,
                        client: Some(client),
                        listener,
                    };
                    Ok(())
                } else {
                    Err(InitError::EngineUnavailable)
                }
            },
            Err(error) => Err(error),
        }
    }

    /// First step of `start`: empties the listener slot, and decides whether
    /// to bind. The state does not change.
    pub fn begin_start(&mut self, port: i32) -> (plan: StartPlan<L>)
        ensures
            final(self)@ == old(self)@.begin_start(),
            plan.cancel == old(self)@.listener,
            plan.bind matches Ok(address) ==> old(self)@.start_refusal() is None && address@
                == bind_address_text(port as int),
            plan.bind matches Err(error) ==> old(self)@.start_refusal() == Some(error),
            plan.bind is Ok <==> old(self)@.client is Some,
    {
        proof {
            use_type_invariant(&*self);
        }
        let mut cancel: Option<L> = None;
        core::mem::swap(&mut self.listener, &mut cancel);
        let bind = if self.client.is_none() {
            Err(StartError::NotInitialized)
        } else if self.engine.is_none() {
            Err(StartError::EngineUnavailable)
        } else {
            Ok(bind_address(port))
        };
        StartPlan { cancel, bind }
    }

    /// Last step of `start`: takes the listener task that runs on the bound
    /// socket, or `None` where the bind failed. The task is stored and the
    /// state becomes `ProxyRunning`; whatever was in the slot is handed back
    /// to be cancelled. A failed bind changes nothing.
    pub fn finish_start(&mut self, bound: Option<L>) -> (done: StartDone<L>)
        ensures
            final(self)@ == old(self)@.finish_start(bound),
            done.result == old(self)@.start_result(bound),
            done.cancel == old(self)@.start_displaced(bound),
    {
        proof {
            use_type_invariant(&*self);
        }
        match bound {
            None => StartDone { result: Err(StartError::BindFailed), cancel: None },
            Some(task) => {
                if self.client.is_some() {
                    let mut slot = Some(task);
                    self.state = LifecycleState::ProxyRunning;
                    core::mem::swap(&mut self.listener, &mut slot);
                    StartDone { result: Ok(()), cancel: slot }
                } else {
                    StartDone { result: Err(StartError::NotInitialized), cancel: Some(task) }
                }
            },
        }
    }

    /// First step of `stop`: empties the listener slot and enters
    /// `Stopping`. Engine and client stay.
    pub fn begin_stop(&mut self) -> (plan: StopPlan<L>)
        ensures
            final(self)@ == old(self)@.begin_stop(),
            plan.cancel == old(self)@.listener,
            plan.grace_ms == old(self)@.stop_grace(),
    {
        proof {
            use_type_invariant(&*self);
        }
        let mut cancel: Option<L> = None;
        core::mem::swap(&mut self.listener, &mut cancel);
        self.state = LifecycleState::Stopping;
        let grace_ms = if self.engine.is_some() {
            Some(STOP_GRACE_MS)
        } else {
            None
        };
        StopPlan { cancel, grace_ms }
    }

    /// Last step of `stop`: enters `Stopped`, whatever came before. A
    /// listener that found its way into the slot since `begin_stop` is handed
    /// back to be cancelled.
    pub fn finish_stop(&mut self) -> (cancel: Option<L>)
        ensures
            final(self)@ == old(self)@.finish_stop(),
            cancel == old(self)@.listener,
    {
        proof {
            use_type_invariant(&*self);
        }
        let mut cancel: Option<L> = None;
        core::mem::swap(&mut self.listener, &mut cancel);
        self.state = LifecycleState::Stopped;
        cancel
    }
}

} // verus!
