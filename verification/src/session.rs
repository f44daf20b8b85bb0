use vstd::prelude::*;
use crate::error::SandboxError;
use crate::module_url::{file_url_of, is_absolute_path, module_specifier};
use crate::poll::{poll_value, EventLoopPoll, PollDecision, ValueState};

verus! {

/// The two runtimes of the sandbox. The host runtime loads its module as the
/// main module and calls the handler with a request value it already holds;
/// an edge-function runtime loads its module as a side module, converts the
/// request's JSON for the handler, and runs the event loop once after the
/// call before it awaits the response.
#[derive(Clone, Copy, PartialEq, Eq, Structural)]
pub enum Flavor {
    Host,
    EdgeFunction,
}

/// Where a session stands. `Idle` is the only stage at rest; every other
/// stage waits for the result of one piece of engine work.
#[derive(Clone, Copy, PartialEq, Eq, Structural)]
pub enum Stage {
    Idle,
    LoadingModule,
    RunningModuleEventLoop,
    EvaluatingModule,
    ResolvingNamespace,
    LookingUpHandler,
    ConvertingRequest,
    CallingHandler,
    RunningHandlerEventLoop,
    AwaitingResponse,
}

/// What the module's `default` export turned out to be.
pub enum DefaultExport {
    Missing,
    Present { is_function: bool, is_async_function: bool },
}

/// The result of one piece of engine work, handed back to the session.
pub enum SessionEvent<E> {
    /// The module was loaded, with the engine's module id.
    ModuleLoaded(Result<usize, E>),
    /// The event loop ran to completion.
    EventLoopRan(Result<(), E>),
    /// The module's evaluation finished.
    ModuleEvaluated(Result<(), E>),
    /// The module namespace of the root module was looked up.
    NamespaceResolved(Result<(), E>),
    /// The `default` export was looked up.
    DefaultExportFound(DefaultExport),
    /// The request JSON was (or could not be) made a string of the isolate.
    RequestConverted(bool),
    /// The handler was called and did (or did not) return a value.
    HandlerCalled(bool),
    /// One poll of the handler's response.
    ResponsePolled(EventLoopPoll<E>, ValueState),
}

/// Where a successful run takes its response from.
#[derive(Clone, Copy, PartialEq, Eq, Structural)]
pub enum ResponseSource {
    /// The handler's value itself (it was no promise).
    Value,
    /// The result the handler's promise settled with.
    PromiseResult,
}

/// The arguments the handler is called with, with `undefined` as `this`.
#[derive(Clone, Copy, PartialEq, Eq, Structural)]
pub enum HandlerArgs {
    /// The one request value that the host runtime was given.
    RequestValue,
    /// Two arguments in this order: the string that the request JSON was
    /// converted to, then an array buffer holding the request body's bytes.
    JsonThenBody,
}

/// How a bootstrap or a run ended.
pub enum SessionFailure<E> {
    Sandbox(SandboxError),
    Engine(E),
    /// The handler's promise was rejected; its exception is the error.
    Rejected,
}

/// The piece of engine work to do next, or the end of the operation.
pub enum SessionAction<E> {
    /// Load the module with this specifier, as the main module or as a side module.
    LoadModule { specifier: String, as_main: bool },
    /// Start evaluating the module with this id, then run the event loop.
    EvaluateModule(usize),
    /// Wait for the module's evaluation to finish.
    AwaitEvaluation,
    /// Look up the module namespace of the module with this id.
    ResolveNamespace(usize),
    /// Look up the namespace's `default` export.
    LookUpHandler,
    /// Make the request JSON a string of the isolate and the body an array
    /// buffer of these bytes.
    ConvertRequest { json: String, body: Vec<u8> },
    /// Call the handler, once, with these arguments.
    CallHandler(HandlerArgs),
    /// Run the event loop to completion.
    RunEventLoop,
    /// Poll the handler's response once.
    PollResponse,
    /// Bootstrap finished successfully.
    Bootstrapped,
    /// The run finished with a response taken from this source.
    Respond(ResponseSource),
    /// The bootstrap or the run failed.
    Fail(SessionFailure<E>),
}

/// The engine-independent state of a sandbox runtime: which flavor it is,
/// the id of its root module, what it is waiting for, and the request of an
/// edge-function run until it is handed over for conversion.
pub struct Session {
    pub flavor: Flavor,
    pub root_mod_id: usize,
    pub stage: Stage,
    pub request: Option<(String, Vec<u8>)>,
}

/// The state of a session as contracts see it.
pub struct SessionView {
    pub flavor: Flavor,
    pub root_mod_id: usize,
    pub stage: Stage,
    pub request: Option<(String, Vec<u8>)>,
}

impl View for Session {
    type V = SessionView;

    open spec fn view(&self) -> SessionView {
        SessionView { flavor: self.flavor, root_mod_id: self.root_mod_id, stage: self.stage, request: self.request }
    }
}

impl SessionView {
    /// An edge-function run holds its request until it converts it.
    pub open spec fn wf(self) -> bool {
        self.flavor == Flavor::EdgeFunction
            && (self.stage == Stage::ResolvingNamespace || self.stage == Stage::LookingUpHandler)
            ==> self.request is Some
    }
}

/// Whether a default export can serve as the handler.
pub open spec fn is_handler(export: DefaultExport) -> bool {
    match export {
        DefaultExport::Missing => false,
        DefaultExport::Present { is_function, is_async_function } => is_function || is_async_function,
    }
}

/// Which event a stage is waiting for.
pub open spec fn accepts<E>(stage: Stage, event: SessionEvent<E>) -> bool {
    match stage {
        Stage::Idle => false,
        Stage::LoadingModule => event is ModuleLoaded,
        Stage::RunningModuleEventLoop => event is EventLoopRan,
        Stage::EvaluatingModule => event is ModuleEvaluated,
        Stage::ResolvingNamespace => event is NamespaceResolved,
        Stage::LookingUpHandler => event is DefaultExportFound,
        Stage::ConvertingRequest => event is RequestConverted,
        Stage::CallingHandler => event is HandlerCalled,
        Stage::RunningHandlerEventLoop => event is EventLoopRan,
        Stage::AwaitingResponse => event is ResponsePolled,
    }
}

/// An idle session of the same flavor and root module, holding no request,
/// that reports `action`.
pub open spec fn finish<E>(s: SessionView, action: SessionAction<E>) -> (SessionView, SessionAction<E>) {
    (SessionView { stage: Stage::Idle, request: None, ..s }, action)
}

/// A session that moves to `stage` and asks for `action`.
pub open spec fn advance<E>(s: SessionView, stage: Stage, action: SessionAction<E>) -> (SessionView, SessionAction<E>) {
    (SessionView { stage, ..s }, action)
}

pub open spec fn fail<E>(s: SessionView, f: SessionFailure<E>) -> (SessionView, SessionAction<E>) {
    finish(s, SessionAction::Fail(f))
}

/// What a session does with an event its stage waits for: the new state and
/// the next action.
pub open spec fn step_spec<E>(s: SessionView, event: SessionEvent<E>) -> (SessionView, SessionAction<E>) {
    match event {
        SessionEvent::ModuleLoaded(Ok(id)) => (
            SessionView { root_mod_id: id, stage: Stage::RunningModuleEventLoop, ..s },
            SessionAction::EvaluateModule(id),
        ),
        SessionEvent::ModuleLoaded(Err(e)) => fail(s, SessionFailure::Engine(e)),
        SessionEvent::EventLoopRan(Ok(())) => if s.stage == Stage::RunningModuleEventLoop {
            advance(s, Stage::EvaluatingModule, SessionAction::AwaitEvaluation)
        } else {
            advance(s, Stage::AwaitingResponse, SessionAction::PollResponse)
        },
        SessionEvent::EventLoopRan(Err(e)) => fail(s, SessionFailure::Engine(e)),
        SessionEvent::ModuleEvaluated(Ok(())) => finish(s, SessionAction::Bootstrapped),
        SessionEvent::ModuleEvaluated(Err(e)) => fail(s, SessionFailure::Engine(e)),
        SessionEvent::NamespaceResolved(Ok(())) =>
            advance(s, Stage::LookingUpHandler, SessionAction::LookUpHandler),
        SessionEvent::NamespaceResolved(Err(e)) => fail(s, SessionFailure::Engine(e)),
        SessionEvent::DefaultExportFound(export) => match export {
            DefaultExport::Missing => fail(s, SessionFailure::Sandbox(SandboxError::NoDefaultExport)),
            DefaultExport::Present { .. } => if !is_handler(export) {
                fail(s, SessionFailure::Sandbox(SandboxError::DefaultExportNotHandler))
            } else if s.flavor == Flavor::EdgeFunction {
                (
                    SessionView { stage: Stage::ConvertingRequest, request: None, ..s },
                    SessionAction::ConvertRequest { json: s.request->Some_0.0, body: s.request->Some_0.1 },
                )
            } else {
                advance(s, Stage::CallingHandler, SessionAction::CallHandler(HandlerArgs::RequestValue))
            },
        },
        SessionEvent::RequestConverted(ok) => if ok {
            advance(s, Stage::CallingHandler, SessionAction::CallHandler(HandlerArgs::JsonThenBody))
        } else {
            fail(s, SessionFailure::Sandbox(SandboxError::RequestNotConvertible))
        },
        SessionEvent::HandlerCalled(returned) => if !returned {
            fail(s, SessionFailure::Sandbox(SandboxError::HandlerReturnedNothing))
        } else if s.flavor == Flavor::EdgeFunction {
            advance(s, Stage::RunningHandlerEventLoop, SessionAction::RunEventLoop)
        } else {
            advance(s, Stage::AwaitingResponse, SessionAction::PollResponse)
        },
        SessionEvent::ResponsePolled(event_loop, value) => match value {
            ValueState::NotPromise => finish(s, SessionAction::Respond(ResponseSource::Value)),
            ValueState::PromiseFulfilled => finish(s, SessionAction::Respond(ResponseSource::PromiseResult)),
            ValueState::PromiseRejected => fail(s, SessionFailure::Rejected),
            ValueState::PromisePending => match event_loop {
                EventLoopPoll::Pending => advance(s, Stage::AwaitingResponse, SessionAction::PollResponse),
                EventLoopPoll::Ready(Ok(())) =>
                    fail(s, SessionFailure::Sandbox(SandboxError::StillPendingAfterEventLoop)),
                EventLoopPoll::Ready(Err(e)) => fail(s, SessionFailure::Engine(e)),
            },
        },
    }
}

impl Session {
    /// A fresh session: idle, with root module id 0 until a module is loaded.
    pub fn new(flavor: Flavor) -> (s: Session)
        ensures
            s@ == (SessionView { flavor, root_mod_id: 0, stage: Stage::Idle, request: None }),
    {
        Session { flavor, root_mod_id: 0, stage: Stage::Idle, request: None }
    }

    /// Starts bootstrapping the module at `path`, given what the URL
    /// conversion of the path produced: loads the module (as main module for
    /// the host, as side module for an edge function), or fails at once when
    /// the path is no URL.
    pub fn begin_bootstrap<E>(&mut self, specifier: Result<String, SandboxError>) -> (a: SessionAction<E>)
        requires
            old(self).stage == Stage::Idle,
        ensures
            match specifier {
                Ok(spec) => final(self)@ == (SessionView { stage: Stage::LoadingModule, ..old(self)@ })
                    && a == SessionAction::<E>::LoadModule {
                        specifier: spec,
                        as_main: old(self).flavor == Flavor::Host,
                    },
                Err(err) => final(self)@ == old(self)@
                    && a == SessionAction::<E>::Fail(SessionFailure::Sandbox(err)),
            },
    {
        match specifier {
            Ok(spec) => {
                self.stage = Stage::LoadingModule;
                SessionAction::LoadModule { specifier: spec, as_main: self.flavor == Flavor::Host }
            },
            Err(err) => SessionAction::Fail(SessionFailure::Sandbox(err)),
        }
    }

    /// Starts bootstrapping the module at `path`; this must be done before a
    /// run, since it loads the module whose handler a run calls.
    pub fn bootstrap<E>(&mut self, path: &str) -> (a: SessionAction<E>)
        requires
            old(self).stage == Stage::Idle,
        ensures
            is_absolute_path(path@) ==> {
                &&& final(self)@ == (SessionView { stage: Stage::LoadingModule, ..old(self)@ })
                &&& a matches SessionAction::LoadModule { specifier, as_main }
                &&& specifier@ == file_url_of(path@)
                &&& as_main == (old(self).flavor == Flavor::Host)
            },
            !is_absolute_path(path@) ==> final(self)@ == old(self)@
                && a matches SessionAction::Fail(SessionFailure::Sandbox(SandboxError::ModulePathNotUrl)),
    {
        let specifier = module_specifier(path);
        self.begin_bootstrap(specifier)
    }

    /// Starts running the handler of the root module on the host, whose
    /// request is a value it already holds.
    pub fn run<E>(&mut self) -> (a: SessionAction<E>)
        requires
            old(self).stage == Stage::Idle,
            old(self).flavor == Flavor::Host,
        ensures
            final(self)@ == (SessionView { stage: Stage::ResolvingNamespace, request: None, ..old(self)@ }),
            final(self)@.wf(),
            a == SessionAction::<E>::ResolveNamespace(old(self).root_mod_id),
    {
        self.stage = Stage::ResolvingNamespace;
        self.request = None;
        SessionAction::ResolveNamespace(self.root_mod_id)
    }

    /// Starts running the handler of the root module of an edge function on
    /// `request` (its JSON and its body), which the session holds until it
    /// hands it over for conversion.
    pub fn run_with_request<E>(&mut self, request: (String, Vec<u8>)) -> (a: SessionAction<E>)
        requires
            old(self).stage == Stage::Idle,
            old(self).flavor == Flavor::EdgeFunction,
        ensures
            final(self)@ == (SessionView { stage: Stage::ResolvingNamespace, request: Some(request), ..old(self)@ }),
            final(self)@.wf(),
            a == SessionAction::<E>::ResolveNamespace(old(self).root_mod_id),
    {
        self.stage = Stage::ResolvingNamespace;
        self.request = Some(request);
        SessionAction::ResolveNamespace(self.root_mod_id)
    }

    /// Leaves a bootstrap or run that was given up before it ended: the
    /// session is idle again and holds no request; its flavor and root
    /// module stay.
    pub fn abandon(&mut self)
        ensures
            final(self)@ == (SessionView { stage: Stage::Idle, request: None, ..old(self)@ }),
    {
        self.stage = Stage::Idle;
        self.request = None;
    }

    /// Hands the session the result of the engine work it asked for, and
    /// returns what to do next.
    pub fn step<E>(&mut self, event: SessionEvent<E>) -> (a: SessionAction<E>)
        requires
            old(self)@.wf(),
            accepts(old(self).stage, event),
        ensures
            (final(self)@, a) == step_spec(old(self)@, event),
            final(self)@.wf(),
            event matches SessionEvent::ModuleLoaded(Ok(m)) ==> (a == SessionAction::<E>::EvaluateModule(m)
                && final(self).root_mod_id == m),
            event matches SessionEvent::ResponsePolled(_, ValueState::PromiseFulfilled)
                ==> a == SessionAction::<E>::Respond(ResponseSource::PromiseResult),
            event matches SessionEvent::ResponsePolled(_, ValueState::NotPromise)
                ==> a == SessionAction::<E>::Respond(ResponseSource::Value),
            a == SessionAction::<E>::Respond(ResponseSource::Value)
                ==> (event matches SessionEvent::ResponsePolled(_, value) && value is NotPromise),
            a == SessionAction::<E>::Respond(ResponseSource::PromiseResult)
                ==> (event matches SessionEvent::ResponsePolled(_, value) && value is PromiseFulfilled),
    {
        match event {
            SessionEvent::ModuleLoaded(Ok(id)) => {
                self.root_mod_id = id;
                self.stage = Stage::RunningModuleEventLoop;
                SessionAction::EvaluateModule(id)
            },
            SessionEvent::ModuleLoaded(Err(e)) => self.fail(SessionFailure::Engine(e)),
            SessionEvent::EventLoopRan(Ok(())) => {
                if self.stage == Stage::RunningModuleEventLoop {
                    self.stage = Stage::EvaluatingModule;
                    SessionAction::AwaitEvaluation
                } else {
                    self.stage = Stage::AwaitingResponse;
                    SessionAction::PollResponse
                }
            },
            SessionEvent::EventLoopRan(Err(e)) => self.fail(SessionFailure::Engine(e)),
            SessionEvent::ModuleEvaluated(Ok(())) => {
                self.stage = Stage::Idle;
                self.request = None;
                SessionAction::Bootstrapped
            },
            SessionEvent::ModuleEvaluated(Err(e)) => self.fail(SessionFailure::Engine(e)),
            SessionEvent::NamespaceResolved(Ok(())) => {
                self.stage = Stage::LookingUpHandler;
                SessionAction::LookUpHandler
            },
            SessionEvent::NamespaceResolved(Err(e)) => self.fail(SessionFailure::Engine(e)),
            SessionEvent::DefaultExportFound(export) => match export {
                DefaultExport::Missing => self.fail(SessionFailure::Sandbox(SandboxError::NoDefaultExport)),
                DefaultExport::Present { is_function, is_async_function } => {
                    if !is_async_function && !is_function {
                        self.fail(SessionFailure::Sandbox(SandboxError::DefaultExportNotHandler))
                    } else if self.flavor == Flavor::EdgeFunction {
                        self.stage = Stage::ConvertingRequest;
                        match self.request.take() {
                            Some((json, body)) => SessionAction::ConvertRequest { json, body },
                            None => {
                                proof {
                                    assert(false);
                                }
                                SessionAction::ConvertRequest { json: String::new(), body: Vec::new() }
                            },
                        }
                    } else {
                        self.stage = Stage::CallingHandler;
                        SessionAction::CallHandler(HandlerArgs::RequestValue)
                    }
                },
            },
            SessionEvent::RequestConverted(ok) => {
                if ok {
                    self.stage = Stage::CallingHandler;
                    SessionAction::CallHandler(HandlerArgs::JsonThenBody)
                } else {
                    self.fail(SessionFailure::Sandbox(SandboxError::RequestNotConvertible))
                }
            },
            SessionEvent::HandlerCalled(returned) => {
                if !returned {
                    self.fail(SessionFailure::Sandbox(SandboxError::HandlerReturnedNothing))
                } else if self.flavor == Flavor::EdgeFunction {
                    self.stage = Stage::RunningHandlerEventLoop;
                    SessionAction::RunEventLoop
                } else {
                    self.stage = Stage::AwaitingResponse;
                    SessionAction::PollResponse
                }
            },
            SessionEvent::ResponsePolled(event_loop, value) => match poll_value(event_loop, value) {
                PollDecision::Wait => {
                    self.stage = Stage::AwaitingResponse;
                    SessionAction::PollResponse
                },
                PollDecision::UseValue => {
                    self.stage = Stage::Idle;
                    self.request = None;
                    SessionAction::Respond(ResponseSource::Value)
                },
                PollDecision::UsePromiseResult => {
                    self.stage = Stage::Idle;
                    self.request = None;
                    SessionAction::Respond(ResponseSource::PromiseResult)
                },
                PollDecision::RaiseRejection => self.fail(SessionFailure::Rejected),
                PollDecision::EventLoopFailed(e) => self.fail(SessionFailure::Engine(e)),
                PollDecision::StillPending =>
                    self.fail(SessionFailure::Sandbox(SandboxError::StillPendingAfterEventLoop)),
            },
        }
    }

    fn fail<E>(&mut self, f: SessionFailure<E>) -> (a: SessionAction<E>)
        ensures
            (final(self)@, a) == fail(old(self)@, f),
    {
        self.stage = Stage::Idle;
        self.request = None;
        SessionAction::Fail(f)
    }
}

} // verus!
