use ncino_sandbox::error::SandboxError;
use ncino_sandbox::module_url::{module_specifier, path_is_absolute};
use ncino_sandbox::poll::{poll_value, EventLoopPoll, PollDecision, ValueState};
use ncino_sandbox::session::{
    DefaultExport, Flavor, HandlerArgs, ResponseSource, Session, SessionAction, SessionEvent, SessionFailure, Stage,
};

type Action = SessionAction<String>;
type Event = SessionEvent<String>;

fn handler() -> DefaultExport {
    DefaultExport::Present { is_function: true, is_async_function: false }
}

#[test]
fn module_specifier_of_absolute_path() {
    assert_eq!(module_specifier("/srv/app/main.js").ok().unwrap(), "file:///srv/app/main.js");
    assert_eq!(module_specifier("/").ok().unwrap(), "file:///");
    assert_eq!(module_specifier("/a b/c%.js").ok().unwrap(), "file:///a%20b/c%25.js");
}

#[test]
fn module_specifier_of_relative_path_is_refused() {
    let e = module_specifier("srv/main.js").err().unwrap();
    assert!(matches!(e, SandboxError::ModulePathNotUrl));
    assert_eq!(e.message(), "could not create url from module path");
    assert!(module_specifier("").is_err());
    assert!(module_specifier("./main.js").is_err());
}

#[test]
fn absolute_paths() {
    assert!(path_is_absolute("/x"));
    assert!(!path_is_absolute("x/"));
    assert!(!path_is_absolute(""));
}

#[test]
fn poll_value_table() {
    let d: PollDecision<String> = poll_value(EventLoopPoll::Pending, ValueState::NotPromise);
    assert!(matches!(d, PollDecision::UseValue));
    let d: PollDecision<String> = poll_value(EventLoopPoll::Ready(Ok(())), ValueState::PromiseFulfilled);
    assert!(matches!(d, PollDecision::UsePromiseResult));
    let d: PollDecision<String> = poll_value(EventLoopPoll::Pending, ValueState::PromiseRejected);
    assert!(matches!(d, PollDecision::RaiseRejection));
    let d: PollDecision<String> = poll_value(EventLoopPoll::Pending, ValueState::PromisePending);
    assert!(matches!(d, PollDecision::Wait));
    let d: PollDecision<String> = poll_value(EventLoopPoll::Ready(Ok(())), ValueState::PromisePending);
    assert!(matches!(d, PollDecision::StillPending));
    let d = poll_value(EventLoopPoll::Ready(Err("loop".to_string())), ValueState::PromisePending);
    assert!(matches!(d, PollDecision::EventLoopFailed(e) if e == "loop"));
}

#[test]
fn still_pending_message() {
    assert_eq!(
        SandboxError::StillPendingAfterEventLoop.message(),
        "Promise resolution is still pending but the event loop has already resolved."
    );
}

#[test]
fn host_bootstrap_loads_main_module_and_records_its_id() {
    let mut s = Session::new(Flavor::Host);
    assert_eq!(s.root_mod_id, 0);
    let a: Action = s.bootstrap("/srv/main.js");
    assert!(matches!(a, SessionAction::LoadModule { ref specifier, as_main: true } if specifier == "file:///srv/main.js"));
    let a = s.step(Event::ModuleLoaded(Ok(5)));
    assert!(matches!(a, SessionAction::EvaluateModule(5)));
    assert_eq!(s.root_mod_id, 5);
    let a = s.step(Event::EventLoopRan(Ok(())));
    assert!(matches!(a, SessionAction::AwaitEvaluation));
    let a = s.step(Event::ModuleEvaluated(Ok(())));
    assert!(matches!(a, SessionAction::Bootstrapped));
    assert!(s.stage == Stage::Idle);
    let a: Action = s.run();
    assert!(matches!(a, SessionAction::ResolveNamespace(5)));
}

#[test]
fn edge_function_bootstrap_loads_side_module() {
    let mut s = Session::new(Flavor::EdgeFunction);
    let a: Action = s.bootstrap("/fn/index.js");
    assert!(matches!(a, SessionAction::LoadModule { as_main: false, .. }));
}

#[test]
fn bootstrap_of_relative_path_fails_at_once() {
    let mut s = Session::new(Flavor::Host);
    let a: Action = s.bootstrap("main.js");
    assert!(matches!(a, SessionAction::Fail(SessionFailure::Sandbox(SandboxError::ModulePathNotUrl))));
    assert!(s.stage == Stage::Idle);
}

#[test]
fn bootstrap_load_error_is_passed_on() {
    let mut s = Session::new(Flavor::Host);
    let _: Action = s.bootstrap("/m.js");
    let a = s.step(Event::ModuleLoaded(Err("no such file".to_string())));
    assert!(matches!(a, SessionAction::Fail(SessionFailure::Engine(ref e)) if e == "no such file"));
    assert!(s.stage == Stage::Idle);
    assert_eq!(s.root_mod_id, 0);
}

#[test]
fn bootstrap_evaluation_error_keeps_loaded_module() {
    let mut s = Session::new(Flavor::EdgeFunction);
    let _: Action = s.bootstrap("/m.js");
    s.step(Event::ModuleLoaded(Ok(3)));
    s.step(Event::EventLoopRan(Ok(())));
    let a = s.step(Event::ModuleEvaluated(Err("threw".to_string())));
    assert!(matches!(a, SessionAction::Fail(SessionFailure::Engine(_))));
    assert_eq!(s.root_mod_id, 3);
}

fn ready(flavor: Flavor) -> Session {
    let mut s = Session::new(flavor);
    let _: Action = s.bootstrap("/m.js");
    s.step(Event::ModuleLoaded(Ok(1)));
    s.step(Event::EventLoopRan(Ok(())));
    s.step(Event::ModuleEvaluated(Ok(())));
    s
}

#[test]
fn host_run_responds_with_fulfilled_promise() {
    let mut s = ready(Flavor::Host);
    let _: Action = s.run();
    assert!(matches!(s.step(Event::NamespaceResolved(Ok(()))), SessionAction::LookUpHandler));
    assert!(matches!(
        s.step(Event::DefaultExportFound(handler())),
        SessionAction::CallHandler(HandlerArgs::RequestValue)
    ));
    assert!(matches!(s.step(Event::HandlerCalled(true)), SessionAction::PollResponse));
    let a = s.step(Event::ResponsePolled(EventLoopPoll::Pending, ValueState::PromisePending));
    assert!(matches!(a, SessionAction::PollResponse));
    let a = s.step(Event::ResponsePolled(EventLoopPoll::Pending, ValueState::PromiseFulfilled));
    assert!(matches!(a, SessionAction::Respond(ResponseSource::PromiseResult)));
    assert!(s.stage == Stage::Idle);
}

#[test]
fn edge_function_run_converts_request_and_runs_event_loop() {
    let mut s = ready(Flavor::EdgeFunction);
    let _: Action = s.run_with_request(("{\"q\":1}".to_string(), vec![7, 8]));
    s.step(Event::NamespaceResolved(Ok(())));
    let async_handler = DefaultExport::Present { is_function: false, is_async_function: true };
    match s.step(Event::DefaultExportFound(async_handler)) {
        SessionAction::ConvertRequest { json, body } => {
            assert_eq!(json, "{\"q\":1}");
            assert_eq!(body, vec![7, 8]);
        }
        _ => panic!("expected the request to be handed over"),
    }
    assert!(s.request.is_none());
    assert!(matches!(
        s.step(Event::RequestConverted(true)),
        SessionAction::CallHandler(HandlerArgs::JsonThenBody)
    ));
    assert!(matches!(s.step(Event::HandlerCalled(true)), SessionAction::RunEventLoop));
    assert!(matches!(s.step(Event::EventLoopRan(Ok(()))), SessionAction::PollResponse));
    let a = s.step(Event::ResponsePolled(EventLoopPoll::Ready(Ok(())), ValueState::NotPromise));
    assert!(matches!(a, SessionAction::Respond(ResponseSource::Value)));
}

#[test]
fn run_without_default_export_fails() {
    let mut s = ready(Flavor::Host);
    let _: Action = s.run();
    s.step(Event::NamespaceResolved(Ok(())));
    let a = s.step(Event::DefaultExportFound(DefaultExport::Missing));
    match a {
        SessionAction::Fail(SessionFailure::Sandbox(e)) => {
            assert_eq!(e.message(), "main module does not have a default export")
        }
        _ => panic!("expected a failure"),
    }
}

#[test]
fn run_with_non_function_export_fails() {
    let mut s = ready(Flavor::EdgeFunction);
    let _: Action = s.run_with_request(("{\"q\":1}".to_string(), vec![7, 8]));
    s.step(Event::NamespaceResolved(Ok(())));
    let export = DefaultExport::Present { is_function: false, is_async_function: false };
    match s.step(Event::DefaultExportFound(export)) {
        SessionAction::Fail(SessionFailure::Sandbox(e)) => {
            assert_eq!(e.message(), "default export is not a handler function")
        }
        _ => panic!("expected a failure"),
    }
}

#[test]
fn run_with_unconvertible_request_fails() {
    let mut s = ready(Flavor::EdgeFunction);
    let _: Action = s.run_with_request(("{\"q\":1}".to_string(), vec![7, 8]));
    s.step(Event::NamespaceResolved(Ok(())));
    s.step(Event::DefaultExportFound(handler()));
    match s.step(Event::RequestConverted(false)) {
        SessionAction::Fail(SessionFailure::Sandbox(e)) => {
            assert_eq!(e.message(), "could not convert request json to a value in the new isolate")
        }
        _ => panic!("expected a failure"),
    }
}

#[test]
fn run_whose_handler_returns_nothing_fails() {
    let mut s = ready(Flavor::Host);
    let _: Action = s.run();
    s.step(Event::NamespaceResolved(Ok(())));
    s.step(Event::DefaultExportFound(handler()));
    match s.step(Event::HandlerCalled(false)) {
        SessionAction::Fail(SessionFailure::Sandbox(e)) => {
            assert_eq!(e.message(), "handler function must return a response value")
        }
        _ => panic!("expected a failure"),
    }
}

#[test]
fn run_namespace_error_is_passed_on() {
    let mut s = ready(Flavor::Host);
    let _: Action = s.run();
    let a = s.step(Event::NamespaceResolved(Err("bad module".to_string())));
    assert!(matches!(a, SessionAction::Fail(SessionFailure::Engine(ref e)) if e == "bad module"));
}

#[test]
fn run_rejected_promise_fails_with_rejection() {
    let mut s = ready(Flavor::Host);
    let _: Action = s.run();
    s.step(Event::NamespaceResolved(Ok(())));
    s.step(Event::DefaultExportFound(handler()));
    s.step(Event::HandlerCalled(true));
    let a = s.step(Event::ResponsePolled(EventLoopPoll::Pending, ValueState::PromiseRejected));
    assert!(matches!(a, SessionAction::Fail(SessionFailure::Rejected)));
}

#[test]
fn run_pending_after_event_loop_fails() {
    let mut s = ready(Flavor::EdgeFunction);
    let _: Action = s.run_with_request(("{\"q\":1}".to_string(), vec![7, 8]));
    s.step(Event::NamespaceResolved(Ok(())));
    s.step(Event::DefaultExportFound(handler()));
    s.step(Event::RequestConverted(true));
    s.step(Event::HandlerCalled(true));
    s.step(Event::EventLoopRan(Ok(())));
    let a = s.step(Event::ResponsePolled(EventLoopPoll::Ready(Ok(())), ValueState::PromisePending));
    assert!(matches!(a, SessionAction::Fail(SessionFailure::Sandbox(SandboxError::StillPendingAfterEventLoop))));
    assert!(s.stage == Stage::Idle);
}

#[test]
fn run_event_loop_error_is_passed_on() {
    let mut s = ready(Flavor::EdgeFunction);
    let _: Action = s.run_with_request(("{\"q\":1}".to_string(), vec![7, 8]));
    s.step(Event::NamespaceResolved(Ok(())));
    s.step(Event::DefaultExportFound(handler()));
    s.step(Event::RequestConverted(true));
    s.step(Event::HandlerCalled(true));
    let a = s.step(Event::EventLoopRan(Err("timer".to_string())));
    assert!(matches!(a, SessionAction::Fail(SessionFailure::Engine(ref e)) if e == "timer"));
}

#[test]
fn failed_run_drops_request() {
    let mut s = ready(Flavor::EdgeFunction);
    let _: Action = s.run_with_request(("{}".to_string(), vec![1]));
    assert!(s.request.is_some());
    s.step(Event::NamespaceResolved(Err("gone".to_string())));
    assert!(s.stage == Stage::Idle);
    assert!(s.request.is_none());
}

#[test]
fn abandoned_session_is_idle_again() {
    let mut s = ready(Flavor::EdgeFunction);
    let _: Action = s.run_with_request(("{}".to_string(), vec![1]));
    s.step(Event::NamespaceResolved(Ok(())));
    s.abandon();
    assert!(s.stage == Stage::Idle);
    assert!(s.request.is_none());
    assert_eq!(s.root_mod_id, 1);
    let a: Action = s.run_with_request(("{}".to_string(), vec![]));
    assert!(matches!(a, SessionAction::ResolveNamespace(1)));
}
