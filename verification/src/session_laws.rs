use vstd::prelude::*;
use crate::poll::{EventLoopPoll, ValueState};
use crate::error::SandboxError;
use crate::session::{DefaultExport, SessionFailure, ResponseSource, accepts, is_handler, step_spec, Flavor, HandlerArgs, SessionAction, SessionEvent, SessionView, Stage};

verus! {

/// The session's states and actions along a sequence of engine results; the
/// sequence is followed as long as each result is one the session waits for.
pub open spec fn run_trace<E>(s: SessionView, events: Seq<SessionEvent<E>>) -> (SessionView, Seq<SessionAction<E>>)
    decreases events.len(),
{
    if events.len() == 0 || !accepts(s.stage, events[0]) {
        (s, Seq::empty())
    } else {
        let (s1, a) = step_spec(s, events[0]);
        let (s2, rest) = run_trace(s1, events.drop_first());
        (s2, seq![a] + rest)
    }
}

/// A result that reports a default export usable as handler.
pub open spec fn reports_handler<E>(event: SessionEvent<E>) -> bool {
    event matches SessionEvent::DefaultExportFound(export) && is_handler(export)
}

/// Some result among the first `k + 1` satisfies `p`.
pub open spec fn occurs_upto<E>(events: Seq<SessionEvent<E>>, k: int, p: spec_fn(SessionEvent<E>) -> bool) -> bool {
    exists|j: int| 0 <= j <= k && j < events.len() && p(#[trigger] events[j])
}

/// Some result among the first `k + 1` reports a usable handler.
pub open spec fn handler_seen<E>(events: Seq<SessionEvent<E>>, k: int) -> bool {
    occurs_upto(events, k, |e: SessionEvent<E>| reports_handler(e))
}

/// Some result among the first `k + 1` reports that the handler returned a value.
pub open spec fn handler_returned<E>(events: Seq<SessionEvent<E>>, k: int) -> bool {
    occurs_upto(events, k, |e: SessionEvent<E>| e == SessionEvent::<E>::HandlerCalled(true))
}

/// Some result among the first `k + 1` reports a converted request.
pub open spec fn request_converted<E>(events: Seq<SessionEvent<E>>, k: int) -> bool {
    occurs_upto(events, k, |e: SessionEvent<E>| e == SessionEvent::<E>::RequestConverted(true))
}

proof fn lemma_trace_len<E>(s: SessionView, events: Seq<SessionEvent<E>>)
    ensures
        run_trace(s, events).1.len() <= events.len(),
    decreases events.len(),
{
    if events.len() > 0 && accepts(s.stage, events[0]) {
        let (s1, a) = step_spec(s, events[0]);
        lemma_trace_len(s1, events.drop_first());
    }
}

proof fn lemma_shift<E>(events: Seq<SessionEvent<E>>, k: int, p: spec_fn(SessionEvent<E>) -> bool)
    requires
        events.len() > 0,
        occurs_upto(events.drop_first(), k - 1, p),
    ensures
        occurs_upto(events, k, p),
{
    let j = choose|j: int| 0 <= j <= k - 1 && j < events.drop_first().len() && p(#[trigger] events.drop_first()[j]);
    assert(events.drop_first()[j] == events[j + 1]);
}

proof fn lemma_call_needs_handler<E>(s: SessionView, events: Seq<SessionEvent<E>>, k: int)
    requires
        0 <= k < run_trace(s, events).1.len(),
        run_trace(s, events).1[k] is CallHandler,
    ensures
        s.stage == Stage::ConvertingRequest || handler_seen(events, k),
    decreases events.len(),
{
    let (s1, a) = step_spec(s, events[0]);
    let rest = run_trace(s1, events.drop_first()).1;
    assert(run_trace(s, events).1 == seq![a] + rest);
    if k == 0 {
        assert(a is CallHandler);
        if s.stage != Stage::ConvertingRequest {
            assert(reports_handler(events[0]));
        }
    } else {
        assert(rest[k - 1] is CallHandler);
        lemma_call_needs_handler(s1, events.drop_first(), k - 1);
        if s1.stage == Stage::ConvertingRequest {
            assert(reports_handler(events[0]));
        } else {
            lemma_shift(events, k, |e: SessionEvent<E>| reports_handler(e));
        }
    }
}

/// The handler is called only after the module's `default` export was found
/// to be a function or an async function: in every run, an action
/// `CallHandler` is preceded by a result that reports such an export.
pub proof fn law_handler_called_only_if_callable<E>(s: SessionView, events: Seq<SessionEvent<E>>, k: int)
    requires
        s.stage == Stage::ResolvingNamespace,
        0 <= k < run_trace(s, events).1.len(),
        run_trace(s, events).1[k] is CallHandler,
    ensures
        handler_seen(events, k),
{
    lemma_call_needs_handler(s, events, k);
}

proof fn lemma_call_needs_conversion<E>(s: SessionView, events: Seq<SessionEvent<E>>, k: int)
    requires
        s.flavor == Flavor::EdgeFunction,
        0 <= k < run_trace(s, events).1.len(),
        run_trace(s, events).1[k] is CallHandler,
    ensures
        request_converted(events, k),
    decreases events.len(),
{
    let (s1, a) = step_spec(s, events[0]);
    let rest = run_trace(s1, events.drop_first()).1;
    assert(run_trace(s, events).1 == seq![a] + rest);
    if k == 0 {
        assert(a is CallHandler);
        assert(events[0] == SessionEvent::<E>::RequestConverted(true));
    } else {
        assert(rest[k - 1] is CallHandler);
        lemma_call_needs_conversion(s1, events.drop_first(), k - 1);
        lemma_shift(events, k, |e: SessionEvent<E>| e == SessionEvent::<E>::RequestConverted(true));
    }
}

/// An edge-function runtime calls its handler only after the request's JSON
/// was converted for the isolate.
pub proof fn law_edge_function_converts_before_call<E>(s: SessionView, events: Seq<SessionEvent<E>>, k: int)
    requires
        s.flavor == Flavor::EdgeFunction,
        0 <= k < run_trace(s, events).1.len(),
        run_trace(s, events).1[k] is CallHandler,
    ensures
        request_converted(events, k),
{
    lemma_call_needs_conversion(s, events, k);
}

pub open spec fn after_call(stage: Stage) -> bool {
    stage == Stage::RunningHandlerEventLoop || stage == Stage::AwaitingResponse
}

proof fn lemma_respond_needs_return<E>(s: SessionView, events: Seq<SessionEvent<E>>, k: int)
    requires
        0 <= k < run_trace(s, events).1.len(),
        run_trace(s, events).1[k] is Respond,
    ensures
        after_call(s.stage) || handler_returned(events, k),
    decreases events.len(),
{
    let (s1, a) = step_spec(s, events[0]);
    let rest = run_trace(s1, events.drop_first()).1;
    assert(run_trace(s, events).1 == seq![a] + rest);
    if k == 0 {
        assert(a is Respond);
    } else {
        assert(rest[k - 1] is Respond);
        lemma_respond_needs_return(s1, events.drop_first(), k - 1);
        if after_call(s1.stage) {
            if !after_call(s.stage) {
                assert(events[0] == SessionEvent::<E>::HandlerCalled(true));
            }
        } else {
            lemma_shift(events, k, |e: SessionEvent<E>| e == SessionEvent::<E>::HandlerCalled(true));
        }
    }
}

proof fn lemma_respond_needs_handler<E>(s: SessionView, events: Seq<SessionEvent<E>>, k: int)
    requires
        0 <= k < run_trace(s, events).1.len(),
        run_trace(s, events).1[k] is Respond,
    ensures
        s.stage == Stage::ConvertingRequest || s.stage == Stage::CallingHandler || after_call(s.stage)
            || handler_seen(events, k),
    decreases events.len(),
{
    let (s1, a) = step_spec(s, events[0]);
    let rest = run_trace(s1, events.drop_first()).1;
    assert(run_trace(s, events).1 == seq![a] + rest);
    if k == 0 {
        assert(a is Respond);
    } else {
        assert(rest[k - 1] is Respond);
        lemma_respond_needs_handler(s1, events.drop_first(), k - 1);
        if s1.stage == Stage::ConvertingRequest || s1.stage == Stage::CallingHandler || after_call(s1.stage) {
            if !(s.stage == Stage::ConvertingRequest || s.stage == Stage::CallingHandler || after_call(s.stage)) {
                assert(reports_handler(events[0]));
            }
        } else {
            lemma_shift(events, k, |e: SessionEvent<E>| reports_handler(e));
        }
    }
}

/// A run responds only after the `default` export was found to be a handler
/// and the handler, when called, returned a value; the response is taken
/// from a value that is no promise or from a fulfilled promise.
pub proof fn law_response_needs_handler_value<E>(s: SessionView, events: Seq<SessionEvent<E>>, k: int)
    requires
        s.stage == Stage::ResolvingNamespace,
        0 <= k < run_trace(s, events).1.len(),
        run_trace(s, events).1[k] is Respond,
    ensures
        handler_seen(events, k),
        handler_returned(events, k),
        events[k] matches SessionEvent::ResponsePolled(_, value)
            && (value is NotPromise || value is PromiseFulfilled),
{
    lemma_respond_needs_handler(s, events, k);
    lemma_respond_needs_return(s, events, k);
    lemma_respond_is_settled(s, events, k);
}

proof fn lemma_respond_is_settled<E>(s: SessionView, events: Seq<SessionEvent<E>>, k: int)
    requires
        0 <= k < run_trace(s, events).1.len(),
        run_trace(s, events).1[k] is Respond,
    ensures
        events[k] matches SessionEvent::ResponsePolled(_, value)
            && (value is NotPromise || value is PromiseFulfilled),
    decreases events.len(),
{
    lemma_trace_len(s, events);
    let (s1, a) = step_spec(s, events[0]);
    let rest = run_trace(s1, events.drop_first()).1;
    assert(run_trace(s, events).1 == seq![a] + rest);
    if k > 0 {
        assert(rest[k - 1] is Respond);
        lemma_respond_is_settled(s1, events.drop_first(), k - 1);
        assert(events.drop_first()[k - 1] == events[k]);
    }
}

proof fn lemma_root_kept<E>(s: SessionView, events: Seq<SessionEvent<E>>)
    requires
        s.stage != Stage::LoadingModule,
        s.stage != Stage::Idle,
    ensures
        run_trace(s, events).0.root_mod_id == s.root_mod_id,
        run_trace(s, events).0.flavor == s.flavor,
    decreases events.len(),
{
    if events.len() > 0 && accepts(s.stage, events[0]) {
        let (s1, a) = step_spec(s, events[0]);
        if s1.stage != Stage::Idle {
            lemma_root_kept(s1, events.drop_first());
        } else {
            assert(run_trace(s1, events.drop_first()).0 == s1);
        }
    }
}

/// Bootstrapping must precede a run because a run reads the module that the
/// bootstrap loaded: when the load reports module id `m`, the session ends
/// the bootstrap with root module `m`, whatever the later results, and the
/// next run asks for the namespace of module `m`.
pub proof fn law_run_reads_bootstrapped_module<E>(s: SessionView, m: usize, events: Seq<SessionEvent<E>>)
    requires
        s.stage == Stage::LoadingModule,
        events.len() > 0,
        events[0] == SessionEvent::<E>::ModuleLoaded(Ok(m)),
    ensures
        run_trace(s, events).0.root_mod_id == m,
        run_trace(s, events).0.flavor == s.flavor,
{
    let (s1, a) = step_spec(s, events[0]);
    lemma_root_kept(s1, events.drop_first());
}

proof fn lemma_no_call_after_call<E>(s: SessionView, events: Seq<SessionEvent<E>>, k: int)
    requires
        s.stage == Stage::CallingHandler || after_call(s.stage),
        0 <= k < run_trace(s, events).1.len(),
    ensures
        !(run_trace(s, events).1[k] is CallHandler),
    decreases events.len(),
{
    let (s1, a) = step_spec(s, events[0]);
    let rest = run_trace(s1, events.drop_first()).1;
    assert(run_trace(s, events).1 == seq![a] + rest);
    if k > 0 {
        if s1.stage == Stage::Idle {
            assert(rest.len() == 0);
        } else {
            lemma_no_call_after_call(s1, events.drop_first(), k - 1);
        }
    }
}

proof fn lemma_call_once<E>(s: SessionView, events: Seq<SessionEvent<E>>, j: int, k: int)
    requires
        0 <= j < k < run_trace(s, events).1.len(),
        run_trace(s, events).1[j] is CallHandler,
    ensures
        !(run_trace(s, events).1[k] is CallHandler),
    decreases events.len(),
{
    let (s1, a) = step_spec(s, events[0]);
    let rest = run_trace(s1, events.drop_first()).1;
    assert(run_trace(s, events).1 == seq![a] + rest);
    if j == 0 {
        assert(s1.stage == Stage::CallingHandler);
        lemma_no_call_after_call(s1, events.drop_first(), k - 1);
    } else {
        lemma_call_once(s1, events.drop_first(), j - 1, k - 1);
    }
}

/// A run calls the handler at most once: in every sequence of results, at
/// most one action is `CallHandler`.
pub proof fn law_handler_called_at_most_once<E>(s: SessionView, events: Seq<SessionEvent<E>>, j: int, k: int)
    requires
        0 <= j < run_trace(s, events).1.len(),
        0 <= k < run_trace(s, events).1.len(),
        run_trace(s, events).1[j] is CallHandler,
        run_trace(s, events).1[k] is CallHandler,
    ensures
        j == k,
{
    if j < k {
        lemma_call_once(s, events, j, k);
    } else if k < j {
        lemma_call_once(s, events, k, j);
    }
}

proof fn lemma_edge_args<E>(s: SessionView, events: Seq<SessionEvent<E>>, k: int)
    requires
        s.flavor == Flavor::EdgeFunction,
        0 <= k < run_trace(s, events).1.len(),
        run_trace(s, events).1[k] is CallHandler,
    ensures
        run_trace(s, events).1[k] == SessionAction::<E>::CallHandler(HandlerArgs::JsonThenBody),
    decreases events.len(),
{
    let (s1, a) = step_spec(s, events[0]);
    let rest = run_trace(s1, events.drop_first()).1;
    assert(run_trace(s, events).1 == seq![a] + rest);
    if k > 0 {
        lemma_edge_args(s1, events.drop_first(), k - 1);
    }
}

/// The request JSON and body of the run are among the first `k` actions,
/// handed over for conversion.
pub open spec fn request_handed_over<E>(actions: Seq<SessionAction<E>>, k: int, request: (String, Vec<u8>)) -> bool {
    exists|j: int| 0 <= j < k && #[trigger] actions[j] == SessionAction::<E>::ConvertRequest {
        json: request.0,
        body: request.1,
    }
}

proof fn lemma_request_handed_over<E>(s: SessionView, events: Seq<SessionEvent<E>>, k: int, request: (String, Vec<u8>))
    requires
        s.flavor == Flavor::EdgeFunction,
        (s.stage == Stage::ResolvingNamespace || s.stage == Stage::LookingUpHandler) ==> s.request == Some(request),
        0 <= k < run_trace(s, events).1.len(),
        run_trace(s, events).1[k] is CallHandler,
    ensures
        s.stage == Stage::ConvertingRequest || request_handed_over(run_trace(s, events).1, k, request),
    decreases events.len(),
{
    let (s1, a) = step_spec(s, events[0]);
    let rest = run_trace(s1, events.drop_first()).1;
    let acts = run_trace(s, events).1;
    assert(acts == seq![a] + rest);
    if k > 0 {
        lemma_request_handed_over(s1, events.drop_first(), k - 1, request);
        if s1.stage == Stage::ConvertingRequest && s.stage != Stage::ConvertingRequest {
            assert(acts[0] == SessionAction::<E>::ConvertRequest { json: request.0, body: request.1 });
        } else if s.stage != Stage::ConvertingRequest {
            let j = choose|j: int| 0 <= j < k - 1 && #[trigger] rest[j] == SessionAction::<E>::ConvertRequest {
                json: request.0,
                body: request.1,
            };
            assert(acts[j + 1] == rest[j]);
        }
    }
}

/// An edge-function run calls its handler with its own request: the call
/// passes two arguments, the converted JSON then the body buffer, and it
/// comes after the run handed exactly the request's JSON and body over for
/// conversion.
pub proof fn law_edge_function_handler_gets_request<E>(
    s: SessionView,
    request: (String, Vec<u8>),
    events: Seq<SessionEvent<E>>,
    k: int,
)
    requires
        s.flavor == Flavor::EdgeFunction,
        s.stage == Stage::ResolvingNamespace,
        s.request == Some(request),
        0 <= k < run_trace(s, events).1.len(),
        run_trace(s, events).1[k] is CallHandler,
    ensures
        run_trace(s, events).1[k] == SessionAction::<E>::CallHandler(HandlerArgs::JsonThenBody),
        request_handed_over(run_trace(s, events).1, k, request),
{
    lemma_edge_args(s, events, k);
    lemma_request_handed_over(s, events, k, request);
}

/// A run's response comes from where the handler's value says, whatever
/// the flavor and the event loop: a fulfilled promise gives the promise's
/// result, a value that is no promise is the response itself, and no other
/// result gives either.
pub proof fn law_response_source_follows_value<E>(s: SessionView, event_loop: EventLoopPoll<E>, event: SessionEvent<E>)
    ensures
        step_spec(s, SessionEvent::ResponsePolled(event_loop, ValueState::PromiseFulfilled)).1
            == SessionAction::<E>::Respond(ResponseSource::PromiseResult),
        step_spec(s, SessionEvent::ResponsePolled(event_loop, ValueState::NotPromise)).1
            == SessionAction::<E>::Respond(ResponseSource::Value),
        step_spec(s, event).1 == SessionAction::<E>::Respond(ResponseSource::Value)
            ==> (event matches SessionEvent::ResponsePolled(_, value) && value is NotPromise),
        step_spec(s, event).1 == SessionAction::<E>::Respond(ResponseSource::PromiseResult)
            ==> (event matches SessionEvent::ResponsePolled(_, value) && value is PromiseFulfilled),
{
}

/// The module evaluated is the module whose load was reported, for both
/// flavors: after the load of module `m`, the next action evaluates `m`,
/// and `m` becomes the root module.
pub proof fn law_loaded_module_is_evaluated<E>(s: SessionView, m: usize)
    ensures
        step_spec(s, SessionEvent::<E>::ModuleLoaded(Ok(m))).1 == SessionAction::<E>::EvaluateModule(m),
        step_spec(s, SessionEvent::<E>::ModuleLoaded(Ok(m))).0.root_mod_id == m,
        step_spec(s, SessionEvent::<E>::ModuleLoaded(Ok(m))).0.flavor == s.flavor,
{
}

/// Every engine error ends the bootstrap or run with that very error,
/// leaving the session idle and without a request; its flavor and root
/// module stay as they were.
pub proof fn law_engine_errors_end_operation<E>(s: SessionView, e: E, event: SessionEvent<E>)
    requires
        event == SessionEvent::<E>::ModuleLoaded(Err(e)) || event == SessionEvent::<E>::EventLoopRan(Err(e))
            || event == SessionEvent::<E>::ModuleEvaluated(Err(e)) || event == SessionEvent::<E>::NamespaceResolved(Err(e))
            || event == SessionEvent::<E>::ResponsePolled(EventLoopPoll::Ready(Err(e)), ValueState::PromisePending),
    ensures
        step_spec(s, event).1 == SessionAction::<E>::Fail(SessionFailure::Engine(e)),
        step_spec(s, event).0.stage == Stage::Idle,
        step_spec(s, event).0.request is None,
        step_spec(s, event).0.flavor == s.flavor,
        step_spec(s, event).0.root_mod_id == s.root_mod_id,
{
}

/// The sandbox's own refusals: a missing `default` export, one that is no
/// function, a request that cannot be converted, a handler that returns
/// nothing, a promise still pending after the event loop ended, and a
/// rejected promise each end the run with their failure, leaving the
/// session idle.
pub proof fn law_run_refusals<E>(s: SessionView)
    ensures
        step_spec(s, SessionEvent::<E>::DefaultExportFound(DefaultExport::Missing))
            == ((SessionView { stage: Stage::Idle, request: None, ..s },
                SessionAction::<E>::Fail(SessionFailure::Sandbox(SandboxError::NoDefaultExport)))),
        step_spec(s, SessionEvent::<E>::DefaultExportFound(
            DefaultExport::Present { is_function: false, is_async_function: false },
        )) == ((SessionView { stage: Stage::Idle, request: None, ..s },
                SessionAction::<E>::Fail(SessionFailure::Sandbox(SandboxError::DefaultExportNotHandler)))),
        step_spec(s, SessionEvent::<E>::RequestConverted(false))
            == ((SessionView { stage: Stage::Idle, request: None, ..s },
                SessionAction::<E>::Fail(SessionFailure::Sandbox(SandboxError::RequestNotConvertible)))),
        step_spec(s, SessionEvent::<E>::HandlerCalled(false))
            == ((SessionView { stage: Stage::Idle, request: None, ..s },
                SessionAction::<E>::Fail(SessionFailure::Sandbox(SandboxError::HandlerReturnedNothing)))),
        step_spec(s, SessionEvent::<E>::ResponsePolled(EventLoopPoll::Ready(Ok(())), ValueState::PromisePending))
            == ((SessionView { stage: Stage::Idle, request: None, ..s },
                SessionAction::<E>::Fail(SessionFailure::Sandbox(SandboxError::StillPendingAfterEventLoop)))),
        forall|l: EventLoopPoll<E>| #[trigger] step_spec(s, SessionEvent::ResponsePolled(l, ValueState::PromiseRejected))
            == ((SessionView { stage: Stage::Idle, request: None, ..s }, SessionAction::<E>::Fail(SessionFailure::Rejected))),
{
}

/// What the two flavors do differently: once a usable handler is found, an
/// edge function hands its request over for conversion and the host calls
/// the handler with its request value; once the handler returned a value,
/// an edge function runs the event loop and the host polls the response.
/// A pending promise with a busy event loop is polled again, in both.
pub proof fn law_flavor_routes<E>(s: SessionView, is_function: bool, is_async_function: bool, l: EventLoopPoll<E>)
    requires
        is_function || is_async_function,
    ensures
        s.flavor == Flavor::EdgeFunction ==> {
            &&& step_spec(s, SessionEvent::<E>::DefaultExportFound(DefaultExport::Present { is_function, is_async_function }))
                == ((SessionView { stage: Stage::ConvertingRequest, request: None, ..s },
                    SessionAction::<E>::ConvertRequest { json: s.request->Some_0.0, body: s.request->Some_0.1 }))
            &&& step_spec(s, SessionEvent::<E>::HandlerCalled(true))
                == ((SessionView { stage: Stage::RunningHandlerEventLoop, ..s }, SessionAction::<E>::RunEventLoop))
        },
        s.flavor == Flavor::Host ==> {
            &&& step_spec(s, SessionEvent::<E>::DefaultExportFound(DefaultExport::Present { is_function, is_async_function }))
                == ((SessionView { stage: Stage::CallingHandler, ..s },
                    SessionAction::<E>::CallHandler(HandlerArgs::RequestValue)))
            &&& step_spec(s, SessionEvent::<E>::HandlerCalled(true))
                == ((SessionView { stage: Stage::AwaitingResponse, ..s }, SessionAction::<E>::PollResponse))
        },
        step_spec(s, SessionEvent::<E>::RequestConverted(true))
            == ((SessionView { stage: Stage::CallingHandler, ..s }, SessionAction::<E>::CallHandler(HandlerArgs::JsonThenBody))),
        step_spec(s, SessionEvent::<E>::NamespaceResolved(Ok(())))
            == ((SessionView { stage: Stage::LookingUpHandler, ..s }, SessionAction::<E>::LookUpHandler)),
        step_spec(s, SessionEvent::<E>::ResponsePolled(EventLoopPoll::Pending, ValueState::PromisePending))
            == ((SessionView { stage: Stage::AwaitingResponse, ..s }, SessionAction::<E>::PollResponse)),
{
}

/// A bootstrap evaluates the module, runs the event loop, waits for the
/// evaluation, and then reports success, leaving the session idle.
pub proof fn law_bootstrap_order<E>(s: SessionView)
    requires
        s.stage == Stage::RunningModuleEventLoop,
    ensures
        step_spec(s, SessionEvent::<E>::EventLoopRan(Ok(())))
            == ((SessionView { stage: Stage::EvaluatingModule, ..s }, SessionAction::<E>::AwaitEvaluation)),
        step_spec(SessionView { stage: Stage::EvaluatingModule, ..s }, SessionEvent::<E>::ModuleEvaluated(Ok(())))
            == ((SessionView { stage: Stage::Idle, request: None, ..s }, SessionAction::<E>::Bootstrapped)),
{
}

} // verus!
