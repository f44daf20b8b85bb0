use vstd::prelude::*;

verus! {

/// What polling the engine's event loop reported: still busy, or done with
/// the event loop's own result.
pub enum EventLoopPoll<E> {
    Pending,
    Ready(Result<(), E>),
}

/// What the value returned by a handler is, seen from the engine.
pub enum ValueState {
    /// The value is not a promise.
    NotPromise,
    /// A promise that has not settled yet.
    PromisePending,
    /// A promise that settled with a result.
    PromiseFulfilled,
    /// A promise that settled with an exception.
    PromiseRejected,
}

/// What to do after one poll of a handler's response.
pub enum PollDecision<E> {
    /// Poll again later.
    Wait,
    /// The response is the value itself.
    UseValue,
    /// The response is the result the promise settled with.
    UsePromiseResult,
    /// Fail with the exception the promise was rejected with.
    RaiseRejection,
    /// Fail with the event loop's error.
    EventLoopFailed(E),
    /// Fail because the promise can no longer settle.
    StillPending,
}

/// Decides how a polled handler response settles, from the event loop's
/// state and the state of the value.
///
/// A value that is not a promise is the response at once; a settled promise
/// gives its result or its exception; a pending promise waits while the event
/// loop is busy, fails with the event loop's error if it failed, and fails as
/// still pending if the event loop finished without settling it.
pub fn poll_value<E>(event_loop: EventLoopPoll<E>, value: ValueState) -> (d: PollDecision<E>)
    ensures
        value is NotPromise ==> d is UseValue,
        value is PromiseFulfilled ==> d is UsePromiseResult,
        value is PromiseRejected ==> d is RaiseRejection,
        value is PromisePending ==> match event_loop {
            EventLoopPoll::Pending => d is Wait,
            EventLoopPoll::Ready(Ok(())) => d is StillPending,
            EventLoopPoll::Ready(Err(e)) => d == PollDecision::EventLoopFailed(e),
        },
{
    match value {
        ValueState::PromisePending => match event_loop {
            EventLoopPoll::Ready(Ok(())) => PollDecision::StillPending,
            EventLoopPoll::Ready(Err(e)) => PollDecision::EventLoopFailed(e),
            EventLoopPoll::Pending => PollDecision::Wait,
        },
        ValueState::PromiseFulfilled => PollDecision::UsePromiseResult,
        ValueState::PromiseRejected => PollDecision::RaiseRejection,
        ValueState::NotPromise => PollDecision::UseValue,
    }
}

} // verus!
