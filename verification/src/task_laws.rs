use vstd::prelude::*;
use crate::pool::WorkerView;
use crate::pool::Response;
use crate::task::{returned_worker, task_accepts, task_next, TaskEvent, TaskStage, WorkerTaskView};

verus! {

/// The workers a task sends back along a sequence of results, one entry per
/// result followed (`None` where nothing is sent); the sequence is followed
/// as long as each result is one the task waits for.
pub open spec fn task_returns<E>(t: WorkerTaskView, events: Seq<TaskEvent<E>>) -> Seq<Option<WorkerView>>
    decreases events.len(),
{
    if events.len() == 0 || !task_accepts(t.stage, events[0]) {
        Seq::empty()
    } else {
        seq![returned_worker(t, events[0])] + task_returns(task_next(t, events[0]), events.drop_first())
    }
}

/// The task as it starts for worker `w`.
pub open spec fn started(w: WorkerView) -> WorkerTaskView {
    WorkerTaskView { stage: TaskStage::Bootstrapping, worker: Some(w) }
}

proof fn lemma_no_return_after_handoff<E>(t: WorkerTaskView, events: Seq<TaskEvent<E>>, k: int)
    requires
        t.stage != TaskStage::Bootstrapping,
        t.stage != TaskStage::Running,
        0 <= k < task_returns(t, events).len(),
    ensures
        task_returns(t, events)[k] is None,
    decreases events.len(),
{
    let rest = task_returns(task_next(t, events[0]), events.drop_first());
    assert(task_returns(t, events) == seq![returned_worker(t, events[0])] + rest);
    if k > 0 {
        lemma_no_return_after_handoff(task_next(t, events[0]), events.drop_first(), k - 1);
    }
}

proof fn lemma_returned_is_own<E>(t: WorkerTaskView, w: WorkerView, events: Seq<TaskEvent<E>>, k: int)
    requires
        (t.stage == TaskStage::Bootstrapping || t.stage == TaskStage::Running) && t.worker == Some(w),
        0 <= k < task_returns(t, events).len(),
        task_returns(t, events)[k] matches Some(v),
    ensures
        task_returns(t, events)[k] matches Some(v) && v.id == w.id && v.path == w.path && v.request == w.request
            && v.response matches Some(Ok(_)),
        forall|j: int| 0 <= j < task_returns(t, events).len() && j != k ==> #[trigger] task_returns(t, events)[j] is None,
    decreases events.len(),
{
    let t1 = task_next(t, events[0]);
    let rest = task_returns(t1, events.drop_first());
    assert(task_returns(t, events) == seq![returned_worker(t, events[0])] + rest);
    if k == 0 {
        assert forall|j: int| 0 <= j < task_returns(t, events).len() && j != k implies #[trigger] task_returns(t, events)[j] is None by {
            lemma_no_return_after_handoff(t1, events.drop_first(), j - 1);
        }
    } else {
        if returned_worker(t, events[0]) is Some {
            lemma_no_return_after_handoff(t1, events.drop_first(), k - 1);
        }
        lemma_returned_is_own(t1, w, events.drop_first(), k - 1);
    }
}

/// Every worker that a worker thread sends back carries a response, and it
/// is the very worker it received (same id, module path and request); a
/// task sends its worker back at most once.
pub proof fn law_returned_worker_has_response<E>(w: WorkerView, events: Seq<TaskEvent<E>>, k: int)
    requires
        0 <= k < task_returns(started(w), events).len(),
        task_returns(started(w), events)[k] is Some,
    ensures
        task_returns(started(w), events)[k] matches Some(v) && v.id == w.id && v.path == w.path
            && v.request == w.request && v.response matches Some(Ok(_)),
        forall|j: int| 0 <= j < task_returns(started(w), events).len() && j != k
            ==> #[trigger] task_returns(started(w), events)[j] is None,
{
    lemma_returned_is_own(started(w), w, events, k);
}

/// The worker sent back after a run carries exactly the run's response:
/// the response JSON and body are those the run produced, unchanged, and
/// the worker's id, module path and request are those it was received with.
pub proof fn law_returned_worker_carries_run_response<E>(t: WorkerTaskView, resp: Response)
    requires
        t.worker is Some,
    ensures
        returned_worker(t, TaskEvent::<E>::Ran(Ok(resp))) matches Some(v)
            && v.response == Some(Ok::<(Seq<char>, Seq<u8>), crate::error::SandboxError>((resp.0@, resp.1@)))
            && v.id == t.worker->Some_0.id
            && v.path == t.worker->Some_0.path
            && v.request == t.worker->Some_0.request,
{
}

/// A task moves forward one stage per result: bootstrapped, it runs the
/// request with the worker still held; run, it gives the worker up to send
/// it back; sent back, it waits for disposal; any failure, a worker that
/// cannot be sent back, or the disposal signal ends it.
pub proof fn law_task_progress<E>(t: WorkerTaskView, resp: Response, e: E)
    ensures
        task_next(t, TaskEvent::<E>::Bootstrapped(Ok(()))) == (WorkerTaskView { stage: TaskStage::Running, ..t }),
        task_next(t, TaskEvent::<E>::Ran(Ok(resp))) == (WorkerTaskView { stage: TaskStage::ReturningWorker, worker: None }),
        task_next(t, TaskEvent::<E>::WorkerReturned(true)) == (WorkerTaskView { stage: TaskStage::AwaitingDisposal, worker: None }),
        task_next(t, TaskEvent::<E>::WorkerReturned(false)) == (WorkerTaskView { stage: TaskStage::Finished, worker: None }),
        task_next(t, TaskEvent::<E>::Bootstrapped(Err(e))) == (WorkerTaskView { stage: TaskStage::Finished, worker: None }),
        task_next(t, TaskEvent::<E>::Ran(Err(e))) == (WorkerTaskView { stage: TaskStage::Finished, worker: None }),
        task_next(t, TaskEvent::<E>::Disposed) == (WorkerTaskView { stage: TaskStage::Finished, worker: None }),
        returned_worker(t, TaskEvent::<E>::Bootstrapped(Ok(()))) is None,
        returned_worker(t, TaskEvent::<E>::WorkerReturned(true)) is None,
        returned_worker(t, TaskEvent::<E>::Disposed) is None,
{
}

} // verus!
