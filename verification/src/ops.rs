use vstd::prelude::*;
use crate::error::SandboxError;
use crate::pool::{response_view, Response, Worker};

verus! {

/// What the caller of a drained worker is answered with: the worker's
/// response, the error it ended with, or `WorkerNotResponded` when it has
/// none.
pub fn worker_response(worker: Worker) -> (r: Result<Response, SandboxError>)
    ensures
        match response_view(worker.response) {
            None => r matches Err(SandboxError::WorkerNotResponded),
            Some(Err(e)) => r == Err::<Response, SandboxError>(e),
            Some(Ok(resp)) => r matches Ok(out) && (out.0@, out.1@) == resp,
        },
{
    match worker.response {
        None => Err(SandboxError::WorkerNotResponded),
        Some(Err(e)) => Err(e),
        Some(Ok(resp)) => Ok(resp),
    }
}

/// Whether a drained worker can be answered: it carries a response.
pub open spec fn answerable(w: Worker) -> bool {
    w.response matches Some(Ok(_))
}

/// The answers to the callers of drained workers, in the order the workers
/// were drained, as far as the first worker that cannot be answered; that
/// worker's error ends the answers, and the workers after it get none.
/// Without such a worker every worker is answered and there is no error.
pub fn drained_answers(workers: Vec<Worker>) -> (r: (Vec<Response>, Option<SandboxError>))
    ensures
        r.0.len() <= workers.len(),
        forall|i: int| 0 <= i < r.0.len() ==> answerable(#[trigger] workers@[i]),
        forall|i: int| 0 <= i < r.0.len() ==> #[trigger] r.0@[i] == workers@[i].response->Some_0->Ok_0,
        r.1 is None ==> r.0.len() == workers.len(),
        r.1 matches Some(e) ==> r.0.len() < workers.len() && !answerable(workers@[r.0.len() as int])
            && match workers@[r.0.len() as int].response {
                None => e is WorkerNotResponded,
                Some(Err(err)) => e == err,
                Some(Ok(_)) => false,
            },
{
    let ghost orig = workers@;
    let mut rest = workers;
    let n = rest.len();
    let mut answers: Vec<Response> = Vec::new();
    let mut i: usize = 0;
    while rest.len() > 0
        invariant
            orig == workers@,
            orig.len() == n,
            i + rest@.len() == orig.len(),
            rest@ == orig.skip(i as int),
            answers.len() == i,
            forall|k: int| 0 <= k < i ==> answerable(#[trigger] orig[k]),
            forall|k: int| 0 <= k < i ==> #[trigger] answers@[k] == orig[k].response->Some_0->Ok_0,
        decreases rest.len(),
    {
        let w = rest.remove(0);
        proof {
            assert(w == orig[i as int]);
            assert(rest@ =~= orig.skip(i + 1));
        }
        match w.response {
            None => {
                return (answers, Some(SandboxError::WorkerNotResponded));
            },
            Some(Err(e)) => {
                return (answers, Some(e));
            },
            Some(Ok(resp)) => {
                answers.push(resp);
                i = i + 1;
            },
        }
    }
    (answers, None)
}

} // verus!
