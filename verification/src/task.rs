use vstd::prelude::*;
use crate::error::SandboxError;
use crate::pool::{Response, Worker, WorkerView};

verus! {

/// How a worker's task ended in failure: by an error of the sandbox, or by
/// one the engine reported.
pub enum TaskFailure<E> {
    Sandbox(SandboxError),
    Engine(E),
}

/// Where the task that serves one worker on a worker thread stands.
#[derive(Clone, Copy, PartialEq, Eq, Structural)]
pub enum TaskStage {
    /// Waiting for a fresh runtime to bootstrap the worker's module.
    Bootstrapping,
    /// Waiting for the runtime to run the handler on the worker's request.
    Running,
    /// Waiting for the worker to reach the thread that created it.
    ReturningWorker,
    /// Waiting for the signal that the response was taken and the isolate
    /// may be dropped.
    AwaitingDisposal,
    /// Done.
    Finished,
}

/// The result of one piece of work that the task asked for.
pub enum TaskEvent<E> {
    Bootstrapped(Result<(), E>),
    Ran(Result<Response, E>),
    WorkerReturned(bool),
    Disposed,
}

/// The next piece of work of the task, or its end.
pub enum TaskAction<E> {
    /// Bootstrap a fresh runtime with the module at this path.
    Bootstrap(String),
    /// Run the handler on this request.
    Run((String, Vec<u8>)),
    /// Send this worker, which now carries its response, back.
    ReturnWorker(Worker),
    /// Wait for the disposal signal.
    AwaitDisposal,
    /// The task is over.
    Finish(Result<(), TaskFailure<E>>),
}

/// The task that serves one worker on a worker thread: bootstrap a runtime
/// for the worker's module, run its handler on the request, give the worker
/// its response and send it back, then keep the isolate alive until the
/// response has been taken.
pub struct WorkerTask {
    stage: TaskStage,
    worker: Option<Worker>,
}

pub struct WorkerTaskView {
    pub stage: TaskStage,
    pub worker: Option<WorkerView>,
}

impl View for WorkerTask {
    type V = WorkerTaskView;

    closed spec fn view(&self) -> WorkerTaskView {
        WorkerTaskView {
            stage: self.stage,
            worker: match self.worker {
                Some(w) => Some(w@),
                None => None,
            },
        }
    }
}

/// Which result a stage waits for.
pub open spec fn task_accepts<E>(stage: TaskStage, event: TaskEvent<E>) -> bool {
    match stage {
        TaskStage::Bootstrapping => event is Bootstrapped,
        TaskStage::Running => event is Ran,
        TaskStage::ReturningWorker => event is WorkerReturned,
        TaskStage::AwaitingDisposal => event is Disposed,
        TaskStage::Finished => false,
    }
}

impl WorkerTaskView {
    /// The task holds its worker exactly while it has not sent it back.
    pub open spec fn wf(self) -> bool {
        (self.stage == TaskStage::Bootstrapping || self.stage == TaskStage::Running) <==> self.worker is Some
    }
}

/// The worker `w` with the response `resp`.
pub open spec fn with_response(w: WorkerView, resp: (Seq<char>, Seq<u8>)) -> WorkerView {
    WorkerView { response: Some(Ok(resp)), ..w }
}

/// The task after a result its stage waits for.
pub open spec fn task_next<E>(t: WorkerTaskView, event: TaskEvent<E>) -> WorkerTaskView {
    match event {
        TaskEvent::Bootstrapped(Ok(())) => WorkerTaskView { stage: TaskStage::Running, ..t },
        TaskEvent::Ran(Ok(_)) => WorkerTaskView { stage: TaskStage::ReturningWorker, worker: None },
        TaskEvent::WorkerReturned(true) => WorkerTaskView { stage: TaskStage::AwaitingDisposal, worker: None },
        _ => WorkerTaskView { stage: TaskStage::Finished, worker: None },
    }
}

/// The worker that the task sends back on `event`, if it sends one: its
/// own worker, now with the response that the run produced.
pub open spec fn returned_worker<E>(t: WorkerTaskView, event: TaskEvent<E>) -> Option<WorkerView> {
    match event {
        TaskEvent::Ran(Ok(resp)) => Some(with_response(t.worker->Some_0, (resp.0@, resp.1@))),
        _ => None,
    }
}

impl WorkerTask {
    /// Starts the task for a worker received from the pool: first bootstrap
    /// a runtime with the worker's module.
    pub fn start<E>(worker: Worker) -> (r: (WorkerTask, TaskAction<E>))
        ensures
            r.0@ == (WorkerTaskView { stage: TaskStage::Bootstrapping, worker: Some(worker@) }),
            r.1 matches TaskAction::Bootstrap(path) && path@ == worker.path@,
    {
        let path = worker.path.clone();
        (WorkerTask { stage: TaskStage::Bootstrapping, worker: Some(worker) }, TaskAction::Bootstrap(path))
    }

    /// The stage of the task.
    pub fn stage(&self) -> (s: TaskStage)
        ensures
            s == self@.stage,
    {
        self.stage
    }

    /// Hands the task the result of the work it asked for and returns what
    /// to do next. An engine error ends the task with that error; a worker
    /// that cannot be sent back ends it with `WorkerNotReturned`; otherwise
    /// the task runs the request once bootstrapped, sends the worker back
    /// with its response once run, and finishes once disposed.
    pub fn step<E>(&mut self, event: TaskEvent<E>) -> (a: TaskAction<E>)
        requires
            old(self)@.wf(),
            task_accepts(old(self)@.stage, event),
        ensures
            final(self)@.wf(),
            final(self)@ == task_next(old(self)@, event),
            event matches TaskEvent::Bootstrapped(Ok(())) ==> (a matches TaskAction::Run(req)
                && (req.0@, req.1@) == old(self)@.worker->Some_0.request),
            returned_worker(old(self)@, event) matches Some(v) ==> (a matches TaskAction::ReturnWorker(w) && w@ == v),
            event matches TaskEvent::Ran(Ok(resp)) ==> (a matches TaskAction::ReturnWorker(w)
                && w.response matches Some(Ok(out)) && out.0@ == resp.0@ && out.1@ == resp.1@
                && w@.id == old(self)@.worker->Some_0.id
                && w@.path == old(self)@.worker->Some_0.path
                && w@.request == old(self)@.worker->Some_0.request),
            match event {
                TaskEvent::Bootstrapped(Err(e)) | TaskEvent::Ran(Err(e)) =>
                    a == TaskAction::<E>::Finish(Err(TaskFailure::Engine(e))),
                TaskEvent::WorkerReturned(sent) => if sent {
                    a is AwaitDisposal
                } else {
                    a matches TaskAction::Finish(Err(TaskFailure::Sandbox(SandboxError::WorkerNotReturned)))
                },
                TaskEvent::Disposed => a matches TaskAction::Finish(Ok(())),
                _ => true,
            },
    {
        match event {
            TaskEvent::Bootstrapped(Ok(())) => {
                self.stage = TaskStage::Running;
                let request = match &self.worker {
                    Some(w) => clone_request(&w.request),
                    None => {
                        proof {
                            assert(false);
                        }
                        (String::new(), Vec::new())
                    },
                };
                TaskAction::Run(request)
            },
            TaskEvent::Ran(Ok(resp)) => {
                self.stage = TaskStage::ReturningWorker;
                match self.worker.take() {
                    Some(mut w) => {
                        w.response = Some(Ok(resp));
                        TaskAction::ReturnWorker(w)
                    },
                    None => {
                        proof {
                            assert(false);
                        }
                        TaskAction::AwaitDisposal
                    },
                }
            },
            TaskEvent::Bootstrapped(Err(e)) | TaskEvent::Ran(Err(e)) => {
                self.stage = TaskStage::Finished;
                self.worker = None;
                TaskAction::Finish(Err(TaskFailure::Engine(e)))
            },
            TaskEvent::WorkerReturned(sent) => {
                if sent {
                    self.stage = TaskStage::AwaitingDisposal;
                    TaskAction::AwaitDisposal
                } else {
                    self.stage = TaskStage::Finished;
                    TaskAction::Finish(Err(TaskFailure::Sandbox(SandboxError::WorkerNotReturned)))
                }
            },
            TaskEvent::Disposed => {
                self.stage = TaskStage::Finished;
                TaskAction::Finish(Ok(()))
            },
        }
    }
}

fn clone_request(request: &(String, Vec<u8>)) -> (c: (String, Vec<u8>))
    ensures
        c.0@ == request.0@,
        c.1@ == request.1@,
{
    let body = request.1.clone();
    assert(body@ =~= request.1@);
    (request.0.clone(), body)
}

/// What woke a worker thread's loop.
pub enum ThreadEvent<E> {
    /// A worker arrived from the pool.
    WorkerReceived(Worker),
    /// One of the thread's tasks ended.
    TaskEnded(Result<(), E>),
    /// The channel is closed and no task is left.
    Idle,
}

/// What a worker thread's loop does about it.
pub enum ThreadAction<E> {
    /// Start a task for this worker.
    StartTask(Worker),
    /// Report this error of an ended task.
    ReportError(E),
    /// Nothing to do.
    Continue,
    /// Sleep for this many milliseconds.
    SleepMillis(u64),
}

/// The decision of a worker thread's loop: start a task for each worker
/// received, report each task that ended in error, and sleep for ten
/// milliseconds when there is nothing to wait for.
pub fn thread_step<E>(event: ThreadEvent<E>) -> (a: ThreadAction<E>)
    ensures
        match event {
            ThreadEvent::WorkerReceived(w) => a == ThreadAction::<E>::StartTask(w),
            ThreadEvent::TaskEnded(Ok(())) => a is Continue,
            ThreadEvent::TaskEnded(Err(e)) => a == ThreadAction::<E>::ReportError(e),
            ThreadEvent::Idle => a == ThreadAction::<E>::SleepMillis(10),
        },
{
    match event {
        ThreadEvent::WorkerReceived(w) => ThreadAction::StartTask(w),
        ThreadEvent::TaskEnded(Ok(())) => ThreadAction::Continue,
        ThreadEvent::TaskEnded(Err(e)) => ThreadAction::ReportError(e),
        ThreadEvent::Idle => ThreadAction::SleepMillis(10),
    }
}

} // verus!
