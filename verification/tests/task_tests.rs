use ncino_sandbox::error::SandboxError;
use ncino_sandbox::permissions::Permissions;
use ncino_sandbox::pool::Worker;
use ncino_sandbox::task::{thread_step, TaskAction, TaskEvent, TaskFailure, TaskStage, ThreadAction, ThreadEvent, WorkerTask};

fn worker() -> Worker {
    Worker { path: "/srv/fn.js".to_string(), id: 4, request: ("{\"q\":1}".to_string(), vec![9, 8]), response: None }
}

#[test]
fn task_runs_then_returns_worker_with_response() {
    let (mut t, a): (WorkerTask, TaskAction<String>) = WorkerTask::start(worker());
    assert!(matches!(a, TaskAction::Bootstrap(ref p) if p == "/srv/fn.js"));
    let a = t.step(TaskEvent::<String>::Bootstrapped(Ok(())));
    match a {
        TaskAction::Run((json, body)) => {
            assert_eq!(json, "{\"q\":1}");
            assert_eq!(body, vec![9, 8]);
        }
        _ => panic!("expected a run"),
    }
    let a = t.step(TaskEvent::<String>::Ran(Ok(("{\"ok\":true}".to_string(), b"done".to_vec()))));
    match a {
        TaskAction::ReturnWorker(w) => {
            assert_eq!(w.id, 4);
            assert_eq!(w.path, "/srv/fn.js");
            assert_eq!(w.request.0, "{\"q\":1}");
            let (json, body) = w.response.unwrap().ok().unwrap();
            assert_eq!(json, "{\"ok\":true}");
            assert_eq!(body, b"done".to_vec());
        }
        _ => panic!("expected the worker back"),
    }
    assert!(matches!(t.step(TaskEvent::<String>::WorkerReturned(true)), TaskAction::AwaitDisposal));
    assert!(matches!(t.step(TaskEvent::<String>::Disposed), TaskAction::Finish(Ok(()))));
    assert!(t.stage() == TaskStage::Finished);
}

#[test]
fn task_bootstrap_error_ends_task() {
    let (mut t, _): (WorkerTask, TaskAction<String>) = WorkerTask::start(worker());
    let a = t.step(TaskEvent::Bootstrapped(Err("no module".to_string())));
    assert!(matches!(a, TaskAction::Finish(Err(TaskFailure::Engine(ref e))) if e == "no module"));
    assert!(t.stage() == TaskStage::Finished);
}

#[test]
fn task_run_error_ends_task() {
    let (mut t, _): (WorkerTask, TaskAction<String>) = WorkerTask::start(worker());
    t.step(TaskEvent::<String>::Bootstrapped(Ok(())));
    let a = t.step(TaskEvent::Ran(Err("handler threw".to_string())));
    assert!(matches!(a, TaskAction::Finish(Err(TaskFailure::Engine(_)))));
}

#[test]
fn task_that_cannot_return_worker_fails() {
    let (mut t, _): (WorkerTask, TaskAction<String>) = WorkerTask::start(worker());
    t.step(TaskEvent::<String>::Bootstrapped(Ok(())));
    t.step(TaskEvent::<String>::Ran(Ok(("{}".to_string(), vec![]))));
    match t.step(TaskEvent::<String>::WorkerReturned(false)) {
        TaskAction::Finish(Err(TaskFailure::Sandbox(e))) => {
            assert!(matches!(e, SandboxError::WorkerNotReturned));
            assert_eq!(e.message(), "could not send worker to thread");
        }
        _ => panic!("expected a failure"),
    }
}

#[test]
fn thread_loop_decisions() {
    assert!(matches!(thread_step::<String>(ThreadEvent::WorkerReceived(worker())), ThreadAction::StartTask(w) if w.id == 4));
    assert!(matches!(thread_step::<String>(ThreadEvent::TaskEnded(Ok(()))), ThreadAction::Continue));
    assert!(matches!(thread_step(ThreadEvent::TaskEnded(Err("x".to_string()))), ThreadAction::ReportError(ref e) if e == "x"));
    assert!(matches!(thread_step::<String>(ThreadEvent::Idle), ThreadAction::SleepMillis(10)));
}

#[test]
fn permissions_allow_everything() {
    let mut p = Permissions {};
    assert!(p.allow_hrtime());
    p.check_unstable("Deno.foo");
    assert!(p.check_net_url("https://example.com/", "fetch()").is_ok());
    assert!(p.check_read("/etc/hosts", "fetch()").is_ok());
}

#[test]
fn error_messages() {
    assert_eq!(SandboxError::ResponseNotConvertible.message(), "could not create new object for response");
    assert_eq!(
        SandboxError::DisposalNotSent.message(),
        "could not send dispoal command\nan isolate could not be cleaned up"
    );
}
