use ncino_sandbox::error::SandboxError;
use ncino_sandbox::ops::{drained_answers, worker_response};
use ncino_sandbox::pool::{thread_name, SandboxOrchestrator, SandboxWorkerCreateOptions, Worker};

fn responded(mut w: Worker) -> Worker {
    w.response = Some(Ok(("{}".to_string(), Vec::new())));
    w
}

fn options(path: &str, json: &str, body: &[u8]) -> SandboxWorkerCreateOptions {
    SandboxWorkerCreateOptions::for_request(path.to_string(), json.to_string(), body.to_vec())
}

#[test]
fn new_pool_starts_at_id_zero_with_nothing_in_flight() {
    let pool = SandboxOrchestrator::new(3);
    assert_eq!(pool.num_threads(), 3);
    assert_eq!(pool.next_worker_id(), 0);
    assert!(pool.in_flight().is_empty());
}

#[test]
fn thread_names_count_from_zero() {
    let pool = SandboxOrchestrator::new(12);
    let names = pool.thread_names();
    assert_eq!(names.len(), 12);
    assert_eq!(names[0], "sandbox-worker-0");
    assert_eq!(names[9], "sandbox-worker-9");
    assert_eq!(names[10], "sandbox-worker-10");
    assert_eq!(names[11], "sandbox-worker-11");
}

#[test]
fn thread_name_of_large_index() {
    assert_eq!(thread_name(1234567), "sandbox-worker-1234567");
    assert_eq!(thread_name(100), "sandbox-worker-100");
}

#[test]
fn no_threads_no_names() {
    assert!(SandboxOrchestrator::new(0).thread_names().is_empty());
}

#[test]
fn created_workers_get_consecutive_distinct_ids() {
    let mut pool = SandboxOrchestrator::new(1);
    let a = pool.create_new_worker(options("/srv/a.js", "{\"a\":1}", b"body-a"));
    let b = pool.create_new_worker(options("/srv/b.js", "{}", b""));
    let c = pool.create_new_worker(options("/srv/c.js", "[]", b"c"));
    assert_eq!((a.id, b.id, c.id), (0, 1, 2));
    assert_eq!(pool.next_worker_id(), 3);
    assert_eq!(pool.in_flight(), vec![0, 1, 2]);
}

#[test]
fn created_worker_carries_request_and_no_response() {
    let mut pool = SandboxOrchestrator::new(1);
    let w = pool.create_new_worker(options("/srv/handler.js", "{\"url\":\"/\"}", &[1, 2, 3]));
    assert_eq!(w.path, "/srv/handler.js");
    assert_eq!(w.request.0, "{\"url\":\"/\"}");
    assert_eq!(w.request.1, vec![1, 2, 3]);
    assert!(w.response.is_none());
}

#[test]
fn options_main_module_is_file_url() {
    let o = options("/srv/edge fn/main.js", "{}", b"x");
    assert_eq!(o.main_module, "file:///srv/edge%20fn/main.js");
    assert_eq!(o.path, "/srv/edge fn/main.js");
    assert_eq!(o.request_json, "{}");
    assert_eq!(o.request_body, b"x".to_vec());
}

#[test]
fn drain_hands_back_finished_workers_in_order() {
    let mut pool = SandboxOrchestrator::new(2);
    let a = pool.create_new_worker(options("/a.js", "1", b""));
    let b = pool.create_new_worker(options("/b.js", "2", b""));
    let c = pool.create_new_worker(options("/c.js", "3", b""));
    let drained = pool.drain(vec![responded(c), responded(a)]);
    assert_eq!(drained.iter().map(|w| w.id).collect::<Vec<_>>(), vec![2, 0]);
    assert_eq!(pool.in_flight(), vec![1]);
    assert_eq!(pool.next_worker_id(), 3);
    let drained = pool.drain(vec![responded(b)]);
    assert_eq!(drained.len(), 1);
    assert!(pool.in_flight().is_empty());
}

#[test]
fn drain_of_nothing_changes_nothing() {
    let mut pool = SandboxOrchestrator::new(1);
    pool.create_new_worker(options("/a.js", "1", b""));
    assert!(pool.drain(Vec::new()).is_empty());
    assert_eq!(pool.in_flight(), vec![0]);
}

#[test]
fn drain_undoes_create() {
    let mut pool = SandboxOrchestrator::new(1);
    pool.create_new_worker(options("/a.js", "1", b""));
    let before = pool.in_flight();
    let w = pool.create_new_worker(options("/b.js", "2", b""));
    pool.drain(vec![responded(w)]);
    assert_eq!(pool.in_flight(), before);
    assert_eq!(pool.next_worker_id(), 2);
}

#[test]
fn drained_workers_leave_flight_and_the_rest_keep_their_order() {
    let mut pool = SandboxOrchestrator::new(1);
    let mut ws = Vec::new();
    for i in 0..5 {
        ws.push(pool.create_new_worker(options(&format!("/w{}.js", i), "{}", b"")));
    }
    let w3 = ws.remove(3);
    let w1 = ws.remove(1);
    let drained = pool.drain(vec![responded(w3), responded(w1)]);
    assert!(drained.iter().all(|w| w.response.is_some()));
    assert_eq!(pool.in_flight(), vec![0, 2, 4]);
}

#[test]
fn ids_count_creates_across_drains_and_added_workers() {
    let mut pool = SandboxOrchestrator::new(2);
    let a = pool.create_new_worker(options("/a.js", "1", b""));
    pool.drain(vec![responded(a)]);
    let b = pool.create_new_worker(options("/b.js", "2", b""));
    let extra = Worker { path: "/x.js".to_string(), id: 50, request: ("".to_string(), vec![]), response: None };
    pool.add_worker(extra);
    let c = pool.create_new_worker(options("/c.js", "3", b""));
    pool.drain(vec![responded(b)]);
    let d = pool.create_new_worker(options("/d.js", "4", b""));
    assert_eq!((c.id, d.id), (2, 3));
    assert_eq!(pool.next_worker_id(), 4);
    assert_eq!(pool.in_flight(), vec![2, 3]);
}

#[test]
fn add_worker_leaves_pool_unchanged() {
    let mut pool = SandboxOrchestrator::new(1);
    let w = pool.create_new_worker(options("/a.js", "1", b""));
    let extra = Worker { path: w.path.clone(), id: 99, request: w.request.clone(), response: None };
    pool.add_worker(extra);
    assert_eq!(pool.in_flight(), vec![0]);
    assert_eq!(pool.next_worker_id(), 1);
}

#[test]
fn worker_response_of_responded_worker() {
    let w = Worker {
        path: "/a.js".to_string(),
        id: 7,
        request: ("{}".to_string(), vec![]),
        response: Some(Ok(("{\"status\":200}".to_string(), b"hello".to_vec()))),
    };
    let (json, body) = worker_response(w).ok().unwrap();
    assert_eq!(json, "{\"status\":200}");
    assert_eq!(body, b"hello".to_vec());
}

#[test]
fn worker_response_without_response_is_refused() {
    let w = Worker { path: "/a.js".to_string(), id: 7, request: ("{}".to_string(), vec![]), response: None };
    let e = worker_response(w).err().unwrap();
    assert!(matches!(e, SandboxError::WorkerNotResponded));
    assert_eq!(e.message(), "called drain on a worker before it had responded without any errors");
}

#[test]
fn worker_response_passes_the_workers_error_on() {
    let w = Worker {
        path: "/a.js".to_string(),
        id: 7,
        request: ("{}".to_string(), vec![]),
        response: Some(Err(SandboxError::Engine("boom".to_string()))),
    };
    let e = worker_response(w).err().unwrap();
    assert_eq!(e.message(), "boom");
}

fn with_response(id: u64, response: Option<Result<(String, Vec<u8>), SandboxError>>) -> Worker {
    Worker { path: "/a.js".to_string(), id, request: ("{}".to_string(), vec![]), response }
}

#[test]
fn drained_answers_all_answered() {
    let ws = vec![
        with_response(0, Some(Ok(("a".to_string(), vec![1])))),
        with_response(1, Some(Ok(("b".to_string(), vec![])))),
    ];
    let (answers, error) = drained_answers(ws);
    assert_eq!(answers, vec![("a".to_string(), vec![1]), ("b".to_string(), vec![])]);
    assert!(error.is_none());
}

#[test]
fn drained_answers_stop_at_first_unanswered() {
    let ws = vec![
        with_response(0, Some(Ok(("a".to_string(), vec![1])))),
        with_response(1, None),
        with_response(2, Some(Ok(("c".to_string(), vec![])))),
    ];
    let (answers, error) = drained_answers(ws);
    assert_eq!(answers, vec![("a".to_string(), vec![1])]);
    let e = error.unwrap();
    assert_eq!(e.message(), "called drain on a worker before it had responded without any errors");
}

#[test]
fn drained_answers_pass_a_workers_error_on() {
    let ws = vec![
        with_response(0, Some(Err(SandboxError::Engine("failed".to_string())))),
        with_response(1, Some(Ok(("b".to_string(), vec![])))),
    ];
    let (answers, error) = drained_answers(ws);
    assert!(answers.is_empty());
    assert_eq!(error.unwrap().message(), "failed");
}

#[test]
fn drain_accepts_workers_without_response() {
    let mut pool = SandboxOrchestrator::new(1);
    let w = pool.create_new_worker(options("/a.js", "1", b""));
    let drained = pool.drain(vec![w]);
    assert!(drained[0].response.is_none());
    assert!(pool.in_flight().is_empty());
}
