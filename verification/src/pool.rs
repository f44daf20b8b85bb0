use vstd::prelude::*;
use vstd::string::*;
use crate::decimal::{append_decimal, decimal};
use crate::error::SandboxError;
use crate::module_url::{file_url_of, is_absolute_path, module_specifier};

verus! {

/// A response as the worker thread hands it back: the response JSON and
/// the response body.
pub type Response = (String, Vec<u8>);

/// A request of the sandbox, handed to a worker thread and back: which
/// module to run, the request (its JSON and its body) and, once the module
/// has run, the response or the error it ended with.
pub struct Worker {
    pub path: String,
    pub id: u64,
    pub request: (String, Vec<u8>),
    pub response: Option<Result<Response, SandboxError>>,
}

/// The mathematical value of a worker.
pub struct WorkerView {
    pub path: Seq<char>,
    pub id: u64,
    pub request: (Seq<char>, Seq<u8>),
    pub response: Option<Result<(Seq<char>, Seq<u8>), SandboxError>>,
}

pub open spec fn response_view(r: Option<Result<Response, SandboxError>>) -> Option<Result<(Seq<char>, Seq<u8>), SandboxError>> {
    match r {
        None => None,
        Some(Ok(resp)) => Some(Ok((resp.0@, resp.1@))),
        Some(Err(e)) => Some(Err(e)),
    }
}

impl View for Worker {
    type V = WorkerView;

    open spec fn view(&self) -> WorkerView {
        WorkerView {
            path: self.path@,
            id: self.id,
            request: (self.request.0@, self.request.1@),
            response: response_view(self.response),
        }
    }
}

/// What a new worker is made of: the module to run (as path and as
/// `file:` URL) and the request's JSON and body.
pub struct SandboxWorkerCreateOptions {
    pub main_module: String,
    pub request_json: String,
    pub request_body: Vec<u8>,
    pub path: String,
}

impl SandboxWorkerCreateOptions {
    /// The options for a request to run the module at the absolute `path`
    /// with the given request JSON and body; the main module is the path's
    /// `file:` URL.
    pub fn for_request(path: String, request_json: String, request_body: Vec<u8>) -> (o: Self)
        requires
            is_absolute_path(path@),
        ensures
            o.main_module@ == file_url_of(path@),
            o.path@ == path@,
            o.request_json@ == request_json@,
            o.request_body@ == request_body@,
    {
        let main_module = match module_specifier(path.as_str()) {
            Ok(url) => url,
            Err(_) => {
                proof {
                    assert(false);
                }
                String::new()
            },
        };
        SandboxWorkerCreateOptions { main_module, request_json, request_body, path }
    }
}

/// The name of the `i`-th worker thread.
pub open spec fn thread_name_spec(i: nat) -> Seq<char> {
    "sandbox-worker-"@ + decimal(i)
}

/// The name given to the `i`-th worker thread, `sandbox-worker-{i}`.
pub fn thread_name(i: usize) -> (name: String)
    ensures
        name@ == thread_name_spec(i as nat),
{
    let mut name = String::from_str("sandbox-worker-");
    append_decimal(&mut name, i);
    name
}

/// The bookkeeping of the worker pool: how many threads it runs, the id the
/// next worker gets, and the ids of the workers sent to the threads that a
/// drain has not handed back yet.
pub struct SandboxOrchestrator {
    num_threads: usize,
    next_worker_id: u64,
    in_flight: Vec<u64>,
}

/// The mathematical state of the pool.
pub struct OrchestratorView {
    pub num_threads: nat,
    pub next_worker_id: u64,
    pub in_flight: Seq<u64>,
}

impl View for SandboxOrchestrator {
    type V = OrchestratorView;

    closed spec fn view(&self) -> OrchestratorView {
        OrchestratorView {
            num_threads: self.num_threads as nat,
            next_worker_id: self.next_worker_id,
            in_flight: self.in_flight@,
        }
    }
}

impl OrchestratorView {
    /// No id is in flight twice, and every id in flight was handed out
    /// before the next one.
    pub open spec fn wf(self) -> bool {
        &&& self.in_flight.no_duplicates()
        &&& forall|i: int| 0 <= i < self.in_flight.len() ==> #[trigger] self.in_flight[i] < self.next_worker_id
    }
}

/// The id after `id`, wrapping around as the pool's counter does.
pub open spec fn next_id(id: u64) -> u64 {
    if id == u64::MAX { 0 } else { (id + 1) as u64 }
}

/// The pool after a worker was created: the next id moves on and the
/// created worker's id is in flight.
pub open spec fn after_create(p: OrchestratorView) -> OrchestratorView {
    OrchestratorView {
        next_worker_id: next_id(p.next_worker_id),
        in_flight: p.in_flight.push(p.next_worker_id),
        ..p
    }
}

/// Keeps the ids that no worker of `finished` has.
pub open spec fn not_drained(finished: Seq<Worker>) -> spec_fn(u64) -> bool {
    |id: u64| !has_id(finished, id)
}

/// The pool after the workers `finished` were drained: their ids are no
/// longer in flight, the other ids stay in their order, and nothing else
/// changes.
pub open spec fn after_drain(p: OrchestratorView, finished: Seq<Worker>) -> OrchestratorView {
    OrchestratorView { in_flight: p.in_flight.filter(not_drained(finished)), ..p }
}

/// The workers a drain may hand back: each was sent to the threads and is
/// still in flight, and no two have the same id.
pub open spec fn drain_allowed(p: OrchestratorView, finished: Seq<Worker>) -> bool {
    &&& forall|j: int| 0 <= j < finished.len() ==> p.in_flight.contains(#[trigger] finished[j].id)
    &&& forall|i: int, j: int| 0 <= i < j < finished.len() ==> finished[i].id != finished[j].id
}

/// Creating a worker from a well-formed pool whose counter has not reached
/// its end keeps the pool well formed, and the new id was not in flight.
pub proof fn lemma_create_keeps_wf(p: OrchestratorView)
    requires
        p.wf(),
        p.next_worker_id < u64::MAX,
    ensures
        after_create(p).wf(),
        !p.in_flight.contains(p.next_worker_id),
{
    let q = after_create(p);
    assert forall|i: int| 0 <= i < q.in_flight.len() implies #[trigger] q.in_flight[i] < q.next_worker_id by {
        if i < p.in_flight.len() {
            assert(p.in_flight[i] < p.next_worker_id);
        }
    }
    assert forall|i: int, j: int| 0 <= i < j < q.in_flight.len() implies q.in_flight[i] != q.in_flight[j] by {
        if j == p.in_flight.len() {
            assert(p.in_flight[i] < p.next_worker_id);
        } else {
            assert(p.in_flight[i] == q.in_flight[i] && p.in_flight[j] == q.in_flight[j]);
        }
    }
    if p.in_flight.contains(p.next_worker_id) {
        let k = choose|k: int| 0 <= k < p.in_flight.len() && p.in_flight[k] == p.next_worker_id;
        assert(p.in_flight[k] < p.next_worker_id);
    }
}

/// Filtering keeps exactly the elements that satisfy the predicate, and
/// keeps a sequence free of duplicates.
pub proof fn lemma_filter_ids(s: Seq<u64>, pred: spec_fn(u64) -> bool)
    ensures
        forall|x: u64| #[trigger] s.filter(pred).contains(x) <==> (s.contains(x) && pred(x)),
        s.no_duplicates() ==> s.filter(pred).no_duplicates(),
    decreases s.len(),
{
    reveal(Seq::filter);
    if s.len() > 0 {
        let t = s.drop_last();
        let last = s.last();
        lemma_filter_ids(t, pred);
        let ft = t.filter(pred);
        let fs = s.filter(pred);
        assert(fs == if pred(last) { ft.push(last) } else { ft });
        assert forall|x: u64| #[trigger] fs.contains(x) <==> (s.contains(x) && pred(x)) by {
            if s.contains(x) && pred(x) {
                let k = choose|k: int| 0 <= k < s.len() && s[k] == x;
                if k < t.len() {
                    assert(t[k] == x);
                    assert(t.contains(x));
                    assert(ft.contains(x));
                    let m = choose|m: int| 0 <= m < ft.len() && ft[m] == x;
                    if pred(last) {
                        assert(fs == ft.push(last));
                        assert(fs[m] == ft[m]);
                    } else {
                        assert(fs == ft);
                    }
                    assert(fs[m] == x);
                } else {
                    assert(fs[fs.len() - 1] == x);
                }
            }
            if fs.contains(x) {
                let m = choose|m: int| 0 <= m < fs.len() && fs[m] == x;
                if m < ft.len() {
                    assert(ft[m] == x);
                    assert(ft.contains(x));
                    let k = choose|k: int| 0 <= k < t.len() && t[k] == x;
                    assert(s[k] == x);
                } else {
                    assert(x == last);
                    assert(s[s.len() - 1] == x);
                }
            }
        }
        if s.no_duplicates() {
            assert forall|i: int, j: int| 0 <= i < j < t.len() implies t[i] != t[j] by {
                assert(s[i] == t[i] && s[j] == t[j]);
            }
            if pred(last) {
                if ft.contains(last) {
                    let k = choose|k: int| 0 <= k < t.len() && t[k] == last;
                    assert(s[k] == s[s.len() - 1]);
                }
                assert forall|i: int, j: int| 0 <= i < j < fs.len() implies fs[i] != fs[j] by {
                    if j == fs.len() - 1 {
                        assert(fs[i] == ft[i]);
                        assert(ft.contains(ft[i]));
                    } else {
                        assert(fs[i] == ft[i] && fs[j] == ft[j]);
                    }
                }
            }
        }
    }
}

/// Draining allowed workers from a well-formed pool keeps it well formed,
/// and exactly the drained ids leave the in-flight ids.
pub proof fn lemma_drain_keeps_wf(p: OrchestratorView, finished: Seq<Worker>)
    requires
        p.wf(),
    ensures
        after_drain(p, finished).wf(),
        forall|id: u64| #[trigger] after_drain(p, finished).in_flight.contains(id)
            <==> (p.in_flight.contains(id) && !has_id(finished, id)),
{
    let q = after_drain(p, finished);
    lemma_filter_ids(p.in_flight, not_drained(finished));
    assert forall|id: u64| #[trigger] q.in_flight.contains(id) <==> (p.in_flight.contains(id) && !has_id(finished, id)) by {
        assert(not_drained(finished)(id) == !has_id(finished, id));
    }
    assert forall|i: int| 0 <= i < q.in_flight.len() implies #[trigger] q.in_flight[i] < q.next_worker_id by {
        let x = q.in_flight[i];
        assert(q.in_flight.contains(x));
        let k = choose|k: int| 0 <= k < p.in_flight.len() && p.in_flight[k] == x;
        assert(p.in_flight[k] < p.next_worker_id);
    }
}

/// Whether some worker of `workers` has the id `id`.
pub open spec fn has_id(workers: Seq<Worker>, id: u64) -> bool {
    exists|j: int| 0 <= j < workers.len() && #[trigger] workers[j].id == id
}

impl SandboxOrchestrator {
    /// A pool of `num_threads` worker threads with no worker yet; ids start at 0.
    pub fn new(num_threads: usize) -> (p: Self)
        ensures
            p@ == (OrchestratorView { num_threads: num_threads as nat, next_worker_id: 0, in_flight: Seq::empty() }),
            p@.wf(),
    {
        SandboxOrchestrator { num_threads, next_worker_id: 0, in_flight: Vec::new() }
    }

    /// The number of worker threads.
    pub fn num_threads(&self) -> (n: usize)
        ensures
            n as nat == self@.num_threads,
    {
        self.num_threads
    }

    /// The id the next worker gets.
    pub fn next_worker_id(&self) -> (id: u64)
        ensures
            id == self@.next_worker_id,
    {
        self.next_worker_id
    }

    /// The ids of the workers in flight, in the order they were created.
    pub fn in_flight(&self) -> (ids: Vec<u64>)
        ensures
            ids@ == self@.in_flight,
    {
        let ids = self.in_flight.clone();
        assert(ids@ =~= self.in_flight@);
        ids
    }

    /// The names of the pool's threads, in the order they are started.
    pub fn thread_names(&self) -> (names: Vec<String>)
        ensures
            names.len() == self@.num_threads,
            forall|i: int| 0 <= i < names.len() ==> #[trigger] names[i]@ == thread_name_spec(i as nat),
    {
        let mut names: Vec<String> = Vec::new();
        let mut i: usize = 0;
        while i < self.num_threads
            invariant
                i <= self.num_threads,
                names.len() == i,
                forall|j: int| 0 <= j < names.len() ==> #[trigger] names[j]@ == thread_name_spec(j as nat),
            decreases self.num_threads - i,
        {
            names.push(thread_name(i));
            i = i + 1;
        }
        names
    }

    /// Makes the worker for a new request: it gets the next id, carries the
    /// request and no response yet, and is in flight until a drain hands it
    /// back. The id counter wraps around after `u64::MAX`.
    pub fn create_new_worker(&mut self, options: SandboxWorkerCreateOptions) -> (w: Worker)
        ensures
            w@ == (WorkerView {
                path: options.path@,
                id: old(self)@.next_worker_id,
                request: (options.request_json@, options.request_body@),
                response: None,
            }),
            final(self)@ == after_create(old(self)@),
            old(self)@.wf() && old(self)@.next_worker_id < u64::MAX ==> {
                &&& final(self)@.wf()
                &&& !old(self)@.in_flight.contains(w.id)
            },
    {
        let id = self.next_worker_id;
        self.next_worker_id = if id == u64::MAX { 0 } else { id + 1 };
        self.in_flight.push(id);
        proof {
            if old(self)@.wf() && id < u64::MAX {
                lemma_create_keeps_wf(old(self)@);
            }
        }
        let SandboxWorkerCreateOptions { main_module: _, request_json, request_body, path } = options;
        Worker { path, id, request: (request_json, request_body), response: None }
    }

    /// Hands back the workers that finished, in the order they finished;
    /// their ids are in flight no longer, and the other ids stay in flight in
    /// their order.
    pub fn drain(&mut self, finished: Vec<Worker>) -> (drained: Vec<Worker>)
        requires
            drain_allowed(old(self)@, finished@),
        ensures
            drained@ == finished@,
            final(self)@ == after_drain(old(self)@, finished@),
            old(self)@.wf() ==> final(self)@.wf(),
    {
        let ghost pred = not_drained(finished@);
        let mut kept: Vec<u64> = Vec::new();
        let mut i: usize = 0;
        proof {
            reveal(Seq::filter);
            assert(self.in_flight@.take(0).filter(pred) =~= Seq::<u64>::empty());
        }
        while i < self.in_flight.len()
            invariant
                i <= self.in_flight.len(),
                self.in_flight@ == old(self).in_flight@,
                kept@ == self.in_flight@.take(i as int).filter(pred),
                pred == not_drained(finished@),
            decreases self.in_flight.len() - i,
        {
            let id = self.in_flight[i];
            let keep = !contains_id(&finished, id);
            proof {
                reveal(Seq::filter);
                let t = self.in_flight@.take(i + 1);
                assert(t.drop_last() =~= self.in_flight@.take(i as int));
                assert(t.last() == id);
                assert(pred(id) == keep);
            }
            if keep {
                kept.push(id);
            }
            i = i + 1;
        }
        proof {
            assert(self.in_flight@.take(i as int) =~= self.in_flight@);
            if old(self)@.wf() {
                lemma_drain_keeps_wf(old(self)@, finished@);
            }
        }
        self.in_flight = kept;
        finished
    }

    /// Accepts a worker and leaves the pool as it is.
    pub fn add_worker(&mut self, worker: Worker)
        ensures
            final(self)@ == old(self)@,
    {
    }
}

fn contains_id(workers: &Vec<Worker>, id: u64) -> (b: bool)
    ensures
        b == has_id(workers@, id),
{
    let mut j: usize = 0;
    while j < workers.len()
        invariant
            j <= workers.len(),
            forall|k: int| 0 <= k < j ==> #[trigger] workers@[k].id != id,
        decreases workers.len() - j,
    {
        if workers[j].id == id {
            return true;
        }
        j = j + 1;
    }
    false
}

} // verus!
