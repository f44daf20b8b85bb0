use vstd::prelude::*;
use crate::decimal::law_decimal_injective;
use crate::pool::{
    after_create, after_drain, drain_allowed, thread_name_spec, has_id, lemma_create_keeps_wf, lemma_drain_keeps_wf,
    lemma_filter_ids, next_id, not_drained, OrchestratorView, Worker,
};

verus! {

/// The pool after `n` workers were created one after another.
pub open spec fn create_times(p: OrchestratorView, n: nat) -> OrchestratorView
    decreases n,
{
    if n == 0 {
        p
    } else {
        after_create(create_times(p, (n - 1) as nat))
    }
}

/// Workers created one after another get consecutive ids, starting at the
/// pool's next id, and the pool stays well formed: no two workers in flight
/// ever share an id (as long as the id counter does not wrap around).
pub proof fn law_created_ids_distinct(p: OrchestratorView, n: nat)
    requires
        p.wf(),
        p.next_worker_id + n <= u64::MAX,
    ensures
        create_times(p, n).wf(),
        create_times(p, n).next_worker_id == p.next_worker_id + n,
        create_times(p, n).in_flight =~= p.in_flight + Seq::new(n, |i: int| (p.next_worker_id + i) as u64),
    decreases n,
{
    if n > 0 {
        let m = (n - 1) as nat;
        law_created_ids_distinct(p, m);
        lemma_create_keeps_wf(create_times(p, m));
        assert(create_times(p, n) == after_create(create_times(p, m)));
    }
}

proof fn lemma_filter_keeps_all(s: Seq<u64>, pred: spec_fn(u64) -> bool)
    requires
        forall|i: int| 0 <= i < s.len() ==> pred(#[trigger] s[i]),
    ensures
        s.filter(pred) == s,
    decreases s.len(),
{
    reveal(Seq::filter);
    if s.len() > 0 {
        lemma_filter_keeps_all(s.drop_last(), pred);
        assert(pred(s[s.len() - 1]));
        assert(s.drop_last().push(s.last()) =~= s);
    }
}

/// Draining a worker right after creating it gives back the pool as it was
/// before the creation, ids in flight in the same order; only the id counter
/// has moved on.
pub proof fn law_drain_undoes_create(p: OrchestratorView, w: Worker)
    requires
        p.wf(),
        p.next_worker_id < u64::MAX,
        w.id == p.next_worker_id,
    ensures
        after_drain(after_create(p), seq![w]) == (OrchestratorView { next_worker_id: next_id(p.next_worker_id), ..p }),
{
    lemma_create_keeps_wf(p);
    let pred = not_drained(seq![w]);
    let c = after_create(p);
    assert forall|i: int| 0 <= i < p.in_flight.len() implies pred(#[trigger] p.in_flight[i]) by {
        assert(p.in_flight[i] < p.next_worker_id);
        if has_id(seq![w], p.in_flight[i]) {
            let j = choose|j: int| 0 <= j < 1 && #[trigger] seq![w][j].id == p.in_flight[i];
            assert(seq![w][j] == w);
        }
    }
    lemma_filter_keeps_all(p.in_flight, pred);
    reveal(Seq::filter);
    assert(c.in_flight.drop_last() =~= p.in_flight);
    assert(has_id(seq![w], w.id)) by {
        assert(seq![w][0].id == w.id);
    }
    assert(c.in_flight.filter(pred) == p.in_flight.filter(pred));
}

/// One call on the pool.
pub enum PoolOp {
    /// `create_new_worker`.
    Create,
    /// `drain` of these workers.
    Drain(Seq<Worker>),
    /// `add_worker`.
    AddWorker,
}

/// The pool after one call.
pub open spec fn apply_op(p: OrchestratorView, op: PoolOp) -> OrchestratorView {
    match op {
        PoolOp::Create => after_create(p),
        PoolOp::Drain(finished) => after_drain(p, finished),
        PoolOp::AddWorker => p,
    }
}

/// The pool after a sequence of calls.
pub open spec fn apply_ops(p: OrchestratorView, ops: Seq<PoolOp>) -> OrchestratorView
    decreases ops.len(),
{
    if ops.len() == 0 {
        p
    } else {
        apply_op(apply_ops(p, ops.drop_last()), ops.last())
    }
}

/// How many of the calls create a worker.
pub open spec fn creates(ops: Seq<PoolOp>) -> nat
    decreases ops.len(),
{
    if ops.len() == 0 {
        0
    } else {
        creates(ops.drop_last()) + if ops.last() is Create { 1nat } else { 0nat }
    }
}

/// The ids of the workers that the drains among the calls hand back, in
/// the order they are handed back.
pub open spec fn drained_ids(ops: Seq<PoolOp>) -> Seq<u64>
    decreases ops.len(),
{
    if ops.len() == 0 {
        Seq::empty()
    } else {
        drained_ids(ops.drop_last()) + match ops.last() {
            PoolOp::Drain(finished) => finished.map_values(|w: Worker| w.id),
            _ => Seq::empty(),
        }
    }
}

/// Every drain among the calls hands back only workers it may hand back,
/// in the pool as the earlier calls left it.
pub open spec fn ops_allowed(p: OrchestratorView, ops: Seq<PoolOp>) -> bool {
    forall|k: int| 0 <= k < ops.len() ==> (#[trigger] ops[k] matches PoolOp::Drain(finished)
        ==> drain_allowed(apply_ops(p, ops.take(k)), finished))
}

/// A pool just made with `n` threads.
pub open spec fn fresh(n: nat) -> OrchestratorView {
    OrchestratorView { num_threads: n, next_worker_id: 0, in_flight: Seq::empty() }
}

proof fn lemma_creates_prefix(ops: Seq<PoolOp>, k: int)
    requires
        0 <= k <= ops.len(),
    ensures
        creates(ops.take(k)) <= creates(ops),
    decreases ops.len(),
{
    if k < ops.len() {
        assert(ops.drop_last().take(k) =~= ops.take(k));
        lemma_creates_prefix(ops.drop_last(), k);
    } else {
        assert(ops.take(k) =~= ops);
    }
}

proof fn lemma_ids_count(n: nat, ops: Seq<PoolOp>)
    requires
        creates(ops) <= u64::MAX,
    ensures
        apply_ops(fresh(n), ops).next_worker_id == creates(ops),
        apply_ops(fresh(n), ops).wf(),
        apply_ops(fresh(n), ops).num_threads == n,
    decreases ops.len(),
{
    if ops.len() > 0 {
        let pre = ops.drop_last();
        lemma_ids_count(n, pre);
        let q = apply_ops(fresh(n), pre);
        match ops.last() {
            PoolOp::Create => {
                lemma_create_keeps_wf(q);
            },
            PoolOp::Drain(finished) => {
                lemma_drain_keeps_wf(q, finished);
            },
            PoolOp::AddWorker => {},
        }
    }
}

/// Worker ids count the workers created: over any sequence of creates,
/// drains and added workers on a new pool, the id counter equals the number
/// of creates so far, so the `k`-th create gives the id `k` (counting from
/// 0), and the pool stays well formed, as long as the counter does not
/// wrap around.
pub proof fn law_ids_count_creates(n: nat, ops: Seq<PoolOp>, k: int)
    requires
        creates(ops) <= u64::MAX,
        0 <= k <= ops.len(),
    ensures
        apply_ops(fresh(n), ops).next_worker_id == creates(ops),
        apply_ops(fresh(n), ops).wf(),
        apply_ops(fresh(n), ops.take(k)).next_worker_id == creates(ops.take(k)),
{
    lemma_ids_count(n, ops);
    lemma_creates_prefix(ops, k);
    lemma_ids_count(n, ops.take(k));
}

proof fn lemma_drains_once(n: nat, ops: Seq<PoolOp>)
    requires
        creates(ops) <= u64::MAX,
        ops_allowed(fresh(n), ops),
    ensures
        drained_ids(ops).no_duplicates(),
        forall|i: int| 0 <= i < drained_ids(ops).len() ==> {
            &&& #[trigger] drained_ids(ops)[i] < apply_ops(fresh(n), ops).next_worker_id
            &&& !apply_ops(fresh(n), ops).in_flight.contains(drained_ids(ops)[i])
        },
    decreases ops.len(),
{
    lemma_ids_count(n, ops);
    if ops.len() > 0 {
        let pre = ops.drop_last();
        assert forall|k: int| 0 <= k < pre.len() implies (#[trigger] pre[k] matches PoolOp::Drain(finished)
            ==> drain_allowed(apply_ops(fresh(n), pre.take(k)), finished)) by {
            assert(pre[k] == ops[k]);
            assert(pre.take(k) =~= ops.take(k));
        }
        lemma_drains_once(n, pre);
        lemma_ids_count(n, pre);
        let q = apply_ops(fresh(n), pre);
        let d = drained_ids(pre);
        assert(ops.take(pre.len() as int) =~= pre);
        match ops.last() {
            PoolOp::Create => {
                assert(drained_ids(ops) =~= d);
                lemma_create_keeps_wf(q);
                let r = after_create(q);
                assert forall|i: int| 0 <= i < d.len() implies {
                    &&& #[trigger] d[i] < r.next_worker_id
                    &&& !r.in_flight.contains(d[i])
                } by {
                    if r.in_flight.contains(d[i]) {
                        let m = choose|m: int| 0 <= m < r.in_flight.len() && r.in_flight[m] == d[i];
                        if m < q.in_flight.len() {
                            assert(q.in_flight[m] == d[i]);
                        }
                    }
                }
            },
            PoolOp::Drain(finished) => {
                assert(ops[ops.len() - 1] == PoolOp::Drain(finished));
                assert(drain_allowed(q, finished));
                let ids = finished.map_values(|w: Worker| w.id);
                assert(drained_ids(ops) =~= d + ids);
                lemma_drain_keeps_wf(q, finished);
                let r = after_drain(q, finished);
                assert forall|i: int, j: int| 0 <= i < j < ids.len() implies ids[i] != ids[j] by {}
                assert forall|i: int, j: int| 0 <= i < d.len() && 0 <= j < ids.len() implies d[i] != ids[j] by {
                    assert(q.in_flight.contains(finished[j].id));
                }
                vstd::seq_lib::lemma_no_dup_in_concat(d, ids);
                let all = d + ids;
                assert forall|i: int| 0 <= i < all.len() implies {
                    &&& #[trigger] all[i] < r.next_worker_id
                    &&& !r.in_flight.contains(all[i])
                } by {
                    if i >= d.len() {
                        let j = i - d.len();
                        assert(all[i] == finished[j].id);
                        assert(q.in_flight.contains(finished[j].id));
                        let m = choose|m: int| 0 <= m < q.in_flight.len() && q.in_flight[m] == finished[j].id;
                        assert(q.in_flight[m] < q.next_worker_id);
                        assert(has_id(finished, all[i]));
                    } else {
                        assert(all[i] == d[i]);
                    }
                }
            },
            PoolOp::AddWorker => {
                assert(drained_ids(ops) =~= d);
            },
        }
    }
}

/// Drains hand back only created workers, and each at most once: over any
/// sequence of creates, drains and added workers on a new pool in which
/// every drain hands back workers it may hand back, no id is handed back
/// twice, every id handed back was given by an earlier create, and it is
/// no longer in flight.
pub proof fn law_drains_hand_back_created_workers_once(n: nat, ops: Seq<PoolOp>)
    requires
        creates(ops) <= u64::MAX,
        ops_allowed(fresh(n), ops),
    ensures
        drained_ids(ops).no_duplicates(),
        forall|i: int| 0 <= i < drained_ids(ops).len() ==> {
            &&& #[trigger] drained_ids(ops)[i] < creates(ops)
            &&& !apply_ops(fresh(n), ops).in_flight.contains(drained_ids(ops)[i])
        },
{
    lemma_ids_count(n, ops);
    lemma_drains_once(n, ops);
}

/// A drain takes the drained workers out of flight: after it, none of
/// their ids is in flight, and the ids that stay are the earlier ones in
/// their order.
pub proof fn law_drained_leave_flight(p: OrchestratorView, finished: Seq<Worker>)
    ensures
        forall|j: int| 0 <= j < finished.len() ==> !after_drain(p, finished).in_flight.contains(#[trigger] finished[j].id),
        forall|id: u64| #[trigger] after_drain(p, finished).in_flight.contains(id)
            <==> (p.in_flight.contains(id) && !has_id(finished, id)),
{
    lemma_filter_ids(p.in_flight, not_drained(finished));
    assert forall|id: u64| #[trigger] after_drain(p, finished).in_flight.contains(id)
        <==> (p.in_flight.contains(id) && !has_id(finished, id)) by {
        assert(not_drained(finished)(id) == !has_id(finished, id));
    }
    assert forall|j: int| 0 <= j < finished.len() implies !after_drain(p, finished).in_flight.contains(#[trigger] finished[j].id) by {
        assert(has_id(finished, finished[j].id));
    }
}

/// The worker threads have distinct names: the names of threads `i` and
/// `j` are equal only when `i == j`.
pub proof fn law_thread_names_distinct(i: nat, j: nat)
    requires
        thread_name_spec(i) == thread_name_spec(j),
    ensures
        i == j,
{
    let prefix = "sandbox-worker-"@;
    assert(thread_name_spec(i).skip(prefix.len() as int) =~= crate::decimal::decimal(i));
    assert(thread_name_spec(j).skip(prefix.len() as int) =~= crate::decimal::decimal(j));
    law_decimal_injective(i, j);
}

} // verus!
