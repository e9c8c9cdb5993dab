//! Batch orchestration.
//!
//! A batch runs a collection of independent requests under a concurrency
//! cap and one shared deadline. Whatever order the requests complete in,
//! the outcome list of the summary is in submission order: outcomes are
//! recorded into a slot per submission index. Requests still unfinished
//! when the batch is closed are marked failed with a timeout error; with
//! fail-fast set, the first recorded failure stops all further dispatch.
//!
//! The completion order is data here: [`run_batch`] takes the per-request
//! outcomes and the order in which they arrive, so a run is replayable and
//! the ordering guarantee is proved for every completion order. The
//! asynchronous caller drives the same bookkeeping through
//! [`BatchCollector`] and [`BatchGate`].

use vstd::prelude::*;
use crate::error::LLMRouterError;
use crate::models::InferenceResponse;

verus! {

/// Options of one batch run.
#[derive(Debug, Clone, Copy)]
pub struct BatchOptions {
    /// Concurrency cap: how many requests may be in flight at once.
    pub max_concurrent: u32,
    /// Shared deadline of the whole batch, in milliseconds from its start.
    pub timeout_ms: u64,
    /// Abort remaining work on the first failure.
    pub fail_fast: bool,
}

/// Outcome of one batch member, paired with its submission index.
#[derive(Debug)]
pub struct BatchItemOutcome {
    /// The request's position in the submitted batch.
    pub index: usize,
    /// Its response, or the error that ended it.
    pub result: Result<InferenceResponse, LLMRouterError>,
}

/// Aggregate result of one batch run, with outcomes in submission order.
#[derive(Debug)]
pub struct BatchSummary {
    /// Number of requests submitted.
    pub total: usize,
    /// Number that succeeded.
    pub succeeded: usize,
    /// Number that failed (including timed-out and cancelled ones).
    pub failed: usize,
    /// Wall-clock duration of the batch, in milliseconds.
    pub elapsed_ms: u64,
    /// One outcome per request, index `i` at position `i`.
    pub outcomes: Vec<BatchItemOutcome>,
}

/// Number of successful outcomes in the list.
pub open spec fn sp_num_ok(outs: Seq<BatchItemOutcome>) -> nat
    decreases outs.len(),
{
    if outs.len() == 0 {
        0
    } else {
        sp_num_ok(outs.drop_last()) + if outs.last().result is Ok {
            1nat
        } else {
            0nat
        }
    }
}

/// The concurrency gate of a batch: a counting semaphore decision, tracked
/// as plain state. The caller acquires a slot before dispatching a request
/// and releases it when the request resolves.
#[derive(Debug, Clone, Copy)]
pub struct BatchGate {
    /// Requests currently in flight.
    pub in_flight: u32,
    /// The cap they stay under.
    pub max_concurrent: u32,
}

impl BatchGate {
    /// A gate with nothing in flight.
    pub fn new(max_concurrent: u32) -> (r: Self)
        ensures
            r.in_flight == 0,
            r.max_concurrent == max_concurrent,
    {
        BatchGate { in_flight: 0, max_concurrent }
    }

    /// Take a slot when one is free: in-flight requests never exceed the
    /// cap.
    pub fn try_acquire(&mut self) -> (r: bool)
        ensures
            final(self).max_concurrent == old(self).max_concurrent,
            r == (old(self).in_flight < old(self).max_concurrent),
            r ==> final(self).in_flight == old(self).in_flight + 1,
            !r ==> final(self).in_flight == old(self).in_flight,
    {
        if self.in_flight < self.max_concurrent {
            self.in_flight = self.in_flight + 1;
            true
        } else {
            false
        }
    }

    /// Give a slot back.
    pub fn release(&mut self)
        requires
            old(self).in_flight > 0,
        ensures
            final(self).max_concurrent == old(self).max_concurrent,
            final(self).in_flight == old(self).in_flight - 1,
    {
        self.in_flight = self.in_flight - 1;
    }
}

/// Per-index outcome slots of a running batch. Recording is addressed by
/// submission index, which is what keeps the final outcome list in
/// submission order whatever order completions arrive in.
pub struct BatchCollector {
    /// One slot per submitted request, filled as completions arrive.
    pub slots: Vec<Option<Result<InferenceResponse, LLMRouterError>>>,
    /// Abort remaining work on the first failure.
    pub fail_fast: bool,
    /// Whether dispatch must stop (a failure arrived under fail-fast).
    pub stop: bool,
}

impl BatchCollector {
    /// A collector with one empty slot per request.
    pub fn new(total: usize, fail_fast: bool) -> (r: Self)
        ensures
            r.slots@.len() == total,
            forall|i: int| 0 <= i < total ==> (#[trigger] r.slots@[i]) is None,
            r.fail_fast == fail_fast,
            !r.stop,
    {
        let mut slots: Vec<Option<Result<InferenceResponse, LLMRouterError>>> = Vec::new();
        let mut i: usize = 0;
        while i < total
            invariant
                i <= total,
                slots@.len() == i,
                forall|j: int| 0 <= j < i ==> (#[trigger] slots@[j]) is None,
            decreases total - i,
        {
            slots.push(None);
            i = i + 1;
        }
        BatchCollector { slots, fail_fast, stop: false }
    }

    /// Whether more work may be dispatched.
    pub fn should_dispatch(&self) -> (r: bool)
        ensures
            r == !self.stop,
    {
        !self.stop
    }

    /// Record one completion under its submission index. Under fail-fast, a
    /// recorded failure stops all further dispatch.
    pub fn record(&mut self, index: usize, result: Result<InferenceResponse, LLMRouterError>)
        requires
            index < old(self).slots@.len(),
        ensures
            final(self).slots@ == old(self).slots@.update(index as int, Some(result)),
            final(self).fail_fast == old(self).fail_fast,
            final(self).stop == (old(self).stop || (old(self).fail_fast && result is Err)),
    {
        let is_err = result.is_err();
        self.slots.set(index, Some(result));
        if self.fail_fast && is_err {
            self.stop = true;
        }
    }

    /// Close the batch: every still-empty slot becomes a timeout failure,
    /// and the outcomes are returned in submission order with their counts.
    pub fn finish(self, elapsed_ms: u64) -> (r: BatchSummary)
        ensures
            r.total == self.slots@.len(),
            r.elapsed_ms == elapsed_ms,
            r.outcomes@.len() == self.slots@.len(),
            forall|i: int| 0 <= i < r.outcomes@.len() ==> (#[trigger] r.outcomes@[i]).index == i,
            forall|i: int| 0 <= i < r.outcomes@.len() ==> match self.slots@[i] {
                Some(res) => (#[trigger] r.outcomes@[i]).result == res,
                None => r.outcomes@[i].result matches Err(e) && e matches
                    LLMRouterError::Timeout { message: m, timeout_ms: t } && m@
                    == "Batch timeout"@ && t is None,
            },
            r.succeeded == sp_num_ok(r.outcomes@),
            r.failed + r.succeeded == r.total,
    {
        let ghost orig = self.slots@;
        let mut slots = self.slots;
        let n = slots.len();
        let mut outcomes: Vec<BatchItemOutcome> = Vec::new();
        let mut succeeded: usize = 0;
        let mut i: usize = 0;
        while i < n
            invariant
                i <= n,
                n == orig.len(),
                slots@ =~= orig.skip(i as int),
                outcomes@.len() == i,
                forall|j: int| 0 <= j < i ==> (#[trigger] outcomes@[j]).index == j,
                forall|j: int| 0 <= j < i ==> match orig[j] {
                    Some(res) => (#[trigger] outcomes@[j]).result == res,
                    None => outcomes@[j].result matches Err(e) && e matches
                        LLMRouterError::Timeout { message: m, timeout_ms: t } && m@
                        == "Batch timeout"@ && t is None,
                },
                succeeded <= i,
                succeeded == sp_num_ok(outcomes@),
            decreases n - i,
        {
            let ghost outs_pre = outcomes@;
            let slot = slots.remove(0);
            let result = match slot {
                Some(res) => res,
                None => Err(LLMRouterError::timeout("Batch timeout", None)),
            };
            let is_ok = result.is_ok();
            outcomes.push(BatchItemOutcome { index: i, result });
            if is_ok {
                succeeded = succeeded + 1;
            }
            proof {
                assert(outcomes@.drop_last() =~= outs_pre);
                assert(slots@ =~= orig.skip(i as int + 1));
            }
            i = i + 1;
        }
        let failed = n - succeeded;
        BatchSummary { total: n, succeeded, failed, elapsed_ms, outcomes }
    }
}

/// The slot contents a batch ends with, given the per-request outcomes and
/// the order completions arrive in: completions are recorded left to right
/// until the order is exhausted or, under fail-fast, a failure has been
/// recorded.
pub open spec fn sp_sim(
    scripts: Seq<Result<InferenceResponse, LLMRouterError>>,
    order: Seq<usize>,
    k: nat,
    slots: Seq<Option<Result<InferenceResponse, LLMRouterError>>>,
    stop: bool,
    fail_fast: bool,
) -> Seq<Option<Result<InferenceResponse, LLMRouterError>>>
    decreases order.len() - k,
{
    if k >= order.len() || stop {
        slots
    } else {
        let idx = order[k as int] as int;
        sp_sim(
            scripts,
            order,
            k + 1,
            slots.update(idx, Some(scripts[idx])),
            fail_fast && scripts[idx] is Err,
            fail_fast,
        )
    }
}

/// A row of empty outcome slots.
pub open spec fn sp_empty_slots(n: nat) -> Seq<
    Option<Result<InferenceResponse, LLMRouterError>>,
> {
    Seq::new(n, |i: int| None)
}

/// Run a whole batch, with the completion order given as data: requests
/// are dispatched in submission order and their outcomes recorded as they
/// arrive; requests that never complete (they are not listed in the order,
/// or dispatch stopped first) are marked failed with a timeout error. The
/// outcome list is in submission order for every completion order, and the
/// counts reflect exactly the outcomes listed.
pub fn run_batch(
    scripts: Vec<Result<InferenceResponse, LLMRouterError>>,
    completion_order: &Vec<usize>,
    options: &BatchOptions,
    elapsed_ms: u64,
) -> (r: BatchSummary)
    requires
        forall|p: int| 0 <= p < completion_order@.len() ==> (#[trigger] completion_order@[p])
            < scripts@.len(),
        forall|p: int, q: int| 0 <= p < q < completion_order@.len() ==> completion_order@[p]
            != completion_order@[q],
    ensures
        r.total == scripts@.len(),
        r.elapsed_ms == elapsed_ms,
        r.outcomes@.len() == scripts@.len(),
        forall|i: int| 0 <= i < r.outcomes@.len() ==> (#[trigger] r.outcomes@[i]).index == i,
        forall|i: int| 0 <= i < r.outcomes@.len() ==> match sp_sim(
            scripts@,
            completion_order@,
            0,
            sp_empty_slots(scripts@.len()),
            false,
            options.fail_fast,
        )[i] {
            Some(res) => (#[trigger] r.outcomes@[i]).result == res,
            None => r.outcomes@[i].result matches Err(e) && e matches
                LLMRouterError::Timeout { message: m, timeout_ms: t } && m@
                == "Batch timeout"@ && t is None,
        },
        r.succeeded == sp_num_ok(r.outcomes@),
        r.failed + r.succeeded == r.total,
{
    let ghost scripts0 = scripts@;
    let n = scripts.len();
    // Move the scripts into per-index slots so each can be taken once.
    let mut pending: Vec<Option<Result<InferenceResponse, LLMRouterError>>> = Vec::new();
    let mut scripts = scripts;
    let mut i: usize = 0;
    while i < n
        invariant
            i <= n,
            n == scripts0.len(),
            scripts@ =~= scripts0.skip(i as int),
            pending@.len() == i,
            forall|j: int| 0 <= j < i ==> (#[trigger] pending@[j]) == Some(scripts0[j]),
        decreases n - i,
    {
        let s = scripts.remove(0);
        pending.push(Some(s));
        proof {
            assert(scripts@ =~= scripts0.skip(i as int + 1));
        }
        i = i + 1;
    }
    let mut collector = BatchCollector::new(n, options.fail_fast);
    proof {
        assert(collector.slots@ =~= sp_empty_slots(n as nat));
    }
    let mut p: usize = 0;
    loop
        invariant
            p <= completion_order@.len(),
            forall|q: int| 0 <= q < completion_order@.len()
                ==> (#[trigger] completion_order@[q]) < n,
            forall|q1: int, q2: int| 0 <= q1 < q2 < completion_order@.len()
                ==> completion_order@[q1] != completion_order@[q2],
            n == scripts0.len(),
            pending@.len() == n,
            forall|j: int| 0 <= j < n ==> (#[trigger] pending@[j]) == (
                if exists|q: int| 0 <= q < p && completion_order@[q] == j {
                    Option::<Result<InferenceResponse, LLMRouterError>>::None
                } else {
                    Some(scripts0[j])
                }
            ),
            collector.slots@.len() == n,
            collector.fail_fast == options.fail_fast,
            sp_sim(scripts0, completion_order@, 0, sp_empty_slots(n as nat), false,
                options.fail_fast,
            ) == sp_sim(scripts0, completion_order@, p as nat, collector.slots@,
                collector.stop, options.fail_fast,
            ),
        ensures
            sp_sim(scripts0, completion_order@, 0, sp_empty_slots(n as nat), false,
                options.fail_fast,
            ) == collector.slots@,
            collector.slots@.len() == n,
            collector.fail_fast == options.fail_fast,
        decreases completion_order@.len() - p,
    {
        if p >= completion_order.len() {
            break;
        }
        if !collector.should_dispatch() {
            break;
        }
        let idx = completion_order[p];
        let mut taken: Option<Result<InferenceResponse, LLMRouterError>> = None;
        pending.set_and_swap(idx, &mut taken);
        let res = match taken {
            Some(res) => res,
            None => {
                // Unreachable: completion indexes are distinct, so the
                // script at this index has not been taken yet.
                proof {
                    assert(exists|q: int| 0 <= q < p && completion_order@[q] == idx as int);
                    let q = choose|q: int| 0 <= q < p && completion_order@[q] == idx as int;
                    assert(completion_order@[q] == completion_order@[p as int]);
                    assert(false);
                }
                Err(LLMRouterError::timeout("Batch timeout", None))
            },
        };
        collector.record(idx, res);
        proof {
            assert forall|j: int| 0 <= j < n implies (#[trigger] pending@[j]) == (
                if exists|q: int| 0 <= q < p + 1 && completion_order@[q] == j {
                    Option::<Result<InferenceResponse, LLMRouterError>>::None
                } else {
                    Some(scripts0[j])
                }
            ) by {
                if j == idx as int {
                    assert(0 <= p < p + 1 && completion_order@[p as int] == j);
                } else {
                    if exists|q: int| 0 <= q < p + 1 && completion_order@[q] == j {
                        let q = choose|q: int| 0 <= q < p + 1 && completion_order@[q] == j;
                        assert(q != p);
                        assert(0 <= q < p && completion_order@[q] == j);
                    }
                }
            }
        }
        p = p + 1;
    }
    collector.finish(elapsed_ms)
}

/// What the simulated slots hold, position by position: an index listed in
/// the remaining completion order is overwritten with its script outcome,
/// and every other slot keeps its current contents (with fail-fast off,
/// nothing ever stops the recording).
proof fn lemma_sim_fills(
    scripts: Seq<Result<InferenceResponse, LLMRouterError>>,
    order: Seq<usize>,
    k: nat,
    slots: Seq<Option<Result<InferenceResponse, LLMRouterError>>>,
)
    requires
        slots.len() == scripts.len(),
        forall|p: int| 0 <= p < order.len() ==> (#[trigger] order[p]) < scripts.len(),
    ensures
        sp_sim(scripts, order, k, slots, false, false).len() == slots.len(),
        forall|j: int| 0 <= j < slots.len() ==> #[trigger] sp_sim(
            scripts,
            order,
            k,
            slots,
            false,
            false,
        )[j] == (if exists|q: int| k <= q < order.len() && order[q] == j {
            Some(scripts[j])
        } else {
            slots[j]
        }),
    decreases order.len() - k,
{
    if k < order.len() {
        let idx = order[k as int] as int;
        let slots2 = slots.update(idx, Some(scripts[idx]));
        lemma_sim_fills(scripts, order, k + 1, slots2);
        assert forall|j: int| 0 <= j < slots.len() implies #[trigger] sp_sim(
            scripts,
            order,
            k,
            slots,
            false,
            false,
        )[j] == (if exists|q: int| k <= q < order.len() && order[q] == j {
            Some(scripts[j])
        } else {
            slots[j]
        }) by {
            if exists|q: int| k <= q < order.len() && order[q] == j {
                let q = choose|q: int| k <= q < order.len() && order[q] == j;
                if j == idx {
                    assert(slots2[j] == Some(scripts[j]));
                } else {
                    assert(q != k);
                    assert(exists|q2: int| k + 1 <= q2 < order.len() && order[q2] == j);
                }
            } else {
                assert(j != idx) by {
                    assert(order[k as int] == idx);
                }
                assert(!(exists|q2: int| k + 1 <= q2 < order.len() && order[q2] == j));
                assert(slots2[j] == slots[j]);
            }
        }
    }
}

/// Law: without fail-fast, when every submitted request completes (its
/// index appears in the completion order), the batch's final slots hold
/// exactly each request's own outcome, in submission order, whatever order
/// the completions arrived in.
pub proof fn lemma_batch_preserves_order(
    scripts: Seq<Result<InferenceResponse, LLMRouterError>>,
    order: Seq<usize>,
)
    requires
        scripts.len() <= usize::MAX,
        forall|p: int| 0 <= p < order.len() ==> (#[trigger] order[p]) < scripts.len(),
        forall|j: int| 0 <= j < scripts.len() ==> #[trigger] order.contains(j as usize),
    ensures
        sp_sim(scripts, order, 0, sp_empty_slots(scripts.len()), false, false).len()
            == scripts.len(),
        forall|j: int| 0 <= j < scripts.len() ==> #[trigger] sp_sim(
            scripts,
            order,
            0,
            sp_empty_slots(scripts.len()),
            false,
            false,
        )[j] == Some(scripts[j]),
{
    lemma_sim_fills(scripts, order, 0, sp_empty_slots(scripts.len()));
    assert forall|j: int| 0 <= j < scripts.len() implies #[trigger] sp_sim(
        scripts,
        order,
        0,
        sp_empty_slots(scripts.len()),
        false,
        false,
    )[j] == Some(scripts[j]) by {
        assert(order.contains(j as usize));
        let q = choose|q: int| 0 <= q < order.len() && order[q] == j as usize;
        assert(0 <= q < order.len() && order[q] == j);
        assert(exists|q2: int| 0 <= q2 < order.len() && #[trigger] order[q2] == j);
    }
}

} // verus!
