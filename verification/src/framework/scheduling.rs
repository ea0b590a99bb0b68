//! Scheduling decisions of the event loop: how a value a coroutine yields
//! is handled, when the queue drainer sleeps, and how driver threads are
//! numbered and retired.
use vstd::prelude::*;
use crate::text::{concat2, u64_to_string, decimal};

verus! {

/// What a value a coroutine yields is.
#[derive(Debug, Clone, Copy, PartialEq, Eq, Structural)]
pub enum AwaitableKind {
    /// The library's own future: polled directly.
    Future,
    /// The library's own event waiter: its flag is checked.
    EventWaiter,
    /// An `asyncio.Future` (not a task): a done callback is attached.
    AsyncioFuture,
    /// A coroutine: pushed on the coroutine stack.
    Coroutine,
    /// `yield None`: rescheduled at once.
    YieldNone,
    /// Anything else: unsupported.
    Unknown,
}

/// Classify a yielded value from what is known of it, in this order:
/// `None`, the library's future type, its event-waiter type, the coroutine
/// type, then an `_asyncio_future_blocking` attribute.
pub fn classify_yielded(
    is_none: bool,
    is_future: bool,
    is_event_waiter: bool,
    is_coroutine: bool,
    has_future_blocking_attr: bool,
) -> (r: AwaitableKind)
    ensures
        r == (if is_none {
            AwaitableKind::YieldNone
        } else if is_future {
            AwaitableKind::Future
        } else if is_event_waiter {
            AwaitableKind::EventWaiter
        } else if is_coroutine {
            AwaitableKind::Coroutine
        } else if has_future_blocking_attr {
            AwaitableKind::AsyncioFuture
        } else {
            AwaitableKind::Unknown
        }),
{
    if is_none {
        AwaitableKind::YieldNone
    } else if is_future {
        AwaitableKind::Future
    } else if is_event_waiter {
        AwaitableKind::EventWaiter
    } else if is_coroutine {
        AwaitableKind::Coroutine
    } else if has_future_blocking_attr {
        AwaitableKind::AsyncioFuture
    } else {
        AwaitableKind::Unknown
    }
}

// ── Queue drainer ───────────────────────────────────────────────────────

/// Where the drainer is in one of its calls.
#[derive(Debug, Clone, Copy, PartialEq, Eq, Structural)]
pub enum DrainPhase {
    /// The first drain of the call.
    Draining,
    /// The drain after `needs_wake` was set, which closes the race with
    /// producers.
    Rechecking,
}

/// What the drainer does after a drain.
#[derive(Debug, Clone, Copy, PartialEq, Eq, Structural)]
pub enum DrainAction {
    /// Schedule itself again with `call_soon`.
    Reschedule,
    /// Set `needs_wake` and drain once more.
    Recheck,
    /// Sleep until a producer wakes it.
    Idle,
}

/// The drainer's decision after a drain.
pub open spec fn drain_next(phase: DrainPhase, processed: usize, needs_wake: bool) -> (bool, DrainAction) {
    if phase == DrainPhase::Draining {
        if processed > 0 {
            (needs_wake, DrainAction::Reschedule)
        } else {
            (true, DrainAction::Recheck)
        }
    } else if processed > 0 {
        (false, DrainAction::Reschedule)
    } else {
        (true, DrainAction::Idle)
    }
}

/// One decision of the drainer, from its phase, how many items the drain
/// processed and the `needs_wake` flag, to the new flag and what to do:
/// work found means run again; nothing found sets the flag and checks once
/// more; nothing found on that check means sleep.
pub fn drain_step(phase: DrainPhase, processed: usize, needs_wake: bool) -> (r: (bool, DrainAction))
    ensures
        r == drain_next(phase, processed, needs_wake),
{
    match phase {
        DrainPhase::Draining => if processed > 0 {
            (needs_wake, DrainAction::Reschedule)
        } else {
            (true, DrainAction::Recheck)
        },
        DrainPhase::Rechecking => if processed > 0 {
            (false, DrainAction::Reschedule)
        } else {
            (true, DrainAction::Idle)
        },
    }
}

/// The drainer only goes idle with `needs_wake` set, after a recheck that
/// found nothing, so a producer that sees the flag wakes it; a recheck that
/// finds work clears the flag and runs again.
pub proof fn law_drainer_sleeps_only_when_woken(phase: DrainPhase, processed: usize, needs_wake: bool)
    ensures
        drain_next(phase, processed, needs_wake).1 == DrainAction::Idle ==> drain_next(
            phase,
            processed,
            needs_wake,
        ).0 && processed == 0 && phase == DrainPhase::Rechecking,
        drain_next(phase, processed, needs_wake).1 == DrainAction::Recheck ==> drain_next(
            phase,
            processed,
            needs_wake,
        ).0,
        phase == DrainPhase::Rechecking && processed > 0 ==> drain_next(phase, processed, needs_wake)
            == (false, DrainAction::Reschedule),
{
}

/// The error when the drainer must reschedule before its self-reference is
/// set.
pub fn missing_self_ref() -> (r: &'static str)
    ensures
        r@ == "QueueDrainer self_ref not set"@,
{
    "QueueDrainer self_ref not set"
}

// ── Driver threads ──────────────────────────────────────────────────────

/// The ids a run of spawn attempts keeps: attempt `k` takes id `first + k`
/// from the counter, and the id is kept only when its thread was spawned.
pub open spec fn spawned_ids(first: int, spawned: Seq<bool>) -> Seq<int>
    decreases spawned.len(),
{
    if spawned.len() == 0 {
        Seq::empty()
    } else {
        let rest = spawned_ids(first, spawned.drop_last());
        if spawned.last() {
            rest.push(first + spawned.len() - 1)
        } else {
            rest
        }
    }
}

proof fn lemma_spawned_ids(first: int, spawned: Seq<bool>)
    ensures
        spawned_ids(first, spawned).len() <= spawned.len(),
        (forall|k: int| 0 <= k < spawned.len() ==> #[trigger] spawned[k]) ==> spawned_ids(first, spawned).len()
            == spawned.len(),
        forall|i: int|
            0 <= i < spawned_ids(first, spawned).len() ==> first <= #[trigger] spawned_ids(first, spawned)[i]
                < first + spawned.len(),
        forall|i: int, j: int|
            0 <= i < j < spawned_ids(first, spawned).len() ==> #[trigger] spawned_ids(first, spawned)[i]
                < #[trigger] spawned_ids(first, spawned)[j],
    decreases spawned.len(),
{
    if spawned.len() > 0 {
        let p = spawned.drop_last();
        lemma_spawned_ids(first, p);
        let r = spawned_ids(first, p);
        let ids = spawned_ids(first, spawned);
        if forall|k: int| 0 <= k < spawned.len() ==> #[trigger] spawned[k] {
            assert forall|k: int| 0 <= k < p.len() implies #[trigger] p[k] by {
                assert(p[k] == spawned[k]);
            }
            assert(spawned[spawned.len() - 1]);
        }
        if spawned.last() {
            assert forall|i: int| 0 <= i < ids.len() implies first <= #[trigger] ids[i] < first + spawned.len() by {
                if i < r.len() {
                    assert(ids[i] == r[i]);
                }
            }
            assert forall|i: int, j: int| 0 <= i < j < ids.len() implies #[trigger] ids[i] < #[trigger] ids[j] by {
                assert(ids[i] == r[i]);
                if j < r.len() {
                    assert(ids[j] == r[j]);
                }
            }
        }
    }
}

/// The ids kept by a run of spawn attempts, one attempt per entry of
/// `spawned` (whether that thread was spawned), and the counter after them:
/// every attempt takes the next id, and a failed spawn skips its id.
pub fn thread_ids_after_spawns(next_id: usize, spawned: &[bool]) -> (r: (Vec<usize>, usize))
    requires
        next_id + spawned@.len() <= usize::MAX,
    ensures
        r.0@.map_values(|x: usize| x as int) == spawned_ids(next_id as int, spawned@),
        r.1 == next_id + spawned@.len(),
{
    let mut ids: Vec<usize> = Vec::new();
    let mut k: usize = 0;
    assert(spawned@.take(0) =~= Seq::<bool>::empty());
    assert(ids@.map_values(|x: usize| x as int) =~= Seq::<int>::empty());
    while k < spawned.len()
        invariant
            k <= spawned@.len(),
            next_id + spawned@.len() <= usize::MAX,
            ids@.map_values(|x: usize| x as int) == spawned_ids(next_id as int, spawned@.take(k as int)),
        decreases spawned@.len() - k,
    {
        let ghost before = ids@;
        assert(spawned@.take(k + 1).drop_last() =~= spawned@.take(k as int));
        assert(spawned@.take(k + 1).last() == spawned@[k as int]);
        if spawned[k] {
            ids.push(next_id + k);
            assert(ids@.map_values(|x: usize| x as int) =~= before.map_values(|x: usize| x as int).push(
                next_id + k,
            ));
        }
        k = k + 1;
    }
    assert(spawned@.take(spawned@.len() as int) =~= spawned@);
    (ids, next_id + spawned.len())
}

/// Driver thread ids are never reused. Given ids handed out earlier, all
/// below the counter, the ids kept by a run of spawn attempts rise strictly,
/// lie above every earlier id, number at most one per attempt (exactly one
/// per attempt when every spawn succeeds), and the counter afterwards lies
/// above every id handed out so far, so the next run keeps this law.
pub proof fn law_thread_ids_never_reused(next_id: int, spawned: Seq<bool>, earlier: Seq<int>)
    requires
        forall|j: int| 0 <= j < earlier.len() ==> #[trigger] earlier[j] < next_id,
    ensures
        spawned_ids(next_id, spawned).len() <= spawned.len(),
        (forall|k: int| 0 <= k < spawned.len() ==> #[trigger] spawned[k]) ==> spawned_ids(next_id, spawned).len()
            == spawned.len(),
        forall|i: int, j: int|
            0 <= i < j < spawned_ids(next_id, spawned).len() ==> #[trigger] spawned_ids(next_id, spawned)[i]
                < #[trigger] spawned_ids(next_id, spawned)[j],
        forall|i: int, j: int|
            0 <= i < spawned_ids(next_id, spawned).len() && 0 <= j < earlier.len() ==> #[trigger] earlier[j]
                < #[trigger] spawned_ids(next_id, spawned)[i],
        forall|x: int|
            (earlier + spawned_ids(next_id, spawned)).contains(x) ==> x < next_id + spawned.len(),
{
    lemma_spawned_ids(next_id, spawned);
    let ids = spawned_ids(next_id, spawned);
    assert forall|x: int| (earlier + ids).contains(x) implies x < next_id + spawned.len() by {
        let t = choose|t: int| 0 <= t < (earlier + ids).len() && (earlier + ids)[t] == x;
        if t < earlier.len() {
            assert((earlier + ids)[t] == earlier[t]);
        } else {
            assert((earlier + ids)[t] == ids[t - earlier.len()]);
        }
    }
}

/// The name of a driver thread.
pub fn driver_thread_name(id: usize) -> (r: String)
    ensures
        r@ == "apx-driver-"@ + decimal(id as nat),
{
    let d = u64_to_string(id as u64);
    concat2("apx-driver-", d.as_str())
}

/// Retire `n` driver threads: the last `min(n, len)` leave the list (the
/// newest first in line), the others stay in order.
pub fn take_last<T>(threads: &mut Vec<T>, n: usize) -> (r: Vec<T>)
    ensures
        ({
            let k = if n < old(threads)@.len() {
                n as int
            } else {
                old(threads)@.len() as int
            };
            &&& final(threads)@ == old(threads)@.subrange(0, old(threads)@.len() - k)
            &&& r@ == old(threads)@.subrange(old(threads)@.len() - k, old(threads)@.len() as int)
        }),
{
    let len = threads.len();
    let k = if n < len { n } else { len };
    threads.split_off(len - k)
}

/// Retiring threads loses none: the ones kept followed by the ones retired
/// are the list before.
pub proof fn law_retire_keeps_all<T>(before: Seq<T>, k: int)
    requires
        0 <= k <= before.len(),
    ensures
        before.subrange(0, before.len() - k) + before.subrange(before.len() - k, before.len() as int)
            == before,
{
    assert(before.subrange(0, before.len() - k) + before.subrange(before.len() - k, before.len() as int) =~= before);
}

} // verus!
