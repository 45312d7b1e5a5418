use vstd::prelude::*;
use crate::scheduler::{Scheduler, Sleeper, Step, asleep, awake, block_step, reconcile, tick};

verus! {

/// Starting from an empty ready queue, admitting threads `ids` one after the
/// other (each step as `ready` leaves it) puts them in the queue in admission
/// order, so `start` dispatches the first thread admitted.
pub proof fn lemma_start_runs_first_ready(states: Seq<Scheduler>, ids: Seq<usize>)
    requires
        ids.len() > 0,
        states.len() == ids.len() + 1,
        states[0].queue() == Seq::<usize>::empty(),
        forall|i: int| 0 <= i < ids.len() ==> #[trigger] states[i + 1].queue() == states[i].queue().push(ids[i]),
    ensures
        states[ids.len() as int].queue() == ids,
        states[ids.len() as int].queue()[0] == ids[0],
{
    lemma_admitted_prefix(states, ids, ids.len() as int);
    assert(ids.take(ids.len() as int) =~= ids);
}

proof fn lemma_admitted_prefix(states: Seq<Scheduler>, ids: Seq<usize>, k: int)
    requires
        0 <= k <= ids.len(),
        states.len() == ids.len() + 1,
        states[0].queue() == Seq::<usize>::empty(),
        forall|i: int| 0 <= i < ids.len() ==> #[trigger] states[i + 1].queue() == states[i].queue().push(ids[i]),
    ensures
        states[k].queue() == ids.take(k),
    decreases k,
{
    if k == 0 {
        assert(ids.take(0) =~= Seq::<usize>::empty());
    } else {
        lemma_admitted_prefix(states, ids, k - 1);
        assert(states[k].queue() == states[k - 1].queue().push(ids[k - 1]));
        assert(ids.take(k) =~= ids.take(k - 1).push(ids[k - 1]));
    }
}

/// A thread's join-map entry appears when it is admitted, keeps existing while
/// other threads are joined on it, and is gone once it exits: `ready` adds it,
/// `join` keeps the set of entries, `exit` removes exactly the exiting thread's.
pub proof fn lemma_join_entry_lifetime(s0: Scheduler, s1: Scheduler, s2: Scheduler, s3: Scheduler, id: usize, waiter: usize)
    requires
        !s0.joins().contains_key(id),
        s1.joins() == s0.joins().insert(id, Seq::<usize>::empty()),
        s2.joins() == s1.joins().insert(id, s1.joins()[id].push(waiter)),
        s3.joins() == s2.joins().remove(id),
    ensures
        s1.joins().contains_key(id),
        s2.joins().dom() == s1.joins().dom(),
        s2.joins()[id] == seq![waiter],
        !s3.joins().contains_key(id),
        s3.joins().dom() == s0.joins().dom(),
{
    assert(s2.joins().dom() =~= s1.joins().dom());
    assert(s3.joins().dom() =~= s0.joins().dom());
    assert(Seq::<usize>::empty().push(waiter) =~= seq![waiter]);
}

/// The state after `k` timer ticks while `cur` runs, `q` is ready and nobody
/// sleeps: the ready queue and the running thread.
pub open spec fn ticks(q: Seq<usize>, cur: usize, k: nat) -> (Seq<usize>, usize)
    decreases k,
{
    if k == 0 {
        (q, cur)
    } else {
        let (q1, c1) = ticks(q, cur, (k - 1) as nat);
        let (_, q2, _, c2) = tick(q1, Seq::<Sleeper>::empty(), c1, None);
        (q2, c2)
    }
}

proof fn lemma_ticks_rotate(q: Seq<usize>, cur: usize, k: nat)
    requires
        1 <= k <= q.len() + 1,
    ensures
        ticks(q, cur, k).1 == q.push(cur)[k - 1],
        ticks(q, cur, k).0 == q.push(cur).subrange(k as int, q.len() as int + 1) + q.push(cur).take(k - 1),
    decreases k,
{
    let all = q.push(cur);
    let e = Seq::<Sleeper>::empty();
    let (qp, cp) = ticks(q, cur, (k - 1) as nat);
    assert(reconcile(qp, e, None) == (qp, e));
    assert(ticks(q, cur, k) == (tick(qp, e, cp, None).1, tick(qp, e, cp, None).3));
    if k == 1 {
        assert(qp == q && cp == cur);
        if q.len() > 0 {
            assert(q.drop_first().push(cur) =~= all.subrange(1, q.len() as int + 1) + all.take(0));
        } else {
            assert(q =~= all.subrange(1, 1) + all.take(0));
        }
    } else {
        lemma_ticks_rotate(q, cur, (k - 1) as nat);
        assert(qp.len() > 0);
        assert(qp[0] == all[k - 1]);
        assert(qp.drop_first().push(all[k - 2]) =~= all.subrange(k as int, q.len() as int + 1) + all.take(k - 1));
    }
}

/// Round robin: with `cur` running, `q` ready and nobody sleeping, the ticks
/// dispatch the threads of `q` in queue order and then `cur`, so each of these
/// threads runs exactly once in the first `q.len() + 1` ticks, after which the
/// scheduler is back where it began.
pub proof fn lemma_round_robin(q: Seq<usize>, cur: usize)
    ensures
        forall|k: nat| 1 <= k <= q.len() + 1 ==> #[trigger] ticks(q, cur, k).1 == q.push(cur)[k - 1],
        ticks(q, cur, (q.len() as int + 1) as nat) == (q, cur),
{
    assert forall|k: nat| 1 <= k <= q.len() + 1 implies #[trigger] ticks(q, cur, k).1 == q.push(cur)[k - 1] by {
        lemma_ticks_rotate(q, cur, k);
    }
    lemma_ticks_rotate(q, cur, (q.len() as int + 1) as nat);
    assert(q.push(cur).subrange(q.len() as int + 1, q.len() as int + 1) + q.push(cur).take(q.len() as int) =~= q);
}

proof fn lemma_awake_only_due(sl: Seq<Sleeper>, t: usize, id: usize)
    requires
        awake(sl, t).contains(id),
    ensures
        exists|j: int| 0 <= j < sl.len() && #[trigger] sl[j].0 == id && sl[j].1 <= t,
    decreases sl.len(),
{
    let prev = awake(sl.drop_last(), t);
    if prev.contains(id) {
        lemma_awake_only_due(sl.drop_last(), t, id);
        let j = choose|j: int| 0 <= j < sl.drop_last().len() && #[trigger] sl.drop_last()[j].0 == id && sl.drop_last()[j].1 <= t;
        assert(sl[j] == sl.drop_last()[j]);
    } else {
        assert(sl.last().1 <= t && sl.last().0 == id);
        assert(sl[sl.len() - 1].0 == id);
    }
}

proof fn lemma_asleep_from_list(sl: Seq<Sleeper>, t: usize, k: int)
    requires
        0 <= k < asleep(sl, t).len(),
    ensures
        exists|j: int| 0 <= j < sl.len() && #[trigger] sl[j] == asleep(sl, t)[k],
    decreases sl.len(),
{
    let prev = asleep(sl.drop_last(), t);
    if k < prev.len() {
        lemma_asleep_from_list(sl.drop_last(), t, k);
        let j = choose|j: int| 0 <= j < sl.drop_last().len() && #[trigger] sl.drop_last()[j] == prev[k];
        assert(sl[j] == sl.drop_last()[j]);
    } else {
        assert(sl[sl.len() - 1] == asleep(sl, t)[k]);
    }
}

proof fn lemma_asleep_keeps(sl: Seq<Sleeper>, t: usize, j: int)
    requires
        0 <= j < sl.len(),
        t < sl[j].1,
    ensures
        asleep(sl, t).contains(sl[j]),
    decreases sl.len(),
{
    let prev = asleep(sl.drop_last(), t);
    if j == sl.len() - 1 {
        assert(asleep(sl, t)[prev.len() as int] == sl[j]);
    } else {
        assert(sl.drop_last()[j] == sl[j]);
        lemma_asleep_keeps(sl.drop_last(), t, j);
        let k = choose|k: int| 0 <= k < prev.len() && prev[k] == sl[j];
        if sl.last().1 > t {
            assert(asleep(sl, t)[k] == prev[k]);
        }
    }
}

proof fn lemma_concat_contains(a: Seq<usize>, b: Seq<usize>, x: usize)
    ensures
        (a + b).contains(x) <==> (a.contains(x) || b.contains(x)),
{
    if (a + b).contains(x) {
        let k = choose|k: int| 0 <= k < (a + b).len() && (a + b)[k] == x;
        if k >= a.len() {
            assert(b[k - a.len()] == x);
        }
    }
    if a.contains(x) {
        let k = choose|k: int| 0 <= k < a.len() && a[k] == x;
        assert((a + b)[k] == x);
    }
    if b.contains(x) {
        let k = choose|k: int| 0 <= k < b.len() && b[k] == x;
        assert((a + b)[a.len() + k] == x);
    }
}

/// What reconciling the sleep list does to a thread `id` with no entry due at
/// `now`: it is ready afterwards exactly when it was ready before, and each of
/// its sleep entries stays, nothing else entering the sleep list.
proof fn lemma_reconcile_not_due(q: Seq<usize>, sl: Seq<Sleeper>, now: Option<usize>, id: usize)
    requires
        forall|j: int| 0 <= j < sl.len() && #[trigger] sl[j].0 == id ==> (now is None || now.unwrap() < sl[j].1),
    ensures
        reconcile(q, sl, now).0.contains(id) == q.contains(id),
        forall|j: int| 0 <= j < sl.len() && sl[j].0 == id ==> reconcile(q, sl, now).1.contains(#[trigger] sl[j]),
        forall|k: int| 0 <= k < reconcile(q, sl, now).1.len() ==> sl.contains(#[trigger] reconcile(q, sl, now).1[k]),
{
    if let Some(t) = now {
        lemma_concat_contains(q, awake(sl, t), id);
        if awake(sl, t).contains(id) {
            lemma_awake_only_due(sl, t, id);
        }
        assert forall|j: int| 0 <= j < sl.len() && sl[j].0 == id implies asleep(sl, t).contains(#[trigger] sl[j]) by {
            lemma_asleep_keeps(sl, t, j);
        }
        assert forall|k: int| 0 <= k < asleep(sl, t).len() implies sl.contains(#[trigger] asleep(sl, t)[k]) by {
            lemma_asleep_from_list(sl, t, k);
        }
    } else {
        assert forall|j: int| 0 <= j < sl.len() && sl[j].0 == id implies sl.contains(#[trigger] sl[j]) by {
        }
        assert forall|k: int| 0 <= k < sl.len() implies sl.contains(#[trigger] sl[k]) by {
        }
    }
}

proof fn lemma_drop_first_contains(q: Seq<usize>, x: usize)
    requires
        q.len() > 0,
    ensures
        q.contains(x) <==> (q[0] == x || q.drop_first().contains(x)),
{
    if q.contains(x) && q[0] != x {
        let k = choose|k: int| 0 <= k < q.len() && q[k] == x;
        assert(q.drop_first()[k - 1] == x);
    }
    if q.drop_first().contains(x) {
        let k = choose|k: int| 0 <= k < q.drop_first().len() && q.drop_first()[k] == x;
        assert(q[k + 1] == x);
    }
}

/// A sleeper is not dispatched before it is due: when the thread `id` has no
/// sleep entry due at `now` (or the time cannot be read) and is not ready, a
/// descheduling step or a timer tick neither readies nor selects it, and its
/// sleep entries stay. If `id` is the thread that blocks, the step never lets
/// it keep running: it either switches away or waits.
pub proof fn lemma_sleeper_not_dispatched_early(q: Seq<usize>, sl: Seq<Sleeper>, cur: usize, now: Option<usize>, id: usize)
    requires
        !q.contains(id),
        forall|j: int| 0 <= j < sl.len() && #[trigger] sl[j].0 == id ==> (now is None || now.unwrap() < sl[j].1),
    ensures
        ({
            let (r, q2, s2, c2) = block_step(q, sl, cur, now);
            &&& !q2.contains(id)
            &&& r != Step::Stay || cur != id
            &&& (c2 == id ==> cur == id && r == Step::Wait)
            &&& forall|j: int| 0 <= j < sl.len() && sl[j].0 == id ==> s2.contains(#[trigger] sl[j])
        }),
        cur != id ==> ({
            let (r, q2, s2, c2) = tick(q, sl, cur, now);
            &&& !q2.contains(id)
            &&& c2 != id
            &&& forall|j: int| 0 <= j < sl.len() && sl[j].0 == id ==> s2.contains(#[trigger] sl[j])
        }),
{
    lemma_reconcile_not_due(q, sl, now, id);
    let q1 = reconcile(q, sl, now).0;
    if q1.len() > 0 {
        lemma_drop_first_contains(q1, id);
        lemma_concat_contains(q1.drop_first(), seq![cur], id);
        assert(q1.drop_first().push(cur) =~= q1.drop_first() + seq![cur]);
    }
}

/// Sleeping: a thread that went to sleep at `now` for `ms` milliseconds stays
/// in the sleep list at every time before `now + ms`, and at any time from then
/// on it is moved to the new end of the ready queue, behind the threads ready
/// already. Reconciling never wakes a thread that has no due entry.
pub proof fn lemma_sleep_wakeup(sl: Seq<Sleeper>, id: usize, now: usize, ms: usize, t: usize)
    requires
        now + ms <= usize::MAX,
    ensures
        ({
            let w = (now + ms) as usize;
            let sl2 = sl.push((id, w));
            &&& t < w ==> asleep(sl2, t) == asleep(sl, t).push((id, w))
            &&& t < w ==> awake(sl2, t) == awake(sl, t)
            &&& w <= t ==> awake(sl2, t) == awake(sl, t).push(id)
            &&& w <= t ==> asleep(sl2, t) == asleep(sl, t)
        }),
        forall|x: usize| #[trigger] awake(sl, t).contains(x)
            ==> exists|j: int| 0 <= j < sl.len() && #[trigger] sl[j].0 == x && sl[j].1 <= t,
{
    let w = (now + ms) as usize;
    let sl2 = sl.push((id, w));
    assert(sl2.drop_last() =~= sl);
    assert forall|x: usize| #[trigger] awake(sl, t).contains(x)
        implies exists|j: int| 0 <= j < sl.len() && #[trigger] sl[j].0 == x && sl[j].1 <= t by {
        lemma_awake_only_due(sl, t, x);
    }
}

/// Joining a thread that has exited is refused: `exit` removes the exiting
/// thread's entry, and `join` requires an entry for the thread joined.
pub proof fn lemma_exited_thread_not_joinable(before: Scheduler, after: Scheduler, id: usize)
    requires
        after.joins() == before.joins().remove(id),
    ensures
        !after.joins().contains_key(id),
{
}

/// Exit: after the exiting thread `cur` hands its waiters to the ready queue
/// and is descheduled, every waiter is ready or running, and if `cur` is not
/// among them, not ready and has no sleep entry, the step switches away from it
/// (or waits) and leaves it in no structure.
pub proof fn lemma_exit_wakes_waiters(q: Seq<usize>, waiters: Seq<usize>, sl: Seq<Sleeper>, cur: usize, now: Option<usize>)
    ensures
        ({
            let (r, q2, s2, c2) = block_step(q + waiters, sl, cur, now);
            &&& forall|w: usize| #[trigger] waiters.contains(w) ==> q2.contains(w) || c2 == w
            &&& waiters.len() > 0 ==> r != Step::Wait
            &&& (!q.contains(cur) && !waiters.contains(cur) && (forall|j: int| 0 <= j < sl.len() ==> #[trigger] sl[j].0 != cur))
                ==> (!q2.contains(cur) && r != Step::Stay && (c2 == cur ==> r == Step::Wait)
                    && forall|j: int| 0 <= j < s2.len() ==> #[trigger] s2[j].0 != cur)
        }),
{
    let qa = q + waiters;
    let q1 = reconcile(qa, sl, now).0;
    if let Some(t) = now {
        assert(q1 == qa + awake(sl, t));
        assert forall|w: usize| #[trigger] waiters.contains(w) implies q1.contains(w) by {
            lemma_concat_contains(q, waiters, w);
            lemma_concat_contains(qa, awake(sl, t), w);
        }
    } else {
        assert forall|w: usize| #[trigger] waiters.contains(w) implies q1.contains(w) by {
            lemma_concat_contains(q, waiters, w);
        }
    }
    assert forall|w: usize| #[trigger] waiters.contains(w) implies block_step(qa, sl, cur, now).1.contains(w) || block_step(qa, sl, cur, now).3 == w by {
        lemma_drop_first_contains(q1, w);
    }
    if !q.contains(cur) && !waiters.contains(cur) && (forall|j: int| 0 <= j < sl.len() ==> #[trigger] sl[j].0 != cur) {
        lemma_concat_contains(q, waiters, cur);
        lemma_sleeper_not_dispatched_early(qa, sl, cur, now, cur);
        lemma_gone_thread_stays_gone(qa, sl, cur, now, cur);
    }
}

/// A thread that is not ready, has no sleep entry and does not run stays so
/// through every descheduling step and timer tick: once it has exited, nothing
/// dispatches it again unless it is admitted anew.
pub proof fn lemma_gone_thread_stays_gone(q: Seq<usize>, sl: Seq<Sleeper>, cur: usize, now: Option<usize>, id: usize)
    requires
        !q.contains(id),
        forall|j: int| 0 <= j < sl.len() ==> #[trigger] sl[j].0 != id,
    ensures
        ({
            let (r, q2, s2, c2) = block_step(q, sl, cur, now);
            &&& !q2.contains(id)
            &&& forall|k: int| 0 <= k < s2.len() ==> #[trigger] s2[k].0 != id
            &&& (c2 == id ==> cur == id)
        }),
        cur != id ==> ({
            let (r, q2, s2, c2) = tick(q, sl, cur, now);
            &&& !q2.contains(id)
            &&& forall|k: int| 0 <= k < s2.len() ==> #[trigger] s2[k].0 != id
            &&& c2 != id
        }),
{
    lemma_sleeper_not_dispatched_early(q, sl, cur, now, id);
    lemma_reconcile_not_due(q, sl, now, id);
    let s1 = reconcile(q, sl, now).1;
    assert forall|k: int| 0 <= k < s1.len() implies #[trigger] s1[k].0 != id by {
        assert(sl.contains(s1[k]));
        let j = choose|j: int| 0 <= j < sl.len() && sl[j] == s1[k];
        assert(sl[j].0 != id);
    }
}

} // verus!
