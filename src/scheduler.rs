use vstd::prelude::*;
use std::collections::VecDeque;
use crate::join_map::{
    JoinMap, join_entries, join_map_contains_key, join_map_unique, join_map_insert, join_map_new, join_map_remove,
};

verus! {

/// A sleep-list entry: a thread identifier and the absolute time, in
/// milliseconds, at which it becomes due.
pub type Sleeper = (usize, usize);

/// The identifiers, in list order, of the sleepers due at time `t`.
pub open spec fn awake(sl: Seq<Sleeper>, t: usize) -> Seq<usize>
    decreases sl.len(),
{
    if sl.len() == 0 {
        Seq::empty()
    } else {
        let prev = awake(sl.drop_last(), t);
        if sl.last().1 <= t {
            prev.push(sl.last().0)
        } else {
            prev
        }
    }
}

/// The sleepers, in list order, that are not yet due at time `t`.
pub open spec fn asleep(sl: Seq<Sleeper>, t: usize) -> Seq<Sleeper>
    decreases sl.len(),
{
    if sl.len() == 0 {
        Seq::empty()
    } else {
        let prev = asleep(sl.drop_last(), t);
        if sl.last().1 <= t {
            prev
        } else {
            prev.push(sl.last())
        }
    }
}

/// Ready queue and sleep list after reconciling the sleep list at time `now`
/// (nothing moves when the time could not be read): due sleepers go to the new
/// end of the queue in list order.
pub open spec fn reconcile(q: Seq<usize>, sl: Seq<Sleeper>, now: Option<usize>) -> (Seq<usize>, Seq<Sleeper>) {
    match now {
        Some(t) => (q + awake(sl, t), asleep(sl, t)),
        None => (q, sl),
    }
}

/// A context switch to perform: save the context of `from`, resume `to`.
#[derive(PartialEq, Eq, Structural, Debug, Clone, Copy)]
pub struct ContextSwitch {
    pub from: usize,
    pub to: usize,
}

/// What a descheduling step decided.
#[derive(PartialEq, Eq, Structural, Debug, Clone, Copy)]
pub enum Step {
    /// No thread is ready and none is due yet: try again later.
    Wait,
    /// The calling thread was selected again: it keeps running.
    Stay,
    /// Switch from the calling thread to another one.
    Switch(ContextSwitch),
}

/// One descheduling step of the thread `cur`: reconcile the sleep list at
/// `now`, then take the oldest ready thread. Gives the decision, the ready
/// queue, the sleep list and the current thread afterwards.
pub open spec fn block_step(q: Seq<usize>, sl: Seq<Sleeper>, cur: usize, now: Option<usize>) -> (Step, Seq<usize>, Seq<Sleeper>, usize) {
    let (q1, s1) = reconcile(q, sl, now);
    if q1.len() == 0 {
        (Step::Wait, q1, s1, cur)
    } else if q1[0] == cur {
        (Step::Stay, q1.drop_first(), s1, cur)
    } else {
        (Step::Switch(ContextSwitch { from: cur, to: q1[0] }), q1.drop_first(), s1, q1[0])
    }
}

/// One timer tick while `cur` runs: reconcile the sleep list, then, if a thread
/// is ready, dispatch the oldest one and requeue `cur` at the new end.
pub open spec fn tick(q: Seq<usize>, sl: Seq<Sleeper>, cur: usize, now: Option<usize>) -> (Option<ContextSwitch>, Seq<usize>, Seq<Sleeper>, usize) {
    let (q1, s1) = reconcile(q, sl, now);
    if q1.len() == 0 {
        (None, q1, s1, cur)
    } else {
        (Some(ContextSwitch { from: cur, to: q1[0] }), q1.drop_first().push(cur), s1, q1[0])
    }
}

/// The scheduler of one core: which thread runs, which are ready, which sleep
/// and which wait for another thread's exit. Threads are named by identifier.
pub struct Scheduler {
    current_thread: Option<usize>,
    ready_queue: VecDeque<usize>,
    sleep_list: Vec<Sleeper>,
    join_map: JoinMap,
    initialized: bool,
}

impl Scheduler {
    /// The thread running now, if any has been dispatched.
    pub closed spec fn current(&self) -> Option<usize> {
        self.current_thread
    }

    /// The ready queue, oldest (next to dispatch) first.
    pub closed spec fn queue(&self) -> Seq<usize> {
        self.ready_queue@
    }

    /// The sleep list, in the order of entry.
    pub closed spec fn sleepers(&self) -> Seq<Sleeper> {
        self.sleep_list@
    }

    /// The join map: each admitted thread that has not exited, with its waiters.
    pub closed spec fn joins(&self) -> Map<usize, Seq<usize>> {
        join_entries(self.join_map)
    }

    /// The scheduler's invariant: the join map holds no key twice, so that
    /// removing a thread's entry takes it out for good.
    pub closed spec fn wf(&self) -> bool {
        join_map_unique(self.join_map)
    }

    /// Whether the preemption path may act.
    pub closed spec fn is_initialized(&self) -> bool {
        self.initialized
    }

    /// An empty scheduler: nothing ready, nothing running, not yet live.
    pub fn new() -> (r: Scheduler)
        ensures
            r.wf(),
            r.current() is None,
            r.queue() == Seq::<usize>::empty(),
            r.sleepers() == Seq::<Sleeper>::empty(),
            r.joins().dom() == Set::<usize>::empty(),
            !r.is_initialized(),
    {
        Scheduler {
            current_thread: None,
            ready_queue: VecDeque::new(),
            sleep_list: Vec::new(),
            join_map: join_map_new(),
            initialized: false,
        }
    }

    /// Lets the preemption path act from now on.
    pub fn set_init(&mut self)
        requires
            old(self).wf(),
        ensures
            final(self).wf(),
            final(self).is_initialized(),
            final(self).current() == old(self).current(),
            final(self).queue() == old(self).queue(),
            final(self).sleepers() == old(self).sleepers(),
            final(self).joins() == old(self).joins(),
    {
        self.initialized = true;
    }

    /// The identifier of the running thread.
    pub fn current_thread(&self) -> (r: usize)
        requires
            self.current() is Some,
        ensures
            r == self.current().unwrap(),
    {
        match self.current_thread {
            Some(id) => id,
            None => 0,
        }
    }

    /// The identifier of the running thread, if any has been dispatched.
    pub fn current_id(&self) -> (r: Option<usize>)
        ensures
            r == self.current(),
    {
        self.current_thread
    }

    /// Whether the thread `id` has been admitted and has not exited.
    pub fn has_join_entry(&self, id: usize) -> (r: bool)
        ensures
            r == self.joins().contains_key(id),
    {
        join_map_contains_key(&self.join_map, id)
    }

    /// Admits a new thread: it goes to the new end of the ready queue and gets
    /// an empty list of waiters.
    pub fn ready(&mut self, id: usize)
        requires
            old(self).wf(),
            !old(self).joins().contains_key(id),
        ensures
            final(self).wf(),
            final(self).queue() == old(self).queue().push(id),
            final(self).joins() == old(self).joins().insert(id, Seq::<usize>::empty()),
            final(self).current() == old(self).current(),
            final(self).sleepers() == old(self).sleepers(),
            final(self).is_initialized() == old(self).is_initialized(),
    {
        self.ready_queue.push_back(id);
        let waiters: Vec<usize> = Vec::new();
        let _ = join_map_insert(&mut self.join_map, id, waiters);
    }

    /// Dispatches the first thread: the oldest ready one becomes current and the
    /// preemption path goes live. Returns the thread to activate.
    pub fn start(&mut self) -> (r: usize)
        requires
            old(self).wf(),
            old(self).queue().len() > 0,
        ensures
            final(self).wf(),
            r == old(self).queue()[0],
            final(self).current() == Some(r),
            final(self).queue() == old(self).queue().drop_first(),
            final(self).sleepers() == old(self).sleepers(),
            final(self).joins() == old(self).joins(),
            final(self).is_initialized(),
    {
        let first = self.ready_queue.pop_front();
        let id = match first {
            Some(id) => id,
            None => 0,
        };
        self.current_thread = Some(id);
        self.initialized = true;
        id
    }

    /// Moves every sleeper due at `now` to the new end of the ready queue, in
    /// list order; does nothing when the time could not be read.
    pub fn check_sleep_list(&mut self, now: Option<usize>)
        requires
            old(self).wf(),
        ensures
            final(self).wf(),
            (final(self).queue(), final(self).sleepers()) == reconcile(old(self).queue(), old(self).sleepers(), now),
            final(self).current() == old(self).current(),
            final(self).joins() == old(self).joins(),
            final(self).is_initialized() == old(self).is_initialized(),
    {
        if let Some(t) = now {
            let ghost sl = self.sleep_list@;
            let ghost q0 = self.ready_queue@;
            let mut rest: Vec<Sleeper> = Vec::new();
            let mut i: usize = 0;
            while i < self.sleep_list.len()
                invariant
                    self.sleep_list@ == sl,
                    0 <= i <= sl.len(),
                    self.ready_queue@ == q0 + awake(sl.take(i as int), t),
                    rest@ == asleep(sl.take(i as int), t),
                    self.current_thread == old(self).current_thread,
                    self.join_map == old(self).join_map,
                    self.initialized == old(self).initialized,
                decreases sl.len() - i,
            {
                let e = self.sleep_list[i];
                assert(sl.take(i + 1).drop_last() =~= sl.take(i as int));
                assert(sl.take(i + 1).last() == e);
                if e.1 <= t {
                    self.ready_queue.push_back(e.0);
                    assert(self.ready_queue@ =~= q0 + awake(sl.take(i + 1), t));
                } else {
                    rest.push(e);
                }
                i = i + 1;
            }
            assert(sl.take(sl.len() as int) =~= sl);
            self.sleep_list = rest;
        }
    }
    /// One descheduling step of the running thread: due sleepers move to the
    /// ready queue, then the oldest ready thread becomes current. `Wait` leaves
    /// the caller current: the step is to be repeated (with a later time) until
    /// it yields `Stay` or `Switch`.
    pub fn block(&mut self, now: Option<usize>) -> (r: Step)
        requires
            old(self).wf(),
            old(self).current() is Some,
        ensures
            final(self).wf(),
            final(self).current() is Some,
            (r, final(self).queue(), final(self).sleepers(), final(self).current().unwrap())
                == block_step(old(self).queue(), old(self).sleepers(), old(self).current().unwrap(), now),
            final(self).joins() == old(self).joins(),
            final(self).is_initialized() == old(self).is_initialized(),
    {
        let cur = self.current_thread();
        self.check_sleep_list(now);
        match self.ready_queue.pop_front() {
            None => Step::Wait,
            Some(next) => {
                self.current_thread = Some(next);
                if next == cur {
                    Step::Stay
                } else {
                    Step::Switch(ContextSwitch { from: cur, to: next })
                }
            },
        }
    }

    /// The running thread sleeps for `ms` milliseconds from `now`: it enters the
    /// sleep list with wakeup time `now + ms`, then is descheduled.
    pub fn sleep(&mut self, ms: usize, now: usize) -> (r: Step)
        requires
            old(self).wf(),
            old(self).current() is Some,
            now + ms <= usize::MAX,
        ensures
            final(self).wf(),
            final(self).current() is Some,
            (r, final(self).queue(), final(self).sleepers(), final(self).current().unwrap())
                == block_step(
                old(self).queue(),
                old(self).sleepers().push((old(self).current().unwrap(), (now + ms) as usize)),
                old(self).current().unwrap(),
                Some(now),
            ),
            final(self).joins() == old(self).joins(),
            final(self).is_initialized() == old(self).is_initialized(),
    {
        let cur = self.current_thread();
        self.sleep_list.push((cur, now + ms));
        self.block(Some(now))
    }

    /// The running thread waits for the exit of thread `id`: it joins the end of
    /// that thread's waiters, then is descheduled.
    pub fn join(&mut self, id: usize, now: Option<usize>) -> (r: Step)
        requires
            old(self).wf(),
            old(self).current() is Some,
            old(self).joins().contains_key(id),
        ensures
            final(self).wf(),
            final(self).current() is Some,
            final(self).joins() == old(self).joins().insert(
                id,
                old(self).joins()[id].push(old(self).current().unwrap()),
            ),
            (r, final(self).queue(), final(self).sleepers(), final(self).current().unwrap())
                == block_step(old(self).queue(), old(self).sleepers(), old(self).current().unwrap(), now),
            final(self).is_initialized() == old(self).is_initialized(),
    {
        let cur = self.current_thread();
        let ghost j0 = join_entries(self.join_map);
        match join_map_remove(&mut self.join_map, id) {
            Some(waiters) => {
                let mut waiters = waiters;
                waiters.push(cur);
                let _ = join_map_insert(&mut self.join_map, id, waiters);
                assert(j0.remove(id).insert(id, j0[id].push(cur)) =~= j0.insert(id, j0[id].push(cur)));
            },
            None => {},
        }
        self.block(now)
    }

    /// The running thread exits: its waiters go to the new end of the ready
    /// queue in the order in which they started waiting, its join-map entry is
    /// removed, and it is descheduled for good.
    pub fn exit(&mut self, now: Option<usize>) -> (r: Step)
        requires
            old(self).wf(),
            old(self).current() is Some,
            old(self).joins().contains_key(old(self).current().unwrap()),
        ensures
            final(self).wf(),
            final(self).current() is Some,
            final(self).joins() == old(self).joins().remove(old(self).current().unwrap()),
            (r, final(self).queue(), final(self).sleepers(), final(self).current().unwrap())
                == block_step(
                old(self).queue() + old(self).joins()[old(self).current().unwrap()],
                old(self).sleepers(),
                old(self).current().unwrap(),
                now,
            ),
            final(self).is_initialized() == old(self).is_initialized(),
    {
        let cur = self.current_thread();
        let ghost q0 = self.ready_queue@;
        match join_map_remove(&mut self.join_map, cur) {
            Some(waiters) => {
                let ghost jm = self.join_map;
                let mut i: usize = 0;
                while i < waiters.len()
                    invariant
                        0 <= i <= waiters@.len(),
                        self.ready_queue@ == q0 + waiters@.take(i as int),
                        self.current_thread == old(self).current_thread,
                        self.sleep_list@ == old(self).sleep_list@,
                        self.join_map == jm,
                        self.initialized == old(self).initialized,
                    decreases waiters@.len() - i,
                {
                    self.ready_queue.push_back(waiters[i]);
                    assert(waiters@.take(i + 1) =~= waiters@.take(i as int).push(waiters@[i as int]));
                    i = i + 1;
                }
                assert(waiters@.take(waiters@.len() as int) =~= waiters@);
            },
            None => {},
        }
        self.block(now)
    }

    /// A timer tick. Before the scheduler is live, or while no thread runs, it
    /// does nothing. Otherwise it reconciles the sleep list at `now` and, if a
    /// thread is ready, dispatches the oldest one and requeues the running
    /// thread at the new end; the switch to perform is returned.
    pub fn switch_thread(&mut self, now: Option<usize>) -> (r: Option<ContextSwitch>)
        requires
            old(self).wf(),
        ensures
            final(self).wf(),
            !old(self).is_initialized() || old(self).current() is None ==> {
                &&& r is None
                &&& final(self).current() == old(self).current()
                &&& final(self).queue() == old(self).queue()
                &&& final(self).sleepers() == old(self).sleepers()
            },
            old(self).is_initialized() && old(self).current() is Some ==> {
                &&& final(self).current() is Some
                &&& (r, final(self).queue(), final(self).sleepers(), final(self).current().unwrap())
                    == tick(old(self).queue(), old(self).sleepers(), old(self).current().unwrap(), now)
            },
            final(self).joins() == old(self).joins(),
            final(self).is_initialized() == old(self).is_initialized(),
    {
        if !self.initialized {
            return None;
        }
        let cur = match self.current_thread {
            Some(cur) => cur,
            None => {
                return None;
            },
        };
        self.check_sleep_list(now);
        match self.ready_queue.pop_front() {
            None => None,
            Some(next) => {
                self.current_thread = Some(next);
                self.ready_queue.push_back(cur);
                Some(ContextSwitch { from: cur, to: next })
            },
        }
    }
    /// Whether the preemption path may act.
    pub fn initialized(&self) -> (r: bool)
        ensures
            r == self.is_initialized(),
    {
        self.initialized
    }

    /// The identifiers in the ready queue, oldest first.
    pub fn ready_threads(&self) -> (r: Vec<usize>)
        ensures
            r@ == self.queue(),
    {
        let mut r: Vec<usize> = Vec::new();
        let mut i: usize = 0;
        while i < self.ready_queue.len()
            invariant
                0 <= i <= self.ready_queue@.len(),
                r@ == self.ready_queue@.take(i as int),
            decreases self.ready_queue@.len() - i,
        {
            r.push(self.ready_queue[i]);
            assert(self.ready_queue@.take(i + 1) =~= self.ready_queue@.take(i as int).push(self.ready_queue@[i as int]));
            i = i + 1;
        }
        assert(self.ready_queue@.take(i as int) =~= self.ready_queue@);
        r
    }

    /// The sleep list, in the order of entry.
    pub fn sleeping_threads(&self) -> (r: Vec<Sleeper>)
        ensures
            r@ == self.sleepers(),
    {
        let mut r: Vec<Sleeper> = Vec::new();
        let mut i: usize = 0;
        while i < self.sleep_list.len()
            invariant
                0 <= i <= self.sleep_list@.len(),
                r@ == self.sleep_list@.take(i as int),
            decreases self.sleep_list@.len() - i,
        {
            r.push(self.sleep_list[i]);
            assert(self.sleep_list@.take(i + 1) =~= self.sleep_list@.take(i as int).push(self.sleep_list@[i as int]));
            i = i + 1;
        }
        assert(self.sleep_list@.take(i as int) =~= self.sleep_list@);
        r
    }
}

} // verus!
