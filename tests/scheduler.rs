use kernel_sched::scheduler::{ContextSwitch, Scheduler, Step};
use kernel_sched::thread_id::{next_thread_id, ThreadIdCounter};

const A: usize = 1;
const B: usize = 2;
const C: usize = 3;
const IDLE: usize = 9;

#[test]
fn thread_ids_start_at_one_and_grow() {
    let mut counter = ThreadIdCounter::new();
    assert_eq!(next_thread_id(&mut counter), 1);
    assert_eq!(next_thread_id(&mut counter), 2);
    assert_eq!(next_thread_id(&mut counter), 3);
    assert_eq!(counter.last, 3);
}

#[test]
fn thread_ids_reach_the_largest_value() {
    let mut counter = ThreadIdCounter { last: usize::MAX - 2 };
    assert_eq!(next_thread_id(&mut counter), usize::MAX - 1);
    assert_eq!(next_thread_id(&mut counter), usize::MAX);
    assert_eq!(counter.last, usize::MAX);
}

#[test]
fn new_scheduler_is_empty_and_not_live() {
    let s = Scheduler::new();
    assert!(!s.initialized());
    assert!(s.ready_threads().is_empty());
    assert!(s.sleeping_threads().is_empty());
    assert!(!s.has_join_entry(A));
}

#[test]
fn start_dispatches_first_ready_thread() {
    let mut s = Scheduler::new();
    s.ready(C);
    s.ready(A);
    s.ready(B);
    assert_eq!(s.ready_threads(), vec![C, A, B]);
    assert_eq!(s.start(), C);
    assert_eq!(s.current_thread(), C);
    assert!(s.initialized());
    assert_eq!(s.ready_threads(), vec![A, B]);
}

#[test]
fn tick_before_start_does_nothing() {
    let mut s = Scheduler::new();
    s.ready(A);
    s.ready(B);
    assert_eq!(s.switch_thread(Some(0)), None);
    assert_eq!(s.ready_threads(), vec![A, B]);
    s.set_init();
    assert!(s.initialized());
    assert_eq!(s.switch_thread(Some(0)), None);
    assert_eq!(s.ready_threads(), vec![A, B]);
}

#[test]
fn two_threads_alternate_on_ticks() {
    let mut s = Scheduler::new();
    s.ready(A);
    s.ready(B);
    assert_eq!(s.start(), A);
    assert_eq!(s.switch_thread(Some(10)), Some(ContextSwitch { from: A, to: B }));
    assert_eq!(s.current_thread(), B);
    assert_eq!(s.ready_threads(), vec![A]);
    assert_eq!(s.switch_thread(Some(20)), Some(ContextSwitch { from: B, to: A }));
    assert_eq!(s.current_thread(), A);
    assert_eq!(s.ready_threads(), vec![B]);
}

#[test]
fn single_thread_keeps_running_on_tick() {
    let mut s = Scheduler::new();
    s.ready(A);
    assert_eq!(s.start(), A);
    assert_eq!(s.switch_thread(Some(5)), None);
    assert_eq!(s.current_thread(), A);
    assert!(s.ready_threads().is_empty());
}

#[test]
fn round_robin_runs_each_thread_once_per_rotation() {
    let mut s = Scheduler::new();
    for id in [A, B, C, IDLE] {
        s.ready(id);
    }
    let mut order = vec![s.start()];
    for t in 0..7 {
        let sw = s.switch_thread(Some(t)).unwrap();
        assert_eq!(sw.from, order[order.len() - 1]);
        order.push(sw.to);
    }
    assert_eq!(order, vec![A, B, C, IDLE, A, B, C, IDLE]);
}

#[test]
fn sleeper_wakes_only_when_due() {
    let mut s = Scheduler::new();
    s.ready(A);
    s.ready(IDLE);
    assert_eq!(s.start(), A);
    assert_eq!(s.sleep(50, 100), Step::Switch(ContextSwitch { from: A, to: IDLE }));
    assert_eq!(s.sleeping_threads(), vec![(A, 150)]);
    assert!(s.ready_threads().is_empty());

    assert_eq!(s.switch_thread(Some(140)), None);
    assert_eq!(s.sleeping_threads(), vec![(A, 150)]);
    assert_eq!(s.current_thread(), IDLE);

    assert_eq!(s.switch_thread(Some(150)), Some(ContextSwitch { from: IDLE, to: A }));
    assert!(s.sleeping_threads().is_empty());
    assert_eq!(s.current_thread(), A);
    assert_eq!(s.ready_threads(), vec![IDLE]);
}

#[test]
fn woken_sleeper_queues_behind_ready_threads() {
    let mut s = Scheduler::new();
    s.ready(A);
    s.ready(B);
    s.ready(C);
    assert_eq!(s.start(), A);
    assert_eq!(s.sleep(10, 0), Step::Switch(ContextSwitch { from: A, to: B }));
    assert_eq!(s.switch_thread(Some(10)), Some(ContextSwitch { from: B, to: C }));
    assert_eq!(s.ready_threads(), vec![A, B]);
}

#[test]
fn timer_unavailable_skips_reconciliation() {
    let mut s = Scheduler::new();
    s.ready(A);
    s.ready(IDLE);
    s.start();
    s.sleep(5, 0);
    assert_eq!(s.switch_thread(None), None);
    assert_eq!(s.sleeping_threads(), vec![(A, 5)]);
    s.check_sleep_list(Some(4));
    assert_eq!(s.sleeping_threads(), vec![(A, 5)]);
    s.check_sleep_list(Some(5));
    assert!(s.sleeping_threads().is_empty());
    assert_eq!(s.ready_threads(), vec![A]);
}

#[test]
fn block_waits_until_a_sleeper_is_due() {
    let mut s = Scheduler::new();
    s.ready(A);
    s.start();
    assert_eq!(s.sleep(30, 0), Step::Wait);
    assert_eq!(s.block(Some(29)), Step::Wait);
    assert_eq!(s.block(None), Step::Wait);
    assert_eq!(s.block(Some(30)), Step::Stay);
    assert_eq!(s.current_thread(), A);
    assert!(s.sleeping_threads().is_empty());
}

#[test]
fn join_waits_for_exit_of_ready_thread() {
    let mut s = Scheduler::new();
    s.ready(A);
    s.ready(B);
    assert_eq!(s.start(), A);
    assert_eq!(s.join(B, Some(0)), Step::Switch(ContextSwitch { from: A, to: B }));
    assert!(s.ready_threads().is_empty());
    assert_eq!(s.current_thread(), B);
    assert_eq!(s.exit(Some(1)), Step::Switch(ContextSwitch { from: B, to: A }));
    assert_eq!(s.current_thread(), A);
    assert!(!s.has_join_entry(B));
    assert!(s.has_join_entry(A));
}

#[test]
fn join_entry_exists_from_ready_until_exit() {
    let mut s = Scheduler::new();
    assert!(!s.has_join_entry(A));
    s.ready(A);
    s.ready(B);
    assert!(s.has_join_entry(A));
    assert!(s.has_join_entry(B));
    s.start();
    s.switch_thread(Some(0));
    assert!(s.has_join_entry(A));
    s.exit(Some(0));
    assert!(!s.has_join_entry(B));
    assert!(s.has_join_entry(A));
}

#[test]
fn exit_readies_all_waiters_in_order() {
    let mut s = Scheduler::new();
    s.ready(A);
    s.ready(B);
    s.ready(C);
    s.ready(IDLE);
    assert_eq!(s.start(), A);
    assert_eq!(s.join(IDLE, Some(0)), Step::Switch(ContextSwitch { from: A, to: B }));
    assert_eq!(s.join(IDLE, Some(0)), Step::Switch(ContextSwitch { from: B, to: C }));
    assert_eq!(s.join(IDLE, Some(0)), Step::Switch(ContextSwitch { from: C, to: IDLE }));
    assert!(s.ready_threads().is_empty());
    assert_eq!(s.exit(Some(0)), Step::Switch(ContextSwitch { from: IDLE, to: A }));
    assert_eq!(s.ready_threads(), vec![B, C]);
    assert!(!s.has_join_entry(IDLE));
    assert_eq!(s.switch_thread(Some(0)), Some(ContextSwitch { from: A, to: B }));
    assert_eq!(s.switch_thread(Some(0)), Some(ContextSwitch { from: B, to: C }));
    assert_eq!(s.switch_thread(Some(0)), Some(ContextSwitch { from: C, to: A }));
    assert_eq!(s.ready_threads(), vec![B, C]);
}

#[test]
fn exited_thread_cannot_be_joined() {
    let mut s = Scheduler::new();
    s.ready(A);
    s.ready(B);
    s.start();
    s.exit(Some(0));
    assert_eq!(s.current_thread(), B);
    assert!(!s.has_join_entry(A));
}

#[test]
fn exiting_last_thread_leaves_nothing_to_run() {
    let mut s = Scheduler::new();
    s.ready(A);
    s.start();
    assert_eq!(s.exit(Some(0)), Step::Wait);
    assert!(s.ready_threads().is_empty());
    assert!(!s.has_join_entry(A));
}

#[test]
fn block_wakes_due_sleepers_before_choosing() {
    let mut s = Scheduler::new();
    s.ready(A);
    s.ready(B);
    s.ready(C);
    assert_eq!(s.start(), A);
    assert_eq!(s.sleep(10, 0), Step::Switch(ContextSwitch { from: A, to: B }));
    assert_eq!(s.ready_threads(), vec![C]);
    assert_eq!(s.block(Some(10)), Step::Switch(ContextSwitch { from: B, to: C }));
    assert!(s.sleeping_threads().is_empty());
    assert_eq!(s.ready_threads(), vec![A]);
}

#[test]
fn sleep_of_zero_keeps_running_when_nothing_else_is_ready() {
    let mut s = Scheduler::new();
    s.ready(A);
    s.start();
    assert_eq!(s.sleep(0, 7), Step::Stay);
    assert_eq!(s.current_thread(), A);
    assert!(s.sleeping_threads().is_empty());
}

#[test]
fn join_entries_with_colliding_ids_leave_for_good() {
    let mut s = Scheduler::new();
    s.ready(1);
    s.ready(257);
    s.ready(513);
    assert_eq!(s.start(), 1);
    assert_eq!(s.exit(Some(0)), Step::Switch(ContextSwitch { from: 1, to: 257 }));
    assert!(!s.has_join_entry(1));
    assert_eq!(s.join(513, Some(0)), Step::Switch(ContextSwitch { from: 257, to: 513 }));
    assert!(s.has_join_entry(257));
    assert_eq!(s.exit(Some(0)), Step::Switch(ContextSwitch { from: 513, to: 257 }));
    assert!(!s.has_join_entry(513));
    assert_eq!(s.exit(Some(0)), Step::Wait);
    assert!(!s.has_join_entry(257));
    assert!(!s.has_join_entry(1));
}
