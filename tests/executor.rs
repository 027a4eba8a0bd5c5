use embrio::future::{never, pending_once, ready_with, select, chain, Either, Future};
use embrio::spawn::{NoSpawn, SpawnError};
use embrio::timer::Timer;
use embrio::{join, EmbrioWaker, Executor, Poll};

/// Runs `f` to completion, counting the advances it takes.
fn run<F: Future>(exec: &mut Executor, mut f: F) -> (F::Output, usize) {
    let mut advances = 0;
    loop {
        advances += 1;
        if let Poll::Ready(v) = exec.poll_root(&mut f) {
            return (v, advances);
        }
        while !exec.wake_check() {}
    }
}

#[test]
fn block_on_ready_with_five() {
    let mut exec = Executor::new();
    let (v, advances) = run(&mut exec, ready_with(5));
    assert_eq!(v, 5);
    assert_eq!(advances, 1);
}

#[test]
fn resolvable_chain_completes_in_one_pass() {
    let mut exec = Executor::new();
    let f = chain(join(ready_with(1u8), ready_with(2u16)), chain(ready_with('a'), ready_with(true)));
    let (v, advances) = run(&mut exec, f);
    assert_eq!(v, ((1, 2), ('a', true)));
    assert_eq!(advances, 1);
}

#[test]
fn pending_once_needs_a_second_pass() {
    let mut exec = Executor::new();
    let (v, advances) = run(&mut exec, pending_once(ready_with(5)));
    assert_eq!(v, 5);
    assert_eq!(advances, 2);
}

#[test]
fn join_waits_for_both() {
    let mut exec = Executor::new();
    let (v, advances) = run(&mut exec, join(pending_once(ready_with(1)), pending_once(pending_once(ready_with(2)))));
    assert_eq!(v, (1, 2));
    assert_eq!(advances, 3);
}

#[test]
fn select_takes_left_on_tie() {
    let mut exec = Executor::new();
    let (v, _) = run(&mut exec, select(ready_with(1), ready_with(2)));
    assert_eq!(v, Either::Left(1));
    let (v, _) = run(&mut exec, select(pending_once(ready_with(1)), ready_with(2)));
    assert_eq!(v, Either::Right(2));
}

#[test]
fn signal_then_test_and_clear_is_edge_triggered() {
    let mut w = EmbrioWaker::new();
    assert!(!w.test_and_clear());
    w.wake();
    w.wake();
    assert!(w.test_and_clear());
    assert!(!w.test_and_clear());
    assert!(!w.test_and_clear());
    w.wake();
    assert!(w.test_and_clear());
}

#[test]
fn spurious_wake_keeps_executor_parked() {
    let mut exec = Executor::new();
    let mut f = never::<u8>();
    assert_eq!(exec.poll_root(&mut f), Poll::Pending);
    assert!(!exec.wake_check());
    assert!(!exec.wake_check());
    exec.wake();
    assert!(exec.wake_check());
    assert_eq!(exec.poll_root(&mut f), Poll::Pending);
}

#[test]
fn zero_timeout_suspends_until_first_compare_event() {
    let mut exec = Executor::new();
    let mut t = Timer::new().timeout(0);
    assert_eq!(exec.poll_root(&mut t), Poll::Pending);
    assert!(!exec.wake_check());
    t.tick(exec.waker());
    assert!(exec.wake_check());
    match exec.poll_root(&mut t) {
        Poll::Ready(timer) => {
            assert!(!timer.event);
            assert_eq!(timer.compare, 0);
        },
        Poll::Pending => panic!("timeout did not complete after its compare event"),
    }
}

#[test]
fn race_against_timeout_completes_with_timeout() {
    let mut exec = Executor::new();
    let mut race = select(never::<u32>(), Timer::new().timeout(3));
    assert_eq!(exec.poll_root(&mut race), Poll::Pending);
    for _ in 0..2 {
        race.right.tick(exec.waker());
        assert!(!exec.wake_check());
    }
    race.right.tick(exec.waker());
    assert!(exec.wake_check());
    match exec.poll_root(&mut race) {
        Poll::Ready(Either::Right(timer)) => assert_eq!(timer.compare, 3),
        _ => panic!("race did not complete with the timeout"),
    }
}

#[test]
fn no_spawn_rejects() {
    let mut s = NoSpawn;
    assert_eq!(s.spawn_obj(ready_with(1)), Err(SpawnError::Shutdown));
}

#[test]
fn timer_interrupt_signals_token() {
    let mut w = EmbrioWaker::new();
    let t = Timer::new();
    t.interrupt(&mut w);
    assert!(w.test_and_clear());
}

#[test]
fn join_keeps_finished_side_across_advances() {
    let mut w = EmbrioWaker::new();
    let mut f = join(ready_with(1), pending_once(ready_with(2)));
    assert_eq!(f.poll(&mut w), Poll::Pending);
    assert_eq!(f.left_result, Some(1));
    assert!(f.left.value.is_none());
    assert!(w.test_and_clear());
    assert_eq!(f.poll(&mut w), Poll::Ready((1, 2)));
}

#[test]
fn select_leaves_right_alone_when_left_completes() {
    let mut w = EmbrioWaker::new();
    let mut f = select(ready_with(1), pending_once(ready_with(2)));
    assert_eq!(f.poll(&mut w), Poll::Ready(Either::Left(1)));
    assert!(!f.right.polled);
    assert!(!w.test_and_clear());
}
