use vstd::prelude::*;

use crate::future::{Either, Future, Never, Select};
use crate::poll::Poll;
use crate::stream::{StableInfiniteStream, Stream};
use crate::waker::EmbrioWaker;

verus! {

/// A hardware timer: a counter that counts ticks up to a compare value,
/// raises its compare event there and starts again from zero. A tick is one
/// period of the counter's clock (one microsecond for a 1 MHz timer), and
/// durations are given in ticks.
///
/// A compare value of zero raises the event on the first tick after the start:
/// the event never stands at the start itself.
#[derive(Debug, PartialEq, Eq, Structural)]
pub struct Timer {
    pub compare: u32,
    pub elapsed: u32,
    pub event: bool,
    pub running: bool,
}

impl Timer {
    pub open spec fn wf(&self) -> bool {
        self.elapsed == 0 || self.elapsed < self.compare
    }

    /// The timer after one tick of its counter.
    pub open spec fn ticked(self) -> Timer {
        if !self.running {
            self
        } else if self.elapsed as int + 1 >= self.compare {
            Timer { elapsed: 0, event: true, ..self }
        } else {
            Timer { elapsed: (self.elapsed + 1) as u32, ..self }
        }
    }

    /// The timer after `n` ticks.
    pub open spec fn ticked_n(self, n: nat) -> Timer
        decreases n,
    {
        if n == 0 {
            self
        } else {
            self.ticked().ticked_n((n - 1) as nat)
        }
    }

    /// The number of ticks from a start to the first compare event.
    pub open spec fn period(&self) -> nat {
        if self.compare == 0 {
            1
        } else {
            self.compare as nat
        }
    }

    /// The timer, stopped.
    pub fn new() -> (r: Timer)
        ensures
            r.wf(),
            !r.running,
            !r.event,
    {
        Timer { compare: 0, elapsed: 0, event: false, running: false }
    }

    /// Clears the counter and the compare event, sets the compare value and
    /// starts counting.
    fn start(&mut self, duration: u32)
        ensures
            *final(self) == (Timer { compare: duration, elapsed: 0, event: false, running: true }),
    {
        self.compare = duration;
        self.elapsed = 0;
        self.event = false;
        self.running = true;
    }

    /// The timer's interrupt handler: it signals the token, so that the
    /// driver advances the computation waiting on the timer.
    pub fn interrupt(&self, waker: &mut EmbrioWaker)
        ensures
            *final(waker) == old(waker).signalled(),
            final(waker).is_signalled(),
    {
        waker.wake();
    }

    /// One tick of the counter. When it raises the compare event, the
    /// timer's interrupt runs.
    pub fn tick(&mut self, waker: &mut EmbrioWaker)
        requires
            old(self).wf(),
        ensures
            final(self).wf(),
            *final(self) == old(self).ticked(),
            final(self).event && !old(self).event ==> final(waker).is_signalled(),
            !(final(self).event && !old(self).event) ==> *final(waker) == *old(waker),
            old(waker).is_signalled() ==> final(waker).is_signalled(),
    {
        if self.running {
            if self.elapsed as u64 + 1 >= self.compare as u64 {
                self.elapsed = 0;
                if !self.event {
                    self.event = true;
                    self.interrupt(waker);
                }
            } else {
                self.elapsed = self.elapsed + 1;
            }
        }
    }

    /// A computation that completes on the first compare event after
    /// `duration` ticks (clock periods), and hands the timer back.
    pub fn timeout(self, duration: u32) -> (r: Timeout)
        ensures
            r.wf(),
            !r.is_terminated(),
            r.timer() == Some(Timer { compare: duration, elapsed: 0, event: false, running: true }),
            r.immediate() is None,
    {
        let mut timer = self;
        timer.start(duration);
        Timeout { timer: Some(timer) }
    }

    /// A stream that yields once for each compare event, every `duration`
    /// ticks.
    pub fn interval(self, duration: u32) -> (r: Interval)
        ensures
            r.wf(),
            !r.is_terminated(),
            r.timer == (Timer { compare: duration, elapsed: 0, event: false, running: true }),
            r.next() is None,
    {
        let mut timer = self;
        timer.start(duration);
        Interval { timer }
    }
}

/// The timer after its compare event has been taken.
pub open spec fn event_taken(t: Timer) -> Timer {
    Timer { event: false, ..t }
}

/// Waits for the compare event of a started timer.
#[derive(Debug)]
pub struct Timeout {
    pub timer: Option<Timer>,
}

impl Timeout {
    /// The timer while the wait is on; `None` once it has been handed back.
    pub open spec fn timer(&self) -> Option<Timer> {
        self.timer
    }

    /// One tick of the timer that this computation waits on.
    pub fn tick(&mut self, waker: &mut EmbrioWaker)
        requires
            old(self).wf(),
        ensures
            final(self).wf(),
            final(self).timer() == match old(self).timer() {
                Some(t) => Some(t.ticked()),
                None => None,
            },
            match old(self).timer() {
                Some(t) => t.ticked().event && !t.event ==> final(waker).is_signalled(),
                None => true,
            },
            old(waker).is_signalled() ==> final(waker).is_signalled(),
    {
        match self.timer.as_mut() {
            Some(t) => t.tick(waker),
            None => {},
        }
    }
}

impl Future for Timeout {
    type Output = Timer;

    open spec fn wf(&self) -> bool {
        match self.timer() {
            Some(t) => t.wf() && t.running,
            None => true,
        }
    }

    open spec fn is_terminated(&self) -> bool {
        self.timer() is None
    }

    open spec fn immediate(&self) -> Option<Timer> {
        match self.timer() {
            Some(t) => if t.event {
                Some(event_taken(t))
            } else {
                None
            },
            None => None,
        }
    }

    open spec fn after_poll(&self) -> Timeout {
        if self.immediate() is Some {
            Timeout { timer: None }
        } else {
            *self
        }
    }

    open spec fn wakes(&self) -> bool {
        false
    }

    fn poll(&mut self, waker: &mut EmbrioWaker) -> (r: Poll<Timer>) {
        let fired = match &self.timer {
            Some(t) => t.event,
            None => false,
        };
        if fired {
            let mut t = self.timer.take().unwrap();
            t.event = false;
            Poll::Ready(t)
        } else {
            Poll::Pending
        }
    }
}

/// Yields once for each compare event of a started timer; never ends.
#[derive(Debug)]
pub struct Interval {
    pub timer: Timer,
}

impl Interval {
    /// One tick of the timer behind this stream.
    pub fn tick(&mut self, waker: &mut EmbrioWaker)
        requires
            old(self).wf(),
        ensures
            final(self).wf(),
            final(self).timer == old(self).timer.ticked(),
            old(self).timer.ticked().event && !old(self).timer.event ==> final(waker).is_signalled(),
            old(waker).is_signalled() ==> final(waker).is_signalled(),
    {
        self.timer.tick(waker);
    }
}

impl Stream for Interval {
    type Item = ();

    open spec fn wf(&self) -> bool {
        self.timer.wf() && self.timer.running
    }

    open spec fn is_terminated(&self) -> bool {
        false
    }

    open spec fn next(&self) -> Option<Option<()>> {
        if self.timer.event {
            Some(Some(()))
        } else {
            None
        }
    }

    open spec fn after_next(&self) -> Interval {
        Interval { timer: event_taken(self.timer) }
    }

    /// One item when the compare event stands, none otherwise.
    open spec fn rank(&self) -> nat {
        if self.timer.event {
            1
        } else {
            0
        }
    }

    proof fn lemma_step(&self) {
    }

    fn poll_next(&mut self, waker: &mut EmbrioWaker) -> (r: Poll<Option<()>>) {
        if self.timer.event {
            self.timer.event = false;
            Poll::Ready(Some(()))
        } else {
            Poll::Pending
        }
    }
}

impl StableInfiniteStream for Interval {
    proof fn lemma_never_ends(&self) {
    }
}

/// Once raised, the compare event stays until it is taken.
proof fn lemma_event_stays(t: Timer, n: nat)
    requires
        t.event,
    ensures
        t.ticked_n(n).event,
    decreases n,
{
    if n > 0 {
        lemma_event_stays(t.ticked(), (n - 1) as nat);
    }
}

/// A running timer with no event counts up to its period and raises the
/// event there.
proof fn lemma_ticks_from(t: Timer, n: nat)
    requires
        t.wf(),
        t.running,
        !t.event,
        t.elapsed < t.period(),
    ensures
        t.elapsed + n < t.period() ==> t.ticked_n(n) == (Timer { elapsed: (t.elapsed + n) as u32, ..t }),
        t.elapsed + n >= t.period() ==> t.ticked_n(n).event,
    decreases n,
{
    if n > 0 {
        let u = t.ticked();
        if t.elapsed + 1 >= t.period() {
            assert(u.event);
            lemma_event_stays(u, (n - 1) as nat);
        } else {
            lemma_ticks_from(u, (n - 1) as nat);
        }
    }
}

/// A timer started with `duration` raises its compare event after exactly
/// `period` ticks (one tick for a duration of zero) and not before.
pub proof fn lemma_timer_fires_after_period(duration: u32, n: nat)
    ensures
        ({
            let t = Timer { compare: duration, elapsed: 0, event: false, running: true };
            &&& n < t.period() ==> !t.ticked_n(n).event
            &&& n >= t.period() ==> t.ticked_n(n).event
        }),
{
    let t = Timer { compare: duration, elapsed: 0, event: false, running: true };
    lemma_ticks_from(t, n);
}

/// A wait on a timer started with a duration of zero does not complete on its
/// first advance; one tick raises the compare event and signals the token,
/// and the next advance completes.
pub proof fn lemma_zero_timeout_suspends_once()
    ensures
        ({
            let t = Timer { compare: 0, elapsed: 0, event: false, running: true };
            &&& !t.event
            &&& t.ticked().event
            &&& t.period() == 1
        }),
{
}

/// A race of a computation that never completes against a wait on a timer
/// started with `duration`, after `n` ticks of that timer: it never
/// completes with the left branch; it is still suspended before the timer's
/// period has elapsed, and completes with the timeout branch on the first
/// advance after it has.
pub proof fn lemma_race_against_timeout<T>(s: Select<Never<T>, Timeout>, duration: u32, n: nat)
    requires
        s.right.timer() == Some(
            Timer { compare: duration, elapsed: 0, event: false, running: true }.ticked_n(n),
        ),
    ensures
        ({
            let t = Timer { compare: duration, elapsed: 0, event: false, running: true };
            &&& !(s.immediate() matches Some(Either::Left(_)))
            &&& n < t.period() ==> s.immediate() is None
            &&& n >= t.period() ==> s.immediate() == Some(
                Either::<T, Timer>::Right(event_taken(t.ticked_n(n))),
            )
        }),
{
    lemma_timer_fires_after_period(duration, n);
}

} // verus!
