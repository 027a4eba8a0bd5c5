use vstd::prelude::*;

use crate::future::{poll_of, Future};
use crate::poll::Poll;
use crate::waker::EmbrioWaker;

verus! {

/// The decisions of the driver loop, which owns the notification token.
///
/// The loop that runs a root computation to completion goes:
/// `poll_root`; on `Ready` it returns the value; on `Pending` it waits in
/// low-power mode and calls `wake_check` after each wake-up, advancing the
/// root again only once that returns `true`. A spurious wake-up (`false`)
/// means wait again. The executor is parked between a suspension and a
/// successful `wake_check`, and the root cannot be advanced while it is
/// parked: advancing without waiting for a notification is ruled out.
#[derive(Debug)]
pub struct Executor {
    waker: EmbrioWaker,
    parked: bool,
}

impl Executor {
    /// The notification token.
    pub closed spec fn token(&self) -> EmbrioWaker {
        self.waker
    }

    /// The root computation suspended and no notification has been taken
    /// since.
    pub closed spec fn is_parked(&self) -> bool {
        self.parked
    }

    /// An executor with a clear token, ready to advance a root computation.
    pub fn new() -> (r: Executor)
        ensures
            !r.is_parked(),
            !r.token().is_signalled(),
    {
        Executor { waker: EmbrioWaker::new(), parked: false }
    }

    /// Advances the root computation once, with this executor's token.
    ///
    /// A root that is resolvable without suspension completes here, on the
    /// first advance, with the value it would produce.
    pub fn poll_root<F: Future>(&mut self, root: &mut F) -> (r: Poll<F::Output>)
        requires
            !old(self).is_parked(),
            old(root).wf(),
            !old(root).is_terminated(),
        ensures
            r == poll_of(old(root).immediate()),
            *final(root) == old(root).after_poll(),
            old(root).wakes() ==> final(self).token().is_signalled(),
            final(root).wf(),
            final(root).is_terminated() <==> r is Ready,
            final(self).is_parked() <==> r is Pending,
            old(self).token().is_signalled() ==> final(self).token().is_signalled(),
    {
        let r = root.poll(&mut self.waker);
        if r.is_pending() {
            self.parked = true;
        }
        r
    }

    /// After a suspension, takes the notification: `true` when the token was
    /// signalled, and the root is to be advanced again; `false` on a spurious
    /// wake-up, and the loop waits again.
    pub fn wake_check(&mut self) -> (r: bool)
        requires
            old(self).is_parked(),
        ensures
            r == old(self).token().is_signalled(),
            !final(self).token().is_signalled(),
            final(self).is_parked() == !r,
    {
        let woken = self.waker.test_and_clear();
        if woken {
            self.parked = false;
        }
        woken
    }

    /// Whether the executor is parked: the root suspended and no
    /// notification has been taken since.
    pub fn parked(&self) -> (r: bool)
        ensures
            r == self.is_parked(),
    {
        self.parked
    }

    /// Signals the token, as an interrupt handler does.
    pub fn wake(&mut self)
        ensures
            final(self).token().is_signalled(),
            final(self).is_parked() == old(self).is_parked(),
    {
        self.waker.wake();
    }

    /// The token, for a producer of notifications.
    pub fn waker(&mut self) -> (r: &mut EmbrioWaker)
        ensures
            *r == old(self).token(),
            final(self).token() == *final(r),
            final(self).is_parked() == old(self).is_parked(),
    {
        &mut self.waker
    }
}

} // verus!
