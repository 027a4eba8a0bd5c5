use vstd::prelude::*;

use crate::poll::Poll;
use crate::waker::EmbrioWaker;

verus! {

/// What an advance returns when the computation would produce `o` now.
pub open spec fn poll_of<T>(o: Option<T>) -> Poll<T> {
    match o {
        Some(v) => Poll::Ready(v),
        None => Poll::Pending,
    }
}

/// A pollable computation.
///
/// `immediate` is what the next advance produces without suspending, if
/// anything: an advance completes exactly when it is `Some`, and with that
/// value. `after_poll` is the state that the next advance leaves, and `wakes`
/// tells whether that advance signals the token. Advancing a computation that
/// has completed is ruled out by the precondition of `poll`; it is never
/// answered with a stale value.
pub trait Future: Sized {
    type Output;

    /// The internal state is consistent.
    spec fn wf(&self) -> bool;

    /// The computation has returned its result.
    spec fn is_terminated(&self) -> bool;

    /// The result that the next advance returns, if it completes.
    spec fn immediate(&self) -> Option<Self::Output>;

    /// The state after the next advance.
    spec fn after_poll(&self) -> Self;

    /// The next advance signals the token.
    spec fn wakes(&self) -> bool;

    /// Advances the computation once.
    fn poll(&mut self, waker: &mut EmbrioWaker) -> (r: Poll<Self::Output>)
        requires
            old(self).wf(),
            !old(self).is_terminated(),
        ensures
            final(self).wf(),
            r == poll_of(old(self).immediate()),
            *final(self) == old(self).after_poll(),
            final(self).is_terminated() <==> r is Ready,
            old(self).wakes() ==> final(waker).is_signalled(),
            old(waker).is_signalled() ==> final(waker).is_signalled(),
    ;
}

/// A computation that is resolved from the start.
#[derive(Debug)]
pub struct Ready<T> {
    pub value: Option<T>,
}

/// A computation that completes with `value` on its first advance.
pub fn ready_with<T>(value: T) -> (r: Ready<T>)
    ensures
        r.wf(),
        !r.is_terminated(),
        r.immediate() == Some(value),
        r.value == Some(value),
{
    Ready { value: Some(value) }
}

impl<T> Future for Ready<T> {
    type Output = T;

    open spec fn wf(&self) -> bool {
        true
    }

    open spec fn is_terminated(&self) -> bool {
        self.value is None
    }

    open spec fn immediate(&self) -> Option<T> {
        self.value
    }

    open spec fn after_poll(&self) -> Ready<T> {
        Ready { value: None }
    }

    open spec fn wakes(&self) -> bool {
        false
    }

    fn poll(&mut self, waker: &mut EmbrioWaker) -> (r: Poll<T>) {
        match self.value.take() {
            Some(v) => Poll::Ready(v),
            None => Poll::Pending,
        }
    }
}

/// A computation that never completes.
#[derive(Debug)]
pub struct Never<T> {
    pub marker: core::marker::PhantomData<T>,
}

/// A computation that stays suspended for ever.
pub fn never<T>() -> (r: Never<T>)
    ensures
        r.wf(),
        !r.is_terminated(),
        r.immediate() is None,
{
    Never { marker: core::marker::PhantomData }
}

impl<T> Future for Never<T> {
    type Output = T;

    open spec fn wf(&self) -> bool {
        true
    }

    open spec fn is_terminated(&self) -> bool {
        false
    }

    open spec fn immediate(&self) -> Option<T> {
        None
    }

    open spec fn after_poll(&self) -> Never<T> {
        *self
    }

    open spec fn wakes(&self) -> bool {
        false
    }

    fn poll(&mut self, waker: &mut EmbrioWaker) -> (r: Poll<T>) {
        Poll::Pending
    }
}

/// A computation that suspends once, signalling the token so that it is
/// advanced again, and after that runs `inner`.
#[derive(Debug)]
pub struct PendingOnce<F> {
    pub inner: F,
    pub polled: bool,
}

/// Wraps `inner` so that its first advance suspends once.
pub fn pending_once<F: Future>(inner: F) -> (r: PendingOnce<F>)
    requires
        inner.wf(),
        !inner.is_terminated(),
    ensures
        r.wf(),
        !r.is_terminated(),
        r.immediate() is None,
        r.wakes(),
        r == (PendingOnce { inner, polled: false }),
{
    PendingOnce { inner, polled: false }
}

impl<F: Future> Future for PendingOnce<F> {
    type Output = F::Output;

    open spec fn wf(&self) -> bool {
        self.inner.wf()
    }

    open spec fn is_terminated(&self) -> bool {
        self.inner.is_terminated()
    }

    open spec fn immediate(&self) -> Option<F::Output> {
        if self.polled {
            self.inner.immediate()
        } else {
            None
        }
    }

    open spec fn after_poll(&self) -> PendingOnce<F> {
        if self.polled {
            PendingOnce { inner: self.inner.after_poll(), polled: true }
        } else {
            PendingOnce { inner: self.inner, polled: true }
        }
    }

    open spec fn wakes(&self) -> bool {
        !self.polled || self.inner.wakes()
    }

    fn poll(&mut self, waker: &mut EmbrioWaker) -> (r: Poll<F::Output>) {
        if self.polled {
            self.inner.poll(waker)
        } else {
            self.polled = true;
            waker.wake();
            Poll::Pending
        }
    }
}

/// One of two values.
#[derive(Debug, PartialEq, Eq, Structural)]
pub enum Either<L, R> {
    Left(L),
    Right(R),
}

/// Races two computations: the first to complete wins, the left one on a tie.
#[derive(Debug)]
pub struct Select<L, R> {
    pub left: L,
    pub right: R,
}

/// Races `left` against `right`.
pub fn select<L: Future, R: Future>(left: L, right: R) -> (r: Select<L, R>)
    ensures
        r.left == left,
        r.right == right,
{
    Select { left, right }
}

impl<L: Future, R: Future> Future for Select<L, R> {
    type Output = Either<L::Output, R::Output>;

    open spec fn wf(&self) -> bool {
        self.left.wf() && self.right.wf()
    }

    open spec fn is_terminated(&self) -> bool {
        self.left.is_terminated() || self.right.is_terminated()
    }

    open spec fn immediate(&self) -> Option<Either<L::Output, R::Output>> {
        match self.left.immediate() {
            Some(l) => Some(Either::Left(l)),
            None => match self.right.immediate() {
                Some(r) => Some(Either::Right(r)),
                None => None,
            },
        }
    }

    /// The right side is left alone when the left one completes.
    open spec fn after_poll(&self) -> Select<L, R> {
        if self.left.immediate() is Some {
            Select { left: self.left.after_poll(), right: self.right }
        } else {
            Select { left: self.left.after_poll(), right: self.right.after_poll() }
        }
    }

    open spec fn wakes(&self) -> bool {
        self.left.wakes() || (self.left.immediate() is None && self.right.wakes())
    }

    fn poll(&mut self, waker: &mut EmbrioWaker) -> (r: Poll<Either<L::Output, R::Output>>) {
        match self.left.poll(waker) {
            Poll::Ready(l) => Poll::Ready(Either::Left(l)),
            Poll::Pending => match self.right.poll(waker) {
                Poll::Ready(r) => Poll::Ready(Either::Right(r)),
                Poll::Pending => Poll::Pending,
            },
        }
    }
}

/// Both values, if both are there.
pub open spec fn both<A, B>(a: Option<A>, b: Option<B>) -> Option<(A, B)> {
    match (a, b) {
        (Some(x), Some(y)) => Some((x, y)),
        _ => None,
    }
}

/// Runs two computations side by side until both have completed.
///
/// A side that has completed keeps its result in `left_result` or
/// `right_result` and is not advanced again.
#[derive(Debug)]
pub struct Join<L: Future, R: Future> {
    pub left: L,
    pub right: R,
    pub left_result: Option<L::Output>,
    pub right_result: Option<R::Output>,
    pub done: bool,
}

/// Runs `left` and `right` until both complete, and returns both results.
pub fn join<L: Future, R: Future>(left: L, right: R) -> (r: Join<L, R>)
    requires
        left.wf(),
        right.wf(),
        !left.is_terminated(),
        !right.is_terminated(),
    ensures
        r.wf(),
        !r.is_terminated(),
        r == (Join { left, right, left_result: None, right_result: None, done: false }),
        r.immediate() == both(left.immediate(), right.immediate()),
{
    Join { left, right, left_result: None, right_result: None, done: false }
}

impl<L: Future, R: Future> Join<L, R> {
    /// The left result after the next advance: the kept one, or what the
    /// left side produces when advanced.
    pub open spec fn left_next(&self) -> Option<L::Output> {
        if self.left_result is Some {
            self.left_result
        } else {
            self.left.immediate()
        }
    }

    /// The same for the right side.
    pub open spec fn right_next(&self) -> Option<R::Output> {
        if self.right_result is Some {
            self.right_result
        } else {
            self.right.immediate()
        }
    }
}

impl<L: Future, R: Future> Future for Join<L, R> {
    type Output = (L::Output, R::Output);

    open spec fn wf(&self) -> bool {
        &&& self.left.wf()
        &&& self.right.wf()
        &&& !self.done ==> (self.left_result is None <==> !self.left.is_terminated())
        &&& !self.done ==> (self.right_result is None <==> !self.right.is_terminated())
    }

    open spec fn is_terminated(&self) -> bool {
        self.done
    }

    open spec fn immediate(&self) -> Option<(L::Output, R::Output)> {
        both(self.left_next(), self.right_next())
    }

    open spec fn after_poll(&self) -> Join<L, R> {
        let left = if self.left_result is Some {
            self.left
        } else {
            self.left.after_poll()
        };
        let right = if self.right_result is Some {
            self.right
        } else {
            self.right.after_poll()
        };
        if self.left_next() is Some && self.right_next() is Some {
            Join { left, right, left_result: None, right_result: None, done: true }
        } else {
            Join { left, right, left_result: self.left_next(), right_result: self.right_next(), done: false }
        }
    }

    open spec fn wakes(&self) -> bool {
        (self.left_result is None && self.left.wakes()) || (self.right_result is None && self.right.wakes())
    }

    fn poll(&mut self, waker: &mut EmbrioWaker) -> (r: Poll<(L::Output, R::Output)>) {
        if self.left_result.is_none() {
            match self.left.poll(waker) {
                Poll::Ready(l) => {
                    self.left_result = Some(l);
                },
                Poll::Pending => {},
            }
        }
        if self.right_result.is_none() {
            match self.right.poll(waker) {
                Poll::Ready(r) => {
                    self.right_result = Some(r);
                },
                Poll::Pending => {},
            }
        }
        if self.left_result.is_some() && self.right_result.is_some() {
            let l = self.left_result.take().unwrap();
            let r = self.right_result.take().unwrap();
            self.done = true;
            Poll::Ready((l, r))
        } else {
            Poll::Pending
        }
    }
}

/// Runs one computation and after it another, both results kept.
#[derive(Debug)]
pub struct Chain<A: Future, B: Future> {
    pub first: A,
    pub second: B,
    pub first_result: Option<A::Output>,
    pub done: bool,
}

/// Runs `first` to completion and `second` after it; when `first` completes, `second`
/// is advanced in the same call.
pub fn chain<A: Future, B: Future>(first: A, second: B) -> (r: Chain<A, B>)
    requires
        first.wf(),
        second.wf(),
        !first.is_terminated(),
        !second.is_terminated(),
    ensures
        r.wf(),
        !r.is_terminated(),
        r == (Chain { first, second, first_result: None, done: false }),
        r.immediate() == both(first.immediate(), second.immediate()),
{
    Chain { first, second, first_result: None, done: false }
}

impl<A: Future, B: Future> Chain<A, B> {
    /// The first result after the next advance: the kept one, or what the
    /// first computation produces when advanced.
    pub open spec fn first_next(&self) -> Option<A::Output> {
        if self.first_result is Some {
            self.first_result
        } else {
            self.first.immediate()
        }
    }
}

impl<A: Future, B: Future> Future for Chain<A, B> {
    type Output = (A::Output, B::Output);

    open spec fn wf(&self) -> bool {
        &&& self.first.wf()
        &&& self.second.wf()
        &&& !self.done ==> !self.second.is_terminated()
        &&& !self.done ==> (self.first_result is None <==> !self.first.is_terminated())
    }

    open spec fn is_terminated(&self) -> bool {
        self.done
    }

    open spec fn immediate(&self) -> Option<(A::Output, B::Output)> {
        both(self.first_next(), self.second.immediate())
    }

    /// The second computation is advanced only once the first has
    /// completed, in the same call.
    open spec fn after_poll(&self) -> Chain<A, B> {
        let first = if self.first_result is Some {
            self.first
        } else {
            self.first.after_poll()
        };
        if self.first_next() is None {
            Chain { first, second: self.second, first_result: None, done: false }
        } else if self.second.immediate() is None {
            Chain { first, second: self.second.after_poll(), first_result: self.first_next(), done: false }
        } else {
            Chain { first, second: self.second.after_poll(), first_result: None, done: true }
        }
    }

    open spec fn wakes(&self) -> bool {
        (self.first_result is None && self.first.wakes()) || (self.first_next() is Some && self.second.wakes())
    }

    fn poll(&mut self, waker: &mut EmbrioWaker) -> (r: Poll<(A::Output, B::Output)>) {
        if self.first_result.is_none() {
            match self.first.poll(waker) {
                Poll::Ready(a) => {
                    self.first_result = Some(a);
                },
                Poll::Pending => {
                    return Poll::Pending;
                },
            }
        }
        match self.second.poll(waker) {
            Poll::Ready(b) => {
                let a = self.first_result.take().unwrap();
                self.done = true;
                Poll::Ready((a, b))
            },
            Poll::Pending => Poll::Pending,
        }
    }
}

} // verus!
