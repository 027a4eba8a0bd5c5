use vstd::prelude::*;

use crate::future::{poll_of, Future};
use crate::poll::Poll;
use crate::waker::EmbrioWaker;

verus! {

/// A computation that produces a sequence of values over time.
///
/// `next` is what the next advance produces without suspending: `None` for a
/// suspension, `Some(Some(x))` for the item `x`, `Some(None)` for the end.
/// `after_next` is the state that the next advance leaves. `rank` bounds the
/// number of items that the stream yields before it suspends or ends: each
/// item lowers it.
pub trait Stream: Sized {
    type Item;

    /// The internal state is consistent.
    spec fn wf(&self) -> bool;

    /// The stream has reported its end.
    spec fn is_terminated(&self) -> bool;

    /// What the next advance returns, if it does not suspend.
    spec fn next(&self) -> Option<Option<Self::Item>>;

    /// The state after the next advance.
    spec fn after_next(&self) -> Self;

    /// A bound on the items yielded before a suspension or the end.
    spec fn rank(&self) -> nat;

    /// What one advance does to the state, stated of every state.
    proof fn lemma_step(&self)
        requires
            self.wf(),
            !self.is_terminated(),
        ensures
            self.after_next().wf(),
            self.after_next().rank() <= self.rank(),
            self.next() is Some && self.next().unwrap() is Some ==> self.after_next().rank() < self.rank(),
            self.after_next().is_terminated() <==> self.next() == Some(Option::<Self::Item>::None),
    ;

    /// Advances the stream once.
    fn poll_next(&mut self, waker: &mut EmbrioWaker) -> (r: Poll<Option<Self::Item>>)
        requires
            old(self).wf(),
            !old(self).is_terminated(),
        ensures
            final(self).wf(),
            r == poll_of(old(self).next()),
            *final(self) == old(self).after_next(),
            final(self).is_terminated() <==> r == Poll::<Option<Self::Item>>::Ready(None),
            old(waker).is_signalled() ==> final(waker).is_signalled(),
    ;
}

/// A stream that never reports its end.
pub trait StableInfiniteStream: Stream {
    /// The next advance never reports the end.
    proof fn lemma_never_ends(&self)
        requires
            self.wf(),
        ensures
            !self.is_terminated(),
            self.next() != Some(Option::<Self::Item>::None),
    ;
}

/// `f` can be called on every argument and gives one result for each.
pub open spec fn is_function<A, B, F: Fn(A) -> B>(f: F) -> bool {
    &&& forall|a: A| #[trigger] f.requires((a,))
    &&& forall|a: A, b1: B, b2: B| #[trigger] f.ensures((a,), b1) && #[trigger] f.ensures((a,), b2) ==> b1 == b2
}

/// `x` passes the test `f`.
pub open spec fn passes<T, F: Fn(&T) -> bool>(f: F, x: T) -> bool {
    f.ensures((&x,), true)
}

/// What the filter's advance does, starting from the inner stream `s`: it
/// takes items from `s` until one passes `f`, `s` suspends, or `s` ends.
/// The result is that advance's outcome and the inner stream after it. `fuel`
/// bounds the items taken; from `s.rank()` on it makes no difference.
pub open spec fn filter_run<S: Stream, F: Fn(&S::Item) -> bool>(s: S, f: F, fuel: nat) -> (
    Option<Option<S::Item>>,
    S,
)
    decreases fuel,
{
    match s.next() {
        Some(Some(x)) => if !passes(f, x) && fuel > 0 {
            filter_run(s.after_next(), f, (fuel - 1) as nat)
        } else {
            (s.next(), s.after_next())
        },
        _ => (s.next(), s.after_next()),
    }
}

proof fn lemma_filter_run<S: Stream, F: Fn(&S::Item) -> bool>(s: S, f: F, fuel: nat)
    requires
        s.wf(),
        !s.is_terminated(),
        fuel >= s.rank(),
    ensures
        filter_run(s, f, fuel) == filter_run(s, f, s.rank()),
        filter_run(s, f, fuel).1.wf(),
        filter_run(s, f, fuel).1.rank() <= s.rank(),
        filter_run(s, f, fuel).0 is Some && filter_run(s, f, fuel).0.unwrap() is Some ==> filter_run(
            s,
            f,
            fuel,
        ).1.rank() < s.rank(),
        filter_run(s, f, fuel).1.is_terminated() <==> filter_run(s, f, fuel).0 == Some(
            Option::<S::Item>::None,
        ),
        filter_run(s, f, fuel).0 matches Some(Some(x)) ==> passes(f, x),
    decreases fuel,
{
    s.lemma_step();
    match s.next() {
        Some(Some(x)) => {
            if !passes(f, x) {
                let t = s.after_next();
                lemma_filter_run(t, f, (fuel - 1) as nat);
                lemma_filter_run(t, f, (s.rank() - 1) as nat);
            }
        },
        _ => {},
    }
}

/// The items of a stream that pass a test.
///
/// An advance takes items from the inner stream until one passes, the inner
/// stream suspends, or it ends; failing items are dropped.
pub struct Filter<S: Stream, F: Fn(&S::Item) -> bool> {
    pub inner: S,
    pub callback: F,
}

/// The items of `inner` for which `callback` holds.
pub fn filter<S: Stream, F: Fn(&S::Item) -> bool>(inner: S, callback: F) -> (r: Filter<S, F>)
    ensures
        r.inner == inner,
        r.callback == callback,
{
    Filter { inner, callback }
}

impl<S: Stream, F: Fn(&S::Item) -> bool> Stream for Filter<S, F> {
    type Item = S::Item;

    open spec fn wf(&self) -> bool {
        &&& self.inner.wf()
        &&& is_function(self.callback)
    }

    open spec fn is_terminated(&self) -> bool {
        self.inner.is_terminated()
    }

    open spec fn next(&self) -> Option<Option<S::Item>> {
        filter_run(self.inner, self.callback, self.inner.rank()).0
    }

    open spec fn after_next(&self) -> Filter<S, F> {
        Filter { inner: filter_run(self.inner, self.callback, self.inner.rank()).1, callback: self.callback }
    }

    open spec fn rank(&self) -> nat {
        self.inner.rank()
    }

    proof fn lemma_step(&self) {
        lemma_filter_run(self.inner, self.callback, self.inner.rank());
    }

    fn poll_next(&mut self, waker: &mut EmbrioWaker) -> (r: Poll<Option<S::Item>>) {
        loop
            invariant
                self.wf(),
                !self.inner.is_terminated(),
                self.callback == old(self).callback,
                filter_run(self.inner, self.callback, self.inner.rank()) == filter_run(
                    old(self).inner,
                    old(self).callback,
                    old(self).inner.rank(),
                ),
                old(waker).is_signalled() ==> waker.is_signalled(),
            decreases self.inner.rank(),
        {
            let ghost s = self.inner;
            proof {
                s.lemma_step();
            }
            match self.inner.poll_next(waker) {
                Poll::Ready(Some(item)) => {
                    let keep = (self.callback)(&item);
                    if keep {
                        return Poll::Ready(Some(item));
                    }
                    proof {
                        lemma_filter_run(self.inner, self.callback, (s.rank() - 1) as nat);
                    }
                },
                Poll::Ready(None) => {
                    return Poll::Ready(None);
                },
                Poll::Pending => {
                    return Poll::Pending;
                },
            }
        }
    }
}

impl<S: StableInfiniteStream, F: Fn(&S::Item) -> bool> StableInfiniteStream for Filter<S, F> {
    proof fn lemma_never_ends(&self) {
        self.inner.lemma_never_ends();
        lemma_filter_run(self.inner, self.callback, self.inner.rank());
        lemma_no_end_run(self.inner, self.callback, self.inner.rank());
    }
}

proof fn lemma_no_end_run<S: StableInfiniteStream, F: Fn(&S::Item) -> bool>(s: S, f: F, fuel: nat)
    requires
        s.wf(),
    ensures
        filter_run(s, f, fuel).0 != Some(Option::<S::Item>::None),
    decreases fuel,
{
    s.lemma_never_ends();
    s.lemma_step();
    match s.next() {
        Some(Some(x)) => {
            if !passes(f, x) && fuel > 0 {
                lemma_no_end_run(s.after_next(), f, (fuel - 1) as nat);
            }
        },
        _ => {},
    }
}

/// The image of `x` under `f`.
pub open spec fn image<A, B, F: Fn(A) -> B>(f: F, x: A) -> B {
    choose|b: B| f.ensures((x,), b)
}

/// What the filter-map's advance does, starting from the inner stream `s`:
/// it takes items from `s` until `f` keeps one, `s` suspends, or `s` ends.
/// The result is that advance's outcome and the inner stream after it.
pub open spec fn map_run<S: Stream, U, F: Fn(S::Item) -> Option<U>>(s: S, f: F, fuel: nat) -> (
    Option<Option<U>>,
    S,
)
    decreases fuel,
{
    match s.next() {
        Some(Some(x)) => match image(f, x) {
            Some(y) => (Some(Some(y)), s.after_next()),
            None => if fuel > 0 {
                map_run(s.after_next(), f, (fuel - 1) as nat)
            } else {
                (None, s.after_next())
            },
        },
        Some(None) => (Some(None), s.after_next()),
        None => (None, s.after_next()),
    }
}

proof fn lemma_map_run<S: Stream, U, F: Fn(S::Item) -> Option<U>>(s: S, f: F, fuel: nat)
    requires
        s.wf(),
        !s.is_terminated(),
        fuel >= s.rank(),
    ensures
        map_run(s, f, fuel) == map_run(s, f, s.rank()),
        map_run(s, f, fuel).1.wf(),
        map_run(s, f, fuel).1.rank() <= s.rank(),
        map_run(s, f, fuel).0 is Some && map_run(s, f, fuel).0.unwrap() is Some ==> map_run(s, f, fuel).1.rank()
            < s.rank(),
        map_run(s, f, fuel).1.is_terminated() <==> map_run(s, f, fuel).0 == Some(Option::<U>::None),
    decreases fuel,
{
    s.lemma_step();
    match s.next() {
        Some(Some(x)) => {
            if image(f, x) is None {
                let t = s.after_next();
                lemma_map_run(t, f, (fuel - 1) as nat);
                lemma_map_run(t, f, (s.rank() - 1) as nat);
            }
        },
        _ => {},
    }
}

/// The images of the items of a stream under a map that may drop items.
///
/// An advance takes items from the inner stream until the map keeps one,
/// the inner stream suspends, or it ends.
#[verifier::reject_recursive_types(U)]
pub struct FilterMap<S: Stream, U, F: Fn(S::Item) -> Option<U>> {
    pub inner: S,
    pub callback: F,
    pub marker: core::marker::PhantomData<U>,
}

/// The kept images of the items of `inner` under `callback`.
pub fn filter_map<S: Stream, U, F: Fn(S::Item) -> Option<U>>(inner: S, callback: F) -> (r: FilterMap<S, U, F>)
    ensures
        r.inner == inner,
        r.callback == callback,
{
    FilterMap { inner, callback, marker: core::marker::PhantomData }
}

impl<S: Stream, U, F: Fn(S::Item) -> Option<U>> Stream for FilterMap<S, U, F> {
    type Item = U;

    open spec fn wf(&self) -> bool {
        &&& self.inner.wf()
        &&& is_function(self.callback)
    }

    open spec fn is_terminated(&self) -> bool {
        self.inner.is_terminated()
    }

    open spec fn next(&self) -> Option<Option<U>> {
        map_run(self.inner, self.callback, self.inner.rank()).0
    }

    open spec fn after_next(&self) -> FilterMap<S, U, F> {
        FilterMap {
            inner: map_run(self.inner, self.callback, self.inner.rank()).1,
            callback: self.callback,
            marker: self.marker,
        }
    }

    open spec fn rank(&self) -> nat {
        self.inner.rank()
    }

    proof fn lemma_step(&self) {
        lemma_map_run(self.inner, self.callback, self.inner.rank());
    }

    fn poll_next(&mut self, waker: &mut EmbrioWaker) -> (r: Poll<Option<U>>) {
        loop
            invariant
                self.wf(),
                !self.inner.is_terminated(),
                self.callback == old(self).callback,
                self.marker == old(self).marker,
                map_run(self.inner, self.callback, self.inner.rank()) == map_run(
                    old(self).inner,
                    old(self).callback,
                    old(self).inner.rank(),
                ),
                old(waker).is_signalled() ==> waker.is_signalled(),
            decreases self.inner.rank(),
        {
            let ghost s = self.inner;
            proof {
                s.lemma_step();
            }
            match self.inner.poll_next(waker) {
                Poll::Ready(Some(item)) => {
                    let ghost x = item;
                    let mapped = (self.callback)(item);
                    assert(self.callback.ensures((x,), image(self.callback, x)));
                    match mapped {
                        Some(y) => {
                            return Poll::Ready(Some(y));
                        },
                        None => {
                            proof {
                                lemma_map_run(self.inner, self.callback, (s.rank() - 1) as nat);
                            }
                        },
                    }
                },
                Poll::Ready(None) => {
                    return Poll::Ready(None);
                },
                Poll::Pending => {
                    return Poll::Pending;
                },
            }
        }
    }
}

impl<S: StableInfiniteStream, U, F: Fn(S::Item) -> Option<U>> StableInfiniteStream for FilterMap<S, U, F> {
    proof fn lemma_never_ends(&self) {
        self.inner.lemma_never_ends();
        lemma_no_end_map_run(self.inner, self.callback, self.inner.rank());
    }
}

proof fn lemma_no_end_map_run<S: StableInfiniteStream, U, F: Fn(S::Item) -> Option<U>>(s: S, f: F, fuel: nat)
    requires
        s.wf(),
    ensures
        map_run(s, f, fuel).0 != Some(Option::<U>::None),
    decreases fuel,
{
    s.lemma_never_ends();
    s.lemma_step();
    match s.next() {
        Some(Some(x)) => {
            if image(f, x) is None && fuel > 0 {
                lemma_no_end_map_run(s.after_next(), f, (fuel - 1) as nat);
            }
        },
        _ => {},
    }
}

/// What a filter's specification functions are, stated for every filter;
/// this lets a caller unfold them where the callback is a closure.
pub proof fn lemma_filter_spec<S: Stream, F: Fn(&S::Item) -> bool>(s: Filter<S, F>)
    ensures
        s.wf() == (s.inner.wf() && is_function(s.callback)),
        s.is_terminated() == s.inner.is_terminated(),
        s.next() == filter_run(s.inner, s.callback, s.inner.rank()).0,
        s.after_next() == (Filter { inner: filter_run(s.inner, s.callback, s.inner.rank()).1, callback: s.callback }),
        s.rank() == s.inner.rank(),
{
}

/// What a filter-map's specification functions are, stated for every
/// filter-map; this lets a caller unfold them where the callback is a closure.
pub proof fn lemma_filter_map_spec<S: Stream, U, F: Fn(S::Item) -> Option<U>>(s: FilterMap<S, U, F>)
    ensures
        s.wf() == (s.inner.wf() && is_function(s.callback)),
        s.is_terminated() == s.inner.is_terminated(),
        s.next() == map_run(s.inner, s.callback, s.inner.rank()).0,
        s.after_next() == (FilterMap {
            inner: map_run(s.inner, s.callback, s.inner.rank()).1,
            callback: s.callback,
            marker: s.marker,
        }),
        s.rank() == s.inner.rank(),
{
}

/// The first item of a stream that never ends.
#[derive(Debug)]
pub struct First<S> {
    pub inner: S,
    pub done: bool,
}

/// A computation that completes with the next item of `inner`.
pub fn first<S: StableInfiniteStream>(inner: S) -> (r: First<S>)
    requires
        inner.wf(),
    ensures
        r.wf(),
        !r.is_terminated(),
        r == (First { inner, done: false }),
{
    proof {
        inner.lemma_never_ends();
    }
    First { inner, done: false }
}

impl<S: StableInfiniteStream> Future for First<S> {
    type Output = S::Item;

    open spec fn wf(&self) -> bool {
        self.inner.wf()
    }

    open spec fn is_terminated(&self) -> bool {
        self.done
    }

    open spec fn immediate(&self) -> Option<S::Item> {
        match self.inner.next() {
            Some(Some(x)) => Some(x),
            _ => None,
        }
    }

    open spec fn after_poll(&self) -> First<S> {
        First { inner: self.inner.after_next(), done: self.immediate() is Some }
    }

    open spec fn wakes(&self) -> bool {
        false
    }

    fn poll(&mut self, waker: &mut EmbrioWaker) -> (r: Poll<S::Item>) {
        proof {
            self.inner.lemma_never_ends();
            self.inner.lemma_step();
        }
        match self.inner.poll_next(waker) {
            Poll::Ready(Some(item)) => {
                self.done = true;
                Poll::Ready(item)
            },
            Poll::Ready(None) => Poll::Pending,
            Poll::Pending => Poll::Pending,
        }
    }
}

} // verus!
