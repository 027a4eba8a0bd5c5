use vstd::prelude::*;

use crate::future::poll_of;
use crate::poll::Poll;
use crate::stream::Stream;
use crate::waker::EmbrioWaker;

verus! {

/// A consumer that is fed items one at a time.
///
/// An item is handed over with `start_send`, and only while the sink is
/// accepting: after `poll_ready` has returned `Ready(Ok(()))` and before any
/// other item was handed over. So no caller can hand over a second item before
/// the sink has resolved the first. `accepted` is what the sink has taken, in
/// order.
pub trait Sink<Item>: Sized {
    type Error;

    /// The internal state is consistent.
    spec fn wf(&self) -> bool;

    /// The sink has declared itself ready and has not been handed an item
    /// since.
    spec fn is_accepting(&self) -> bool;

    /// The items taken so far, in order.
    spec fn accepted(&self) -> Seq<Item>;

    /// What the next `poll_ready` returns, if it does not suspend.
    spec fn next_ready(&self) -> Option<Result<(), Self::Error>>;

    /// `after` is a state that the next `poll_ready` may leave.
    spec fn ready_leaves(&self, after: Self) -> bool;

    /// What handing over `item` returns.
    spec fn next_send(&self, item: Item) -> Result<(), Self::Error>;

    /// What the next `poll_close` returns, if it does not suspend.
    spec fn next_close(&self) -> Option<Result<(), Self::Error>>;

    /// Asks whether the sink can take an item now.
    fn poll_ready(&mut self, waker: &mut EmbrioWaker) -> (r: Poll<Result<(), Self::Error>>)
        requires
            old(self).wf(),
        ensures
            final(self).wf(),
            r == poll_of(old(self).next_ready()),
            old(self).ready_leaves(*final(self)),
            final(self).accepted() == old(self).accepted(),
            r matches Poll::Ready(Ok(_)) ==> final(self).is_accepting(),
            old(waker).is_signalled() ==> final(waker).is_signalled(),
    ;

    /// Hands over one item.
    fn start_send(&mut self, item: Item) -> (r: Result<(), Self::Error>)
        requires
            old(self).wf(),
            old(self).is_accepting(),
        ensures
            final(self).wf(),
            r == old(self).next_send(item),
            !final(self).is_accepting(),
            r is Ok ==> final(self).accepted() == old(self).accepted().push(item),
            r is Err ==> final(self).accepted() == old(self).accepted(),
    ;

    /// Finishes what was handed over and shuts the sink down.
    fn poll_close(&mut self, waker: &mut EmbrioWaker) -> (r: Poll<Result<(), Self::Error>>)
        requires
            old(self).wf(),
        ensures
            final(self).wf(),
            r == poll_of(old(self).next_close()),
            final(self).accepted() == old(self).accepted(),
            old(waker).is_signalled() ==> final(waker).is_signalled(),
    ;
}

/// A sink that keeps every item, in order.
#[derive(Debug)]
pub struct VecSink<T> {
    pub items: Vec<T>,
    pub ready: bool,
    pub closed: bool,
}

impl<T> VecSink<T> {
    /// The items handed over so far.
    pub open spec fn received(&self) -> Seq<T> {
        self.items@
    }

    /// An empty sink.
    pub fn new() -> (r: VecSink<T>)
        ensures
            r.wf(),
            r.received() == Seq::<T>::empty(),
            !r.is_accepting(),
            !r.closed,
    {
        VecSink { items: Vec::new(), ready: false, closed: false }
    }

    /// The items handed over, in order.
    pub fn into_items(self) -> (r: Vec<T>)
        ensures
            r@ == self.received(),
    {
        self.items
    }
}

impl<T> Sink<T> for VecSink<T> {
    type Error = crate::io::NoError;

    open spec fn wf(&self) -> bool {
        true
    }

    open spec fn is_accepting(&self) -> bool {
        self.ready
    }

    open spec fn accepted(&self) -> Seq<T> {
        self.items@
    }

    open spec fn next_ready(&self) -> Option<Result<(), crate::io::NoError>> {
        Some(Ok(()))
    }

    open spec fn ready_leaves(&self, after: VecSink<T>) -> bool {
        after.items@ == self.items@ && after.ready && after.closed == self.closed
    }

    open spec fn next_send(&self, item: T) -> Result<(), crate::io::NoError> {
        Ok(())
    }

    open spec fn next_close(&self) -> Option<Result<(), crate::io::NoError>> {
        Some(Ok(()))
    }

    fn poll_ready(&mut self, waker: &mut EmbrioWaker) -> (r: Poll<Result<(), crate::io::NoError>>) {
        self.ready = true;
        Poll::Ready(Ok(()))
    }

    fn start_send(&mut self, item: T) -> (r: Result<(), crate::io::NoError>) {
        self.items.push(item);
        self.ready = false;
        Ok(())
    }

    fn poll_close(&mut self, waker: &mut EmbrioWaker) -> (r: Poll<Result<(), crate::io::NoError>>) {
        self.closed = true;
        Poll::Ready(Ok(()))
    }
}

/// A stream of the items of a vector, in order.
#[derive(Debug)]
pub struct VecStream<T> {
    pub items: Vec<T>,
    pub index: usize,
    pub ended: bool,
}

impl<T: Copy> VecStream<T> {
    /// The items still to come.
    pub open spec fn remaining(&self) -> Seq<T> {
        self.items@.skip(self.index as int)
    }

    /// A stream of `items`, then the end.
    pub fn new(items: Vec<T>) -> (r: VecStream<T>)
        ensures
            r.wf(),
            !r.is_terminated(),
            r.remaining() == items@,
            r.rank() == items@.len() + 1,
            r.items == items,
            r.index == 0,
            !r.ended,
    {
        assert(items@.len() == items.len());
        let r = VecStream { items, index: 0, ended: false };
        assert(r.remaining() =~= r.items@);
        r
    }
}

impl<T: Copy> Stream for VecStream<T> {
    type Item = T;

    open spec fn wf(&self) -> bool {
        &&& self.index <= self.items@.len() <= usize::MAX
        &&& self.ended ==> self.index == self.items@.len()
    }

    open spec fn is_terminated(&self) -> bool {
        self.ended
    }

    open spec fn next(&self) -> Option<Option<T>> {
        if self.index < self.items@.len() {
            Some(Some(self.items@[self.index as int]))
        } else {
            Some(None)
        }
    }

    open spec fn after_next(&self) -> VecStream<T> {
        if self.index < self.items@.len() {
            VecStream { items: self.items, index: (self.index + 1) as usize, ended: false }
        } else {
            VecStream { items: self.items, index: self.index, ended: true }
        }
    }

    /// The items left, and the end.
    open spec fn rank(&self) -> nat {
        if self.ended {
            (self.items@.len() - self.index) as nat
        } else {
            (self.items@.len() - self.index + 1) as nat
        }
    }

    proof fn lemma_step(&self) {
    }

    fn poll_next(&mut self, waker: &mut EmbrioWaker) -> (r: Poll<Option<T>>) {
        if self.index < self.items.len() {
            let item = self.items[self.index];
            self.index = self.index + 1;
            Poll::Ready(Some(item))
        } else {
            self.ended = true;
            Poll::Ready(None)
        }
    }
}

/// The stream `s` after `n` advances.
pub open spec fn advanced<St: Stream>(s: St, n: nat) -> St
    decreases n,
{
    if n == 0 {
        s
    } else {
        advanced(s, (n - 1) as nat).after_next()
    }
}

/// The items that `n` advances of the stream `s` yield, in order.
pub open spec fn yielded<St: Stream>(s: St, n: nat) -> Seq<St::Item>
    decreases n,
{
    if n == 0 {
        Seq::empty()
    } else {
        match advanced(s, (n - 1) as nat).next() {
            Some(Some(x)) => yielded(s, (n - 1) as nat).push(x),
            _ => yielded(s, (n - 1) as nat),
        }
    }
}

/// A stream of the items of a vector yields them in order: after `n`
/// advances from the start, it has yielded the first `n` of them, and once
/// it has ended, all of them.
pub proof fn lemma_vec_stream_yields<T: Copy>(s: VecStream<T>, n: nat)
    requires
        s.wf(),
        s.index == 0,
        !s.ended,
    ensures
        yielded(s, n) == s.items@.take(if n < s.items@.len() { n as int } else { s.items@.len() as int }),
        advanced(s, n).wf(),
        advanced(s, n).items == s.items,
        advanced(s, n).index == (if n < s.items@.len() { n } else { s.items@.len() }),
        advanced(s, n).ended <==> n > s.items@.len(),
    decreases n,
{
    if n > 0 {
        lemma_vec_stream_yields(s, (n - 1) as nat);
        let m = (n - 1) as nat;
        if m < s.items@.len() {
            assert(s.items@.take(m as int).push(s.items@[m as int]) =~= s.items@.take(m as int + 1));
        }
    }
}

/// The value in `o`, if any, as a sequence.
pub open spec fn opt_seq<T>(o: Option<T>) -> Seq<T> {
    match o {
        Some(x) => seq![x],
        None => Seq::empty(),
    }
}

/// The phase of a pump.
#[derive(Debug, PartialEq, Eq, Structural)]
pub enum ForwardState {
    /// Moving items from the stream to the sink.
    Running,
    /// The stream has ended; the sink is being closed.
    Closing,
    /// The pump has finished.
    Done,
}

/// Pumps the items of a stream into a sink, holding at most one item
/// between them, and closes the sink when the stream ends.
///
/// An item taken from the stream is held until the sink declares itself
/// ready, then handed over; only then is the stream advanced again. An
/// advance goes on moving items until the stream or the sink suspends, the
/// sink fails, or the stream ends. `handed` records, in order, the items
/// handed to the sink.
pub struct Forward<St: Stream, Si> {
    stream: St,
    sink: Si,
    held: Option<St::Item>,
    state: ForwardState,
    handed: Ghost<Seq<St::Item>>,
}

/// A pump from `stream` into `sink`.
pub fn forward<St: Stream, Si: Sink<St::Item>>(stream: St, sink: Si) -> (r: Forward<St, Si>)
    requires
        stream.wf(),
        !stream.is_terminated(),
        sink.wf(),
    ensures
        r.wf(),
        r.state() == ForwardState::Running,
        r.held() is None,
        r.stream() == stream,
        r.sink() == sink,
        r.handed() == Seq::<St::Item>::empty(),
{
    Forward { stream, sink, held: None, state: ForwardState::Running, handed: Ghost(Seq::empty()) }
}

impl<St: Stream, Si: Sink<St::Item>> Forward<St, Si> {
    /// The stream.
    pub closed spec fn stream(&self) -> St {
        self.stream
    }

    /// The sink.
    pub closed spec fn sink(&self) -> Si {
        self.sink
    }

    /// The item taken from the stream and not yet handed to the sink.
    pub closed spec fn held(&self) -> Option<St::Item> {
        self.held
    }

    /// The phase.
    pub closed spec fn state(&self) -> ForwardState {
        self.state
    }

    /// The items handed to the sink so far, in order.
    pub closed spec fn handed(&self) -> Seq<St::Item> {
        self.handed@
    }

    /// The internal state is consistent.
    pub closed spec fn wf(&self) -> bool {
        &&& self.stream.wf()
        &&& self.sink.wf()
        &&& self.state == ForwardState::Running ==> !self.stream.is_terminated()
        &&& self.state != ForwardState::Running ==> self.held is None
        &&& self.state == ForwardState::Closing ==> self.stream.is_terminated()
    }

    /// What happens to a held item `x` when the sink's readiness is `ready`:
    /// kept while the sink suspends, the sink's error, or handed over (unless
    /// the sink fails to take it).
    pub open spec fn hand_over(
        &self,
        x: St::Item,
        ready: Option<Result<(), Si::Error>>,
        r: Poll<Result<(), Si::Error>>,
        after: Self,
    ) -> bool {
        match ready {
            None => r is Pending && after.held() == Some(x) && after.handed() == self.handed(),
            Some(Err(e)) => r == Poll::<Result<(), Si::Error>>::Ready(Err(e)) && after.handed() == self.handed(),
            Some(Ok(())) => (after.handed().len() > self.handed().len() && after.handed()[self.handed().len() as int]
                == x) || (r matches Poll::Ready(Err(_)) && after.handed() == self.handed()),
        }
    }

    /// The items handed over by the advance from `self` to `after`.
    pub open spec fn newly_handed(&self, after: Self) -> Seq<St::Item> {
        after.handed().skip(self.handed().len() as int)
    }

    /// Advances the pump once.
    ///
    /// It completes with the sink's error as soon as the sink reports one,
    /// and with the result of closing the sink once the stream has ended.
    /// Every item handed over is taken by the sink, in order; the items
    /// handed over and the one held afterwards are the one held before and
    /// those the stream yielded, in order (unless the sink fails: then the
    /// held item is dropped). It suspends only when the stream
    /// suspends with no item held, or the sink is not ready for the held item.
    pub fn poll(&mut self, waker: &mut EmbrioWaker) -> (r: Poll<Result<(), Si::Error>>)
        requires
            old(self).wf(),
            old(self).state() != ForwardState::Done,
        ensures
            final(self).wf(),
            r is Ready <==> final(self).state() == ForwardState::Done,
            final(self).handed().len() >= old(self).handed().len(),
            final(self).handed().take(old(self).handed().len() as int) == old(self).handed(),
            final(self).sink().accepted() == old(self).sink().accepted() + old(self).newly_handed(*final(self)),
            exists|n: nat|
                #![trigger advanced(old(self).stream(), n)]
                final(self).stream() == advanced(old(self).stream(), n) && (r matches Poll::Ready(Err(_)) || opt_seq(
                    old(self).held(),
                ) + yielded(old(self).stream(), n) == old(self).newly_handed(*final(self)) + opt_seq(
                    final(self).held(),
                )),
            r is Pending && final(self).state() == ForwardState::Running ==> (final(self).held() is None && exists|
                t: St,
            | #[trigger] t.after_next() == final(self).stream() && t.next() is None) || (final(self).held() is Some
                && exists|k: Si| #[trigger] k.ready_leaves(final(self).sink()) && k.next_ready() is None),
            old(self).state() == ForwardState::Closing ==> r == poll_of(old(self).sink().next_close())
                && final(self).handed() == old(self).handed(),
            final(self).state() != ForwardState::Running ==> final(self).held() is None,
            final(self).state() != ForwardState::Running && !(r matches Poll::Ready(Err(_)))
                ==> final(self).stream().is_terminated(),
            r matches Poll::Ready(Ok(_)) ==> exists|k: Si| #[trigger] k.next_close() matches Some(Ok(_)),
            r is Pending && final(self).state() == ForwardState::Closing ==> exists|k: Si| #[trigger]
                k.next_close() is None,
            r matches Poll::Ready(Err(e)) ==> (exists|k: Si| #[trigger] k.next_ready() == Some(Err::<(), Si::Error>(e)))
                || (exists|k: Si| #[trigger] k.next_close() == Some(Err::<(), Si::Error>(e))) || (exists|
                k: Si,
                x: St::Item,
            | #[trigger] k.next_send(x) == Err::<(), Si::Error>(e)),
            old(self).state() == ForwardState::Running ==> match old(self).held() {
                Some(x) => old(self).hand_over(x, old(self).sink().next_ready(), r, *final(self)),
                None => match old(self).stream().next() {
                    None => r is Pending && final(self).held() is None && final(self).handed() == old(
                        self,
                    ).handed(),
                    Some(Some(x)) => old(self).hand_over(x, old(self).sink().next_ready(), r, *final(self)),
                    Some(None) => final(self).state() != ForwardState::Running && r == poll_of(
                        old(self).sink().next_close(),
                    ) && final(self).handed() == old(self).handed(),
                },
            },
            old(waker).is_signalled() ==> final(waker).is_signalled(),
    {
        if self.state == ForwardState::Closing {
            let ghost k = self.sink;
            let r = self.sink.poll_close(waker);
            assert(k.next_close() == k.next_close());
            if r.is_ready() {
                self.state = ForwardState::Done;
            }
            assert(old(self).newly_handed(*self) =~= Seq::<St::Item>::empty());
            assert(advanced(old(self).stream(), 0) == old(self).stream());
            return r;
        }
        let ghost mode: int = 0;
        let ghost steps: nat = 0;
        assert(old(self).newly_handed(*self) =~= Seq::<St::Item>::empty());
        assert(opt_seq(old(self).held()) + yielded(old(self).stream(), 0) =~= opt_seq(old(self).held()));
        loop
            invariant
                self.wf(),
                self.state == ForwardState::Running,
                old(waker).is_signalled() ==> waker.is_signalled(),
                self.handed().len() >= old(self).handed().len(),
                self.handed().take(old(self).handed().len() as int) == old(self).handed(),
                self.sink.accepted() == old(self).sink().accepted() + old(self).newly_handed(*self),
                self.stream == advanced(old(self).stream(), steps),
                opt_seq(old(self).held()) + yielded(old(self).stream(), steps) == old(self).newly_handed(*self)
                    + opt_seq(self.held),
                old(self).state() == ForwardState::Running,
                0 <= mode <= 2,
                mode == 0 ==> self.stream == old(self).stream && self.sink == old(self).sink && self.held
                    == old(self).held && self.handed == old(self).handed,
                mode == 1 ==> old(self).held() is None && self.held is Some && old(self).stream().next() == Some(
                    self.held,
                ) && self.sink == old(self).sink && self.handed == old(self).handed,
                mode == 2 ==> (match old(self).held() {
                    Some(x) => old(self).sink().next_ready() matches Some(Ok(_))
                        && self.handed().len() > old(self).handed().len() && self.handed()[old(
                        self,
                    ).handed().len() as int] == x,
                    None => old(self).stream().next() matches Some(Some(x)) && old(self).sink().next_ready() matches Some(Ok(_)) && self.handed().len() > old(self).handed().len()
                        && self.handed()[old(self).handed().len() as int] == x,
                }),
            decreases self.stream.rank(), if self.held is Some { 1nat } else { 0nat },
        {
            match self.held.take() {
                Some(item) => {
                    let ghost x = item;
                    let ghost k0 = self.sink;
                    let ghost before = *self;
                    let ready = self.sink.poll_ready(waker);
                    proof {
                        if ready matches Poll::Ready(Ok(_)) {
                            assert(k0.next_ready() matches Some(Ok(_)));
                        }
                        assert(old(self).newly_handed(*self) == old(self).newly_handed(before));
                    }
                    match ready {
                        Poll::Pending => {
                            self.held = Some(item);
                            assert(k0.ready_leaves(self.sink()) && k0.next_ready() is None);
                            assert(old(self).newly_handed(*self) == old(self).newly_handed(before));
                            return Poll::Pending;
                        },
                        Poll::Ready(Err(e)) => {
                            self.state = ForwardState::Done;
                            assert(k0.next_ready() == Some(Err::<(), Si::Error>(e)));
                            return Poll::Ready(Err(e));
                        },
                        Poll::Ready(Ok(())) => {
                            let ghost k1 = self.sink;
                            let sent = self.sink.start_send(item);
                            match sent {
                                Ok(()) => {
                                    proof {
                                        let h0 = self.handed@;
                                        self.handed@ = h0.push(x);
                                        assert(self.handed@[old(self).handed().len() as int] == if mode == 2 {
                                            h0[old(self).handed().len() as int]
                                        } else {
                                            x
                                        });
                                        assert(self.handed().take(old(self).handed().len() as int) =~= old(
                                            self,
                                        ).handed());
                                        assert(old(self).newly_handed(*self) =~= old(self).newly_handed(before).push(x));
                                        assert(self.sink.accepted() =~= old(self).sink().accepted() + old(self).newly_handed(*self));
                                        assert(opt_seq(old(self).held()) + yielded(old(self).stream(), steps) =~= old(self).newly_handed(*self)
                                            + opt_seq(self.held));
                                    }
                                },
                                Err(e) => {
                                    self.state = ForwardState::Done;
                                    assert(k1.next_send(x) == Err::<(), Si::Error>(e));
                                    return Poll::Ready(Err(e));
                                },
                            }
                        },
                    }
                    proof {
                        mode = 2;
                    }
                },
                None => {
                    let ghost s = self.stream;
                    proof {
                        s.lemma_step();
                    }
                    let polled = self.stream.poll_next(waker);
                    proof {
                        steps = steps + 1;
                        assert(self.stream == advanced(old(self).stream(), steps));
                    }
                    match polled {
                        Poll::Ready(Some(item)) => {
                            self.held = Some(item);
                            proof {
                                assert(opt_seq(old(self).held()) + yielded(old(self).stream(), steps) =~= old(self).newly_handed(*self)
                                    + opt_seq(self.held));
                                if mode == 0 {
                                    mode = 1;
                                }
                            }
                        },
                        Poll::Ready(None) => {
                            self.state = ForwardState::Closing;
                            let ghost k = self.sink;
                            let r = self.sink.poll_close(waker);
                            assert(k.next_close() == k.next_close());
                            if r.is_ready() {
                                self.state = ForwardState::Done;
                            }
                            assert(opt_seq(old(self).held()) + yielded(old(self).stream(), steps) =~= old(self).newly_handed(*self)
                                + opt_seq(self.held));
                            return r;
                        },
                        Poll::Pending => {
                            assert(opt_seq(old(self).held()) + yielded(old(self).stream(), steps) =~= old(self).newly_handed(*self)
                                + opt_seq(self.held));
                            assert(s.after_next() == self.stream() && s.next() is None);
                            return Poll::Pending;
                        },
                    }
                },
            }
        }
    }

    /// The phase.
    pub fn phase(&self) -> (r: ForwardState)
        ensures
            r == self.state(),
    {
        match self.state {
            ForwardState::Running => ForwardState::Running,
            ForwardState::Closing => ForwardState::Closing,
            ForwardState::Done => ForwardState::Done,
        }
    }

    /// The stream and the sink, given back.
    pub fn into_parts(self) -> (r: (St, Si))
        ensures
            r.0 == self.stream(),
            r.1 == self.sink(),
    {
        (self.stream, self.sink)
    }
}

} // verus!
