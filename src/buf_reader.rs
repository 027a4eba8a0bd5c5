use vstd::prelude::*;

use crate::io::{read_into, BufRead, Read};
use crate::poll::Poll;
use crate::waker::EmbrioWaker;

verus! {

/// A byte source with a fixed buffer in front of another source.
///
/// The inner source reads into the room after the buffered bytes; when every
/// buffered byte has been consumed, the buffer starts again from its front.
pub struct BufReader<R> {
    reader: R,
    buffer: Vec<u8>,
    scratch: Vec<u8>,
    left: usize,
    right: usize,
    consumed: Ghost<Seq<u8>>,
}

/// The smaller of two lengths.
pub open spec fn min_len(a: nat, b: nat) -> nat {
    if a < b {
        a
    } else {
        b
    }
}

impl<R: Read> BufReader<R> {
    /// The source behind the buffer.
    pub closed spec fn reader(&self) -> R {
        self.reader
    }

    /// The size of the buffer.
    pub closed spec fn capacity(&self) -> nat {
        self.buffer@.len()
    }

    /// How much room the buffer has after what it holds.
    pub closed spec fn room(&self) -> nat {
        (self.buffer@.len() - self.right) as nat
    }

    /// The bytes in the buffer, not yet consumed.
    pub closed spec fn held(&self) -> Seq<u8> {
        self.buffer@.subrange(self.left as int, self.right as int)
    }

    /// The internal state is consistent.
    pub closed spec fn inv(&self) -> bool {
        &&& self.reader.wf()
        &&& self.left <= self.right <= self.buffer@.len()
        &&& self.scratch@.len() == self.buffer@.len()
        &&& self.left == self.right ==> self.right == 0
    }

    /// What a fill does: a read into the room after the buffered bytes; what
    /// it reads is added to them. At the end of the input that is nothing,
    /// and with nothing buffered the fill offers no bytes. When the read
    /// suspends, the fill suspends too, unless bytes are buffered: it offers
    /// those.
    pub open spec fn fill_outcome(&self) -> Option<Result<Seq<u8>, R::Error>> {
        match self.reader().next_read(self.room()) {
            Some(Ok(d)) => Some(Ok(self.held() + d)),
            Some(Err(e)) => Some(Err(e)),
            None => if self.held().len() == 0 {
                None
            } else {
                Some(Ok(self.held()))
            },
        }
    }

    /// `after` is a state that a fill may leave: the inner source as its
    /// read leaves it, the bytes read added to the buffered ones.
    pub open spec fn fill_state(&self, after: BufReader<R>) -> bool {
        &&& after.capacity() == self.capacity()
        &&& self.reader().read_leaves(self.room(), after.reader())
        &&& match self.reader().next_read(self.room()) {
            Some(Ok(d)) => after.held() == self.held() + d && after.room() == self.room() - d.len(),
            _ => after.held() == self.held() && after.room() == self.room(),
        }
    }

    /// `after` is the state left by consuming `n` buffered bytes: once all
    /// are consumed, the whole buffer is room again.
    pub open spec fn consume_state(&self, n: nat, after: BufReader<R>) -> bool {
        &&& after.capacity() == self.capacity()
        &&& after.reader() == self.reader()
        &&& after.held() == self.held().skip(n as int)
        &&& after.room() == if n == self.held().len() {
            self.capacity()
        } else {
            self.room()
        }
    }

    /// Puts the buffer `buffer`, empty, in front of `reader`.
    pub fn new(reader: R, buffer: Vec<u8>) -> (r: BufReader<R>)
        requires
            reader.wf(),
        ensures
            r.inv(),
            r.reader() == reader,
            r.held() == Seq::<u8>::empty(),
            r.capacity() == buffer@.len(),
            r.room() == buffer@.len(),
    {
        let scratch = vec![0u8; buffer.len()];
        let r = BufReader { reader, buffer, scratch, left: 0, right: 0, consumed: Ghost(Seq::empty()) };
        assert(r.held() =~= Seq::<u8>::empty());
        r
    }
}

impl<R: Read> Read for BufReader<R> {
    type Error = R::Error;

    open spec fn wf(&self) -> bool {
        self.inv()
    }

    /// Copies from what a fill offers, as much as fits.
    open spec fn next_read(&self, len: nat) -> Option<Result<Seq<u8>, R::Error>> {
        match self.fill_outcome() {
            None => None,
            Some(Err(e)) => Some(Err(e)),
            Some(Ok(d)) => Some(Ok(d.take(min_len(len, d.len()) as int))),
        }
    }

    /// A fill, then the bytes copied out are consumed.
    open spec fn read_leaves(&self, len: nat, after: BufReader<R>) -> bool {
        match self.fill_outcome() {
            Some(Ok(d)) => exists|mid: BufReader<R>| #[trigger]
                self.fill_state(mid) && mid.consume_state(min_len(len, d.len()), after),
            _ => self.fill_state(after),
        }
    }

    fn poll_read(&mut self, waker: &mut EmbrioWaker, buf: &mut [u8]) -> (r: Poll<Result<usize, R::Error>>) {
        match self.poll_fill_buf(waker) {
            Poll::Pending => Poll::Pending,
            Poll::Ready(Err(e)) => Poll::Ready(Err(e)),
            Poll::Ready(Ok(available)) => {
                let ghost mid = *self;
                let n = if buf.len() < available {
                    buf.len()
                } else {
                    available
                };
                let left = self.left;
                let mut i: usize = 0;
                while i < n
                    invariant
                        *self == mid,
                        self.inv(),
                        n <= buf@.len(),
                        left == self.left,
                        left + n <= self.right,
                        buf@.len() == old(buf)@.len(),
                        0 <= i <= n,
                        forall|j: int| 0 <= j < i ==> buf@[j] == self.buffer@[left + j],
                        forall|j: int| i <= j < buf@.len() ==> buf@[j] == old(buf)@[j],
                    decreases n - i,
                {
                    buf[i] = self.buffer[left + i];
                    i = i + 1;
                }
                assert(buf@ =~= read_into(old(buf)@, self.buffered().take(n as int)));
                self.consume(n);
                assert(old(self).fill_state(mid) && mid.consume_state(n as nat, *self));
                Poll::Ready(Ok(n))
            },
        }
    }
}

impl<R: Read> BufRead for BufReader<R> {
    open spec fn buffered(&self) -> Seq<u8> {
        self.held()
    }

    open spec fn next_fill(&self) -> Option<Result<Seq<u8>, R::Error>> {
        self.fill_outcome()
    }

    open spec fn fill_leaves(&self, after: BufReader<R>) -> bool {
        self.fill_state(after)
    }

    open spec fn consume_leaves(&self, n: nat, after: BufReader<R>) -> bool {
        self.consume_state(n, after)
    }

    closed spec fn consumed(&self) -> Seq<u8> {
        self.consumed@
    }

    fn poll_fill_buf(&mut self, waker: &mut EmbrioWaker) -> (r: Poll<Result<usize, R::Error>>) {
        let cap = self.buffer.len();
        let room = cap - self.right;
        self.scratch.truncate(room);
        let polled = self.reader.poll_read(waker, self.scratch.as_mut_slice());
        let ghost rd = self.reader;
        let ghost outcome = old(self).reader.next_read(room as nat);
        let result = match polled {
            Poll::Ready(Ok(amount)) => {
                let right = self.right;
                let ghost d = self.scratch@.take(amount as int);
                proof {
                    match outcome {
                        Some(Ok(d0)) => {
                            assert(d =~= d0);
                        },
                        _ => {},
                    }
                }
                let mut i: usize = 0;
                while i < amount
                    invariant
                        amount <= room,
                        self.reader.wf(),
                        self.reader == rd,
                        right + room == self.buffer@.len(),
                        self.buffer@.len() <= usize::MAX,
                        right == self.right,
                        self.left <= self.right <= self.buffer@.len(),
                        self.buffer@.len() == old(self).buffer@.len(),
                        self.left == old(self).left,
                        self.consumed == old(self).consumed,
                        self.scratch@.len() == room,
                        d == self.scratch@.take(amount as int),
                        0 <= i <= amount,
                        forall|j: int| 0 <= j < right ==> self.buffer@[j] == old(self).buffer@[j],
                        forall|j: int| 0 <= j < i ==> self.buffer@[right + j] == self.scratch@[j],
                    decreases amount - i,
                {
                    self.buffer.set(right + i, self.scratch[i]);
                    i = i + 1;
                }
                self.right = right + amount;
                assert(self.held() =~= old(self).held() + d);
                Poll::Ready(Ok(self.right - self.left))
            },
            Poll::Ready(Err(e)) => Poll::Ready(Err(e)),
            Poll::Pending => {
                if self.left == self.right {
                    Poll::Pending
                } else {
                    Poll::Ready(Ok(self.right - self.left))
                }
            },
        };
        let ghost pre = *self;
        let mut k = self.scratch.len();
        while k < cap
            invariant
                self.reader == pre.reader,
                self.buffer == pre.buffer,
                self.left == pre.left,
                self.right == pre.right,
                self.consumed == pre.consumed,
                k == self.scratch@.len(),
                k <= cap,
                cap == self.buffer@.len(),
            decreases cap - k,
        {
            self.scratch.push(0);
            k = k + 1;
        }
        result
    }

    fn available(&self) -> (r: &[u8]) {
        vstd::slice::slice_subrange(self.buffer.as_slice(), self.left, self.right)
    }

    fn consume(&mut self, amount: usize) {
        self.left = self.left + amount;
        if self.left == self.right {
            self.left = 0;
            self.right = 0;
        }
        assert(self.held() =~= old(self).held().skip(amount as int));
        proof {
            self.consumed@ = self.consumed@ + old(self).held().take(amount as int);
        }
    }
}

} // verus!
