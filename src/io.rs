use vstd::prelude::*;

use crate::future::poll_of;
use crate::poll::Poll;
use crate::waker::EmbrioWaker;

verus! {

/// The error type of a source or sink that cannot fail: their contracts never
/// return it.
#[derive(Debug, PartialEq, Eq, Structural)]
pub struct NoError;

/// What a read into a buffer of `len` bytes does with the buffer `b`, given
/// the bytes `d` that it read: they replace the front of the buffer.
pub open spec fn read_into(b: Seq<u8>, d: Seq<u8>) -> Seq<u8> {
    d + b.skip(d.len() as int)
}

/// A byte source.
///
/// `next_read(len)` is what the next read into a buffer of `len` bytes does
/// if it does not suspend: the bytes it reads (at most `len`; none at the end
/// of the input), or an error.
pub trait Read: Sized {
    type Error;

    /// The internal state is consistent.
    spec fn wf(&self) -> bool;

    /// What the next read returns, if it does not suspend.
    spec fn next_read(&self, len: nat) -> Option<Result<Seq<u8>, Self::Error>>;

    /// `after` is a state that the next read into a buffer of `len` bytes
    /// may leave.
    spec fn read_leaves(&self, len: nat, after: Self) -> bool;

    /// Reads into the front of `buf` and returns how many bytes it read.
    fn poll_read(&mut self, waker: &mut EmbrioWaker, buf: &mut [u8]) -> (r: Poll<Result<usize, Self::Error>>)
        requires
            old(self).wf(),
        ensures
            final(self).wf(),
            old(self).read_leaves(old(buf)@.len(), *final(self)),
            final(buf)@.len() == old(buf)@.len(),
            match old(self).next_read(old(buf)@.len()) {
                None => r is Pending && final(buf)@ == old(buf)@,
                Some(Err(e)) => r == Poll::<Result<usize, Self::Error>>::Ready(Err(e)) && final(buf)@ == old(buf)@,
                Some(Ok(d)) => {
                    &&& d.len() <= old(buf)@.len()
                    &&& r == Poll::<Result<usize, Self::Error>>::Ready(Ok(d.len() as usize))
                    &&& final(buf)@ == read_into(old(buf)@, d)
                },
            },
            old(waker).is_signalled() ==> final(waker).is_signalled(),
    ;
}

/// A byte sink.
///
/// `next_write(data)` is what the next write of `data` returns if it does
/// not suspend: how many bytes of the front of `data` it took (at most all of
/// them), or an error; likewise for flushing and closing.
pub trait Write: Sized {
    type Error;

    /// The internal state is consistent.
    spec fn wf(&self) -> bool;

    /// `after` is a state that the next write of `data` may leave.
    spec fn write_leaves(&self, data: Seq<u8>, after: Self) -> bool;

    /// Every byte the sink has taken so far, in order.
    spec fn taken(&self) -> Seq<u8>;

    /// What the next write of `data` returns, if it does not suspend.
    spec fn next_write(&self, data: Seq<u8>) -> Option<Result<usize, Self::Error>>;

    /// What the next flush returns, if it does not suspend.
    spec fn next_flush(&self) -> Option<Result<(), Self::Error>>;

    /// What the next close returns, if it does not suspend.
    spec fn next_close(&self) -> Option<Result<(), Self::Error>>;

    /// Writes from the front of `buf` and returns how many bytes it took.
    fn poll_write(&mut self, waker: &mut EmbrioWaker, buf: &[u8]) -> (r: Poll<Result<usize, Self::Error>>)
        requires
            old(self).wf(),
        ensures
            final(self).wf(),
            r == poll_of(old(self).next_write(buf@)),
            old(self).write_leaves(buf@, *final(self)),
            r matches Poll::Ready(Ok(n)) ==> n <= buf@.len() && final(self).taken() == old(self).taken() + buf@.take(
                n as int,
            ),
            !(r matches Poll::Ready(Ok(_))) ==> final(self).taken() == old(self).taken(),
            old(waker).is_signalled() ==> final(waker).is_signalled(),
    ;

    /// Pushes out what is buffered.
    fn poll_flush(&mut self, waker: &mut EmbrioWaker) -> (r: Poll<Result<(), Self::Error>>)
        requires
            old(self).wf(),
        ensures
            final(self).wf(),
            r == poll_of(old(self).next_flush()),
            final(self).taken() == old(self).taken(),
            old(waker).is_signalled() ==> final(waker).is_signalled(),
    ;

    /// Flushes and shuts the sink down.
    fn poll_close(&mut self, waker: &mut EmbrioWaker) -> (r: Poll<Result<(), Self::Error>>)
        requires
            old(self).wf(),
        ensures
            final(self).wf(),
            r == poll_of(old(self).next_close()),
            final(self).taken() == old(self).taken(),
            old(waker).is_signalled() ==> final(waker).is_signalled(),
    ;
}

/// A byte source with an internal buffer that can be looked at in place.
///
/// `buffered` is what has been read into the buffer and not consumed;
/// `next_fill` is what the next fill does if it does not suspend: the
/// buffered bytes it then offers (none at the end of the input), or an error.
pub trait BufRead: Read {
    /// The bytes in the buffer, not yet consumed.
    spec fn buffered(&self) -> Seq<u8>;

    /// What the next fill offers, if it does not suspend.
    spec fn next_fill(&self) -> Option<Result<Seq<u8>, Self::Error>>;

    /// `after` is a state that the next fill may leave.
    spec fn fill_leaves(&self, after: Self) -> bool;

    /// `after` is the state left by consuming `n` buffered bytes.
    spec fn consume_leaves(&self, n: nat, after: Self) -> bool;

    /// Every byte consumed so far, in order.
    spec fn consumed(&self) -> Seq<u8>;

    /// Fills the buffer if it can, and returns how many bytes it offers.
    fn poll_fill_buf(&mut self, waker: &mut EmbrioWaker) -> (r: Poll<Result<usize, Self::Error>>)
        requires
            old(self).wf(),
        ensures
            final(self).wf(),
            old(self).fill_leaves(*final(self)),
            final(self).consumed() == old(self).consumed(),
            match old(self).next_fill() {
                None => r is Pending,
                Some(Err(e)) => r == Poll::<Result<usize, Self::Error>>::Ready(Err(e)),
                Some(Ok(d)) => r == Poll::<Result<usize, Self::Error>>::Ready(Ok(d.len() as usize))
                    && final(self).buffered() == d,
            },
            old(waker).is_signalled() ==> final(waker).is_signalled(),
    ;

    /// The bytes in the buffer.
    fn available(&self) -> (r: &[u8])
        requires
            self.wf(),
        ensures
            r@ == self.buffered(),
    ;

    /// Marks the first `amount` buffered bytes as used.
    fn consume(&mut self, amount: usize)
        requires
            old(self).wf(),
            amount <= old(self).buffered().len(),
        ensures
            final(self).wf(),
            final(self).buffered() == old(self).buffered().skip(amount as int),
            old(self).consume_leaves(amount as nat, *final(self)),
            final(self).consumed() == old(self).consumed() + old(self).buffered().take(amount as int),
    ;
}

impl<'a> Read for &'a [u8] {
    type Error = NoError;

    open spec fn wf(&self) -> bool {
        true
    }

    /// The slice loses the bytes read from its front.
    open spec fn read_leaves(&self, len: nat, after: &'a [u8]) -> bool {
        after@ == (**self)@.skip(if len < (**self)@.len() { len as int } else { (**self)@.len() as int })
    }

    /// Reads as many bytes as fit, from the front of the slice.
    open spec fn next_read(&self, len: nat) -> Option<Result<Seq<u8>, NoError>> {
        Some(Ok((**self)@.take(if len < (**self)@.len() { len as int } else { (**self)@.len() as int })))
    }

    fn poll_read(&mut self, waker: &mut EmbrioWaker, buf: &mut [u8]) -> (r: Poll<Result<usize, NoError>>) {
        let len = if self.len() < buf.len() {
            self.len()
        } else {
            buf.len()
        };
        let (head, tail) = self.split_at(len);
        let mut i: usize = 0;
        while i < len
            invariant
                len <= buf@.len(),
                head@.len() == len,
                head@ == (**old(self))@.take(len as int),
                buf@.len() == old(buf)@.len(),
                0 <= i <= len,
                forall|j: int| 0 <= j < i ==> buf@[j] == head@[j],
                forall|j: int| i <= j < buf@.len() ==> buf@[j] == old(buf)@[j],
            decreases len - i,
        {
            buf[i] = head[i];
            i = i + 1;
        }
        assert(buf@ =~= read_into(old(buf)@, head@));
        *self = tail;
        Poll::Ready(Ok(len))
    }
}

/// One advance of flushing `this`.
pub fn flush<W: Write>(this: &mut W, waker: &mut EmbrioWaker) -> (r: Poll<Result<(), W::Error>>)
    requires
        old(this).wf(),
    ensures
        final(this).wf(),
        r == poll_of(old(this).next_flush()),
        old(waker).is_signalled() ==> final(waker).is_signalled(),
{
    this.poll_flush(waker)
}

/// One advance of closing `this`.
pub fn close<W: Write>(this: &mut W, waker: &mut EmbrioWaker) -> (r: Poll<Result<(), W::Error>>)
    requires
        old(this).wf(),
    ensures
        final(this).wf(),
        r == poll_of(old(this).next_close()),
        old(waker).is_signalled() ==> final(waker).is_signalled(),
{
    this.poll_close(waker)
}

} // verus!
