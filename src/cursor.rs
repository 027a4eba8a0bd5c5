use vstd::prelude::*;
use vstd::string::StringSliceAdditionalSpecFns;

use crate::io::{NoError, Write};
use crate::poll::Poll;
use crate::waker::EmbrioWaker;

verus! {

/// A fixed, non-growing in-memory buffer that is written from the front.
pub struct Cursor {
    inner: Vec<u8>,
    position: usize,
    taken: Ghost<Seq<u8>>,
}

/// How many of `n` bytes fit into `len` bytes from `position` on.
pub open spec fn fitting(len: nat, position: nat, n: nat) -> nat {
    if position >= len {
        0
    } else if n < len - position {
        n
    } else {
        (len - position) as nat
    }
}

/// The buffer `b` after `data` has been written at `position`, as far as it
/// fits.
pub open spec fn written(b: Seq<u8>, position: nat, data: Seq<u8>) -> Seq<u8> {
    let n = fitting(b.len(), position, data.len());
    if position >= b.len() {
        b
    } else {
        b.take(position as int) + data.take(n as int) + b.skip((position + n) as int)
    }
}

impl Cursor {
    /// The buffer.
    pub closed spec fn contents(&self) -> Seq<u8> {
        self.inner@
    }

    /// The bytes taken through [`Write`], in order.
    pub closed spec fn history(&self) -> Seq<u8> {
        self.taken@
    }

    /// Where the next write starts.
    pub closed spec fn pos(&self) -> nat {
        self.position as nat
    }

    /// A cursor at the start of `inner`.
    pub fn new(inner: Vec<u8>) -> (r: Cursor)
        ensures
            r.contents() == inner@,
            r.pos() == 0,
    {
        Cursor { inner, position: 0, taken: Ghost(Seq::empty()) }
    }

    /// The buffer, given back.
    pub fn into_inner(self) -> (r: Vec<u8>)
        ensures
            r@ == self.contents(),
    {
        self.inner
    }

    /// The buffer.
    pub fn get_ref(&self) -> (r: &Vec<u8>)
        ensures
            r@ == self.contents(),
    {
        &self.inner
    }

    /// The buffer, for changing in place.
    pub fn get_mut(&mut self) -> (r: &mut Vec<u8>)
        ensures
            r@ == old(self).contents(),
            final(self).contents() == final(r)@,
            final(self).pos() == old(self).pos(),
    {
        &mut self.inner
    }

    /// Where the next write starts.
    pub fn position(&self) -> (r: usize)
        ensures
            r == self.pos(),
    {
        self.position
    }

    /// Copies as much of `buf` as fits after the position, moves the
    /// position past it, and returns how many bytes it copied.
    pub fn write(&mut self, buf: &[u8]) -> (r: usize)
        ensures
            r == fitting(old(self).contents().len(), old(self).pos(), buf@.len()),
            final(self).contents() == written(old(self).contents(), old(self).pos(), buf@),
            final(self).pos() == old(self).pos() + r,
            final(self).history() == old(self).history(),
    {
        let len = self.inner.len();
        let n: usize = if self.position >= len {
            0
        } else if buf.len() < len - self.position {
            buf.len()
        } else {
            len - self.position
        };
        let start = self.position;
        let mut i: usize = 0;
        while i < n
            invariant
                start == old(self).position,
                self.taken == old(self).taken,
                n == fitting(len as nat, start as nat, buf@.len()),
                len == old(self).inner@.len(),
                self.inner@.len() == len,
                n == 0 || start + n <= len,
                n <= buf@.len(),
                0 <= i <= n,
                forall|j: int| 0 <= j < start ==> self.inner@[j] == old(self).inner@[j],
                forall|j: int| start <= j < start + i ==> self.inner@[j] == buf@[j - start],
                forall|j: int| start + i <= j < len ==> self.inner@[j] == old(self).inner@[j],
            decreases n - i,
        {
            self.inner.set(start + i, buf[i]);
            i = i + 1;
        }
        assert(self.inner@ =~= written(old(self).inner@, start as nat, buf@));
        self.position = start + n;
        n
    }

    /// Writes the bytes of `s`, which must fit after the position.
    pub fn write_str(&mut self, s: &str)
        requires
            old(self).pos() + s.spec_bytes().len() <= old(self).contents().len(),
        ensures
            final(self).contents() == written(old(self).contents(), old(self).pos(), s.spec_bytes()),
            final(self).pos() == old(self).pos() + s.spec_bytes().len(),
    {
        self.write(s.as_bytes());
    }
}

impl Write for Cursor {
    type Error = NoError;

    open spec fn wf(&self) -> bool {
        true
    }

    open spec fn next_write(&self, data: Seq<u8>) -> Option<Result<usize, NoError>> {
        Some(Ok(fitting(self.contents().len(), self.pos(), data.len()) as usize))
    }

    closed spec fn taken(&self) -> Seq<u8> {
        self.history()
    }

    /// What fits is copied after the position, the rest of the buffer is
    /// left as it is, and the position moves past the copy.
    open spec fn write_leaves(&self, data: Seq<u8>, after: Cursor) -> bool {
        &&& after.contents() == written(self.contents(), self.pos(), data)
        &&& after.pos() == self.pos() + fitting(self.contents().len(), self.pos(), data.len())
    }

    open spec fn next_flush(&self) -> Option<Result<(), NoError>> {
        Some(Ok(()))
    }

    open spec fn next_close(&self) -> Option<Result<(), NoError>> {
        Some(Ok(()))
    }

    fn poll_write(&mut self, waker: &mut EmbrioWaker, buf: &[u8]) -> (r: Poll<Result<usize, NoError>>) {
        let n = self.write(buf);
        proof {
            self.taken@ = self.taken@ + buf@.take(n as int);
        }
        Poll::Ready(Ok(n))
    }

    fn poll_flush(&mut self, waker: &mut EmbrioWaker) -> (r: Poll<Result<(), NoError>>) {
        Poll::Ready(Ok(()))
    }

    fn poll_close(&mut self, waker: &mut EmbrioWaker) -> (r: Poll<Result<(), NoError>>) {
        Poll::Ready(Ok(()))
    }
}

/// A sink that takes every byte and keeps none.
pub struct Void {
    _marker: (),
    taken: Ghost<Seq<u8>>,
}

/// A sink that discards everything written to it.
pub fn void() -> (r: Void)
    ensures
        r.wf(),
{
    Void { _marker: (), taken: Ghost(Seq::empty()) }
}

impl Write for Void {
    type Error = NoError;

    open spec fn wf(&self) -> bool {
        true
    }

    open spec fn next_write(&self, data: Seq<u8>) -> Option<Result<usize, NoError>> {
        Some(Ok(data.len() as usize))
    }

    open spec fn write_leaves(&self, data: Seq<u8>, after: Self) -> bool {
        true
    }

    closed spec fn taken(&self) -> Seq<u8> {
        self.taken@
    }

    open spec fn next_flush(&self) -> Option<Result<(), NoError>> {
        Some(Ok(()))
    }

    open spec fn next_close(&self) -> Option<Result<(), NoError>> {
        Some(Ok(()))
    }

    fn poll_write(&mut self, waker: &mut EmbrioWaker, buf: &[u8]) -> (r: Poll<Result<usize, NoError>>) {
        proof {
            self.taken@ = self.taken@ + buf@;
            assert(buf@.take(buf@.len() as int) =~= buf@);
        }
        Poll::Ready(Ok(buf.len()))
    }

    fn poll_flush(&mut self, waker: &mut EmbrioWaker) -> (r: Poll<Result<(), NoError>>) {
        Poll::Ready(Ok(()))
    }

    fn poll_close(&mut self, waker: &mut EmbrioWaker) -> (r: Poll<Result<(), NoError>>) {
        Poll::Ready(Ok(()))
    }
}

/// A sink that takes every byte and keeps none, as [`Void`] does.
pub struct Sink {
    _marker: (),
    taken: Ghost<Seq<u8>>,
}

/// A sink that discards everything written to it.
pub fn sink() -> (r: Sink)
    ensures
        r.wf(),
{
    Sink { _marker: (), taken: Ghost(Seq::empty()) }
}

impl Write for Sink {
    type Error = NoError;

    open spec fn wf(&self) -> bool {
        true
    }

    open spec fn next_write(&self, data: Seq<u8>) -> Option<Result<usize, NoError>> {
        Some(Ok(data.len() as usize))
    }

    open spec fn write_leaves(&self, data: Seq<u8>, after: Self) -> bool {
        true
    }

    closed spec fn taken(&self) -> Seq<u8> {
        self.taken@
    }

    open spec fn next_flush(&self) -> Option<Result<(), NoError>> {
        Some(Ok(()))
    }

    open spec fn next_close(&self) -> Option<Result<(), NoError>> {
        Some(Ok(()))
    }

    fn poll_write(&mut self, waker: &mut EmbrioWaker, buf: &[u8]) -> (r: Poll<Result<usize, NoError>>) {
        proof {
            self.taken@ = self.taken@ + buf@;
            assert(buf@.take(buf@.len() as int) =~= buf@);
        }
        Poll::Ready(Ok(buf.len()))
    }

    fn poll_flush(&mut self, waker: &mut EmbrioWaker) -> (r: Poll<Result<(), NoError>>) {
        Poll::Ready(Ok(()))
    }

    fn poll_close(&mut self, waker: &mut EmbrioWaker) -> (r: Poll<Result<(), NoError>>) {
        Poll::Ready(Ok(()))
    }
}

} // verus!
