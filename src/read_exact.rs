use vstd::prelude::*;

use crate::io::Read;
use crate::poll::Poll;
use crate::waker::EmbrioWaker;

verus! {

/// Why filling a whole buffer failed.
#[derive(Debug, PartialEq, Eq, Structural)]
pub enum Error<T> {
    /// The input ended before the buffer was full.
    UnexpectedEof,
    /// The source failed.
    Other(T),
}

impl<T> From<T> for Error<T> {
    fn from(err: T) -> (r: Error<T>)
        ensures
            r == Error::Other(err),
    {
        Error::Other(err)
    }
}

impl<T> vstd::std_specs::convert::FromSpecImpl<T> for Error<T> {
    open spec fn obeys_from_spec() -> bool {
        true
    }

    open spec fn from_spec(v: T) -> Error<T> {
        Error::Other(v)
    }
}

/// Copies `data` into `buf` at `at`.
pub(crate) fn copy_into(buf: &mut [u8], at: usize, data: &[u8], n: usize)
    requires
        n <= data@.len(),
        at + n <= old(buf)@.len(),
    ensures
        final(buf)@ == old(buf)@.take(at as int) + data@.take(n as int) + old(buf)@.skip(at + n),
{
    let blen = buf.len();
    let mut i: usize = 0;
    while i < n
        invariant
            blen == buf@.len(),
            n <= data@.len(),
            at + n <= buf@.len(),
            buf@.len() == old(buf)@.len(),
            0 <= i <= n,
            forall|j: int| 0 <= j < at ==> buf@[j] == old(buf)@[j],
            forall|j: int| 0 <= j < i ==> buf@[at + j] == data@[j],
            forall|j: int| at + i <= j < buf@.len() ==> buf@[j] == old(buf)@[j],
        decreases n - i,
    {
        buf[at + i] = data[i];
        i = i + 1;
    }
    assert(buf@ =~= old(buf)@.take(at as int) + data@.take(n as int) + old(buf)@.skip(at + n));
}

/// One advance of filling all of `buf` from `this`, from `*position` on;
/// `*position` keeps the progress from one advance to the next.
///
/// It reads until the buffer is full, the source suspends or fails, or the
/// input ends. Bytes before `*position` are left as they are. The first read
/// asks for the rest of the buffer, and its outcome decides as `next_read`
/// says.
pub fn read_exact<R: Read>(
    this: &mut R,
    waker: &mut EmbrioWaker,
    buf: &mut [u8],
    position: &mut usize,
) -> (r: Poll<Result<(), Error<R::Error>>>)
    requires
        old(this).wf(),
        *old(position) <= old(buf)@.len(),
    ensures
        final(this).wf(),
        final(buf)@.len() == old(buf)@.len(),
        final(buf)@.take(*old(position) as int) == old(buf)@.take(*old(position) as int),
        *old(position) <= *final(position) <= old(buf)@.len(),
        r == Poll::<Result<(), Error<R::Error>>>::Ready(Ok(())) <==> *final(position) == old(buf)@.len(),
        r matches Poll::Ready(Err(Error::UnexpectedEof)) ==> *final(position) < old(buf)@.len(),
        r is Pending ==> *final(position) < old(buf)@.len(),
        r is Pending ==> exists|mid: R| #[trigger]
            mid.read_leaves((old(buf)@.len() - *final(position)) as nat, *final(this)) && mid.next_read(
                (old(buf)@.len() - *final(position)) as nat,
            ) is None,
        r matches Poll::Ready(Err(Error::UnexpectedEof)) ==> exists|mid: R| #[trigger]
            mid.read_leaves((old(buf)@.len() - *final(position)) as nat, *final(this)) && mid.next_read(
                (old(buf)@.len() - *final(position)) as nat,
            ) == Some(Ok::<Seq<u8>, R::Error>(Seq::empty())),
        r matches Poll::Ready(Err(Error::Other(e))) ==> exists|mid: R| #[trigger]
            mid.read_leaves((old(buf)@.len() - *final(position)) as nat, *final(this)) && mid.next_read(
                (old(buf)@.len() - *final(position)) as nat,
            ) == Some(Err::<Seq<u8>, R::Error>(e)),
        *old(position) < old(buf)@.len() ==> match old(this).next_read((old(buf)@.len() - *old(position)) as nat) {
            None => r is Pending && *final(position) == *old(position),
            Some(Err(e)) => r == Poll::<Result<(), Error<R::Error>>>::Ready(Err(Error::Other(e))),
            Some(Ok(d)) => if d.len() == 0 {
                r == Poll::<Result<(), Error<R::Error>>>::Ready(Err(Error::UnexpectedEof))
            } else {
                &&& *final(position) >= *old(position) + d.len()
                &&& final(buf)@.subrange(*old(position) as int, *old(position) + d.len()) == d
            },
        },
        old(waker).is_signalled() ==> final(waker).is_signalled(),
{
    let len = buf.len();
    while *position < len
        invariant
            this.wf(),
            len == buf@.len(),
            buf@.len() == old(buf)@.len(),
            buf@.take(*old(position) as int) == old(buf)@.take(*old(position) as int),
            *old(position) <= *position <= len,
            old(waker).is_signalled() ==> waker.is_signalled(),
            *position == *old(position) ==> *this == *old(this),
            *position > *old(position) ==> (old(this).next_read((len - *old(position)) as nat) matches Some(Ok(d))
                && d.len() > 0 && *position >= *old(position) + d.len()
                && buf@.subrange(*old(position) as int, *old(position) + d.len()) == d),
        ensures
            this.wf(),
            *position == len,
            buf@.len() == old(buf)@.len(),
            buf@.take(*old(position) as int) == old(buf)@.take(*old(position) as int),
            old(waker).is_signalled() ==> waker.is_signalled(),
            *position > *old(position) ==> (old(this).next_read((len - *old(position)) as nat) matches Some(Ok(d))
                && d.len() > 0 && *position >= *old(position) + d.len()
                && buf@.subrange(*old(position) as int, *old(position) + d.len()) == d),
        decreases len - *position,
    {
        let at = *position;
        let room = len - at;
        let mut scratch: Vec<u8> = vec![0u8; room];
        let ghost before = *this;
        match this.poll_read(waker, scratch.as_mut_slice()) {
            Poll::Pending => {
                assert(before.read_leaves((old(buf)@.len() - *position) as nat, *this));
                return Poll::Pending;
            },
            Poll::Ready(Err(e)) => {
                assert(before.read_leaves((old(buf)@.len() - *position) as nat, *this));
                return Poll::Ready(Err(Error::Other(e)));
            },
            Poll::Ready(Ok(amount)) => {
                if amount == 0 {
                    assert(before.read_leaves((old(buf)@.len() - *position) as nat, *this));
                    proof {
                        match before.next_read(room as nat) {
                            Some(Ok(d)) => {
                                assert(d =~= Seq::<u8>::empty());
                            },
                            _ => {},
                        }
                    }
                    return Poll::Ready(Err(Error::UnexpectedEof));
                }
                let ghost pre = buf@;
                copy_into(buf, at, scratch.as_slice(), amount);
                assert(buf@.take(*old(position) as int) =~= pre.take(*old(position) as int));
                proof {
                    if at > *old(position) {
                        assert(buf@.subrange(*old(position) as int, at as int) =~= pre.subrange(*old(position) as int, at as int));
                    } else {
                        assert(buf@.subrange(at as int, at + amount) =~= scratch@.take(amount as int));
                    }
                }
                *position = at + amount;
            },
        }
    }
    Poll::Ready(Ok(()))
}

} // verus!
