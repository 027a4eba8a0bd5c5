use vstd::prelude::*;

use crate::io::Write;
use crate::poll::Poll;
use crate::waker::EmbrioWaker;

verus! {

/// Why writing a whole buffer failed.
#[derive(Debug, PartialEq, Eq, Structural)]
pub enum Error<T> {
    /// The sink took no byte while bytes were left.
    WriteZero,
    /// The sink failed.
    Other(T),
}

impl<T> From<T> for Error<T> {
    fn from(err: T) -> (r: Error<T>)
        ensures
            r == Error::Other(err),
    {
        Error::Other(err)
    }
}

impl<T> vstd::std_specs::convert::FromSpecImpl<T> for Error<T> {
    open spec fn obeys_from_spec() -> bool {
        true
    }

    open spec fn from_spec(v: T) -> Error<T> {
        Error::Other(v)
    }
}

/// One advance of writing all of `buf` into `this`, from `*position` on;
/// `*position` keeps the progress from one advance to the next.
///
/// It writes until the whole buffer is taken, the sink suspends, fails, or
/// takes nothing. The first write is handed `buf` from `*position` on, and its
/// outcome decides as `next_write` says.
pub fn write_all<W: Write>(
    this: &mut W,
    waker: &mut EmbrioWaker,
    buf: &[u8],
    position: &mut usize,
) -> (r: Poll<Result<(), Error<W::Error>>>)
    requires
        old(this).wf(),
        *old(position) <= buf@.len(),
    ensures
        final(this).wf(),
        *old(position) <= *final(position) <= buf@.len(),
        r == Poll::<Result<(), Error<W::Error>>>::Ready(Ok(())) <==> *final(position) == buf@.len(),
        r matches Poll::Ready(Err(Error::WriteZero)) ==> *final(position) < buf@.len(),
        r is Pending ==> *final(position) < buf@.len(),
        final(this).taken() == old(this).taken() + buf@.subrange(*old(position) as int, *final(position) as int),
        r is Pending ==> exists|mid: W| #[trigger]
            mid.write_leaves(buf@.skip(*final(position) as int), *final(this)) && mid.next_write(
                buf@.skip(*final(position) as int),
            ) is None,
        r matches Poll::Ready(Err(Error::WriteZero)) ==> exists|mid: W| #[trigger]
            mid.write_leaves(buf@.skip(*final(position) as int), *final(this)) && mid.next_write(
                buf@.skip(*final(position) as int),
            ) == Some(Ok::<usize, W::Error>(0)),
        r matches Poll::Ready(Err(Error::Other(e))) ==> exists|mid: W| #[trigger]
            mid.write_leaves(buf@.skip(*final(position) as int), *final(this)) && mid.next_write(
                buf@.skip(*final(position) as int),
            ) == Some(Err::<usize, W::Error>(e)),
        *old(position) < buf@.len() ==> match old(this).next_write(buf@.skip(*old(position) as int)) {
            None => r is Pending && *final(position) == *old(position),
            Some(Err(e)) => r == Poll::<Result<(), Error<W::Error>>>::Ready(Err(Error::Other(e))),
            Some(Ok(n)) => if n == 0 {
                r == Poll::<Result<(), Error<W::Error>>>::Ready(Err(Error::WriteZero))
            } else {
                *final(position) >= *old(position) + n
            },
        },
        old(waker).is_signalled() ==> final(waker).is_signalled(),
{
    while *position < buf.len()
        invariant
            this.wf(),
            *old(position) <= *position <= buf@.len(),
            old(waker).is_signalled() ==> waker.is_signalled(),
            this.taken() == old(this).taken() + buf@.subrange(*old(position) as int, *position as int),
            *position == *old(position) ==> *this == *old(this),
            *position > *old(position) ==> (old(this).next_write(buf@.skip(*old(position) as int)) matches Some(Ok(n))
                && n > 0 && *position >= *old(position) + n),
        ensures
            this.wf(),
            *position == buf@.len(),
            this.taken() == old(this).taken() + buf@.subrange(*old(position) as int, *position as int),
            old(waker).is_signalled() ==> waker.is_signalled(),
        decreases buf@.len() - *position,
    {
        let rest = vstd::slice::slice_subrange(buf, *position, buf.len());
        assert(rest@ =~= buf@.skip(*position as int));
        let ghost before = *this;
        let ghost at = *position;
        match this.poll_write(waker, rest) {
            Poll::Pending => {
                assert(before.write_leaves(buf@.skip(*position as int), *this));
                return Poll::Pending;
            },
            Poll::Ready(Err(e)) => {
                assert(before.write_leaves(buf@.skip(*position as int), *this));
                return Poll::Ready(Err(Error::Other(e)));
            },
            Poll::Ready(Ok(amount)) => {
                if amount == 0 {
                    assert(before.write_leaves(buf@.skip(*position as int), *this));
                    assert(this.taken() =~= before.taken());
                    return Poll::Ready(Err(Error::WriteZero));
                }
                *position = *position + amount;
                assert(this.taken() =~= old(this).taken() + buf@.subrange(*old(position) as int, *position as int));
            },
        }
    }
    Poll::Ready(Ok(()))
}

} // verus!
