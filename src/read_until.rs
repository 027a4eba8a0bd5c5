use vstd::prelude::*;

use crate::io::BufRead;
use crate::poll::Poll;
use crate::read_exact::copy_into;
use crate::waker::EmbrioWaker;

verus! {

/// Relies on `memchr::memchr`: the index of the first occurrence of `needle`
/// in `haystack`, or `None` when there is none.
#[verifier::external_body]
fn find_byte(needle: u8, haystack: &[u8]) -> (r: Option<usize>)
    ensures
        match r {
            Some(i) => {
                &&& i < haystack@.len()
                &&& haystack@[i as int] == needle
                &&& forall|j: int| 0 <= j < i ==> haystack@[j] != needle
            },
            None => forall|j: int| 0 <= j < haystack@.len() ==> haystack@[j] != needle,
        },
{
    memchr::memchr(needle, haystack)
}

/// The smaller of two lengths.
pub open spec fn smaller(a: int, b: int) -> int {
    if a < b {
        a
    } else {
        b
    }
}

/// One advance of copying bytes from `this` into `buf`, from `*position` on,
/// up to and including the first `byte`; `*position` keeps the progress from
/// one advance to the next.
///
/// It completes with `Ok(Ok(p))`, `p` the position after the copied bytes,
/// when it copied `byte` or the input ended; with `Ok(Err(len))` when `buf`
/// (of `len` bytes) filled up without `byte`; with the source's error when
/// the source fails. Bytes before `*position` are left as they are. The
/// outcome of the first fill decides as the contract below says.
#[verifier::rlimit(80)]
pub fn read_until<R: BufRead>(
    this: &mut R,
    waker: &mut EmbrioWaker,
    byte: u8,
    buf: &mut [u8],
    position: &mut usize,
) -> (r: Poll<Result<Result<usize, usize>, R::Error>>)
    requires
        old(this).wf(),
        *old(position) <= old(buf)@.len(),
    ensures
        final(this).wf(),
        final(buf)@.len() == old(buf)@.len(),
        final(buf)@.take(*old(position) as int) == old(buf)@.take(*old(position) as int),
        *old(position) <= *final(position) <= old(buf)@.len(),
        r is Pending ==> *final(position) < old(buf)@.len(),
        r matches Poll::Ready(Ok(Ok(p))) ==> p == *final(position),
        final(this).consumed() == old(this).consumed() + final(buf)@.subrange(
            *old(position) as int,
            *final(position) as int,
        ),
        r is Pending ==> exists|mid: R| #[trigger] mid.fill_leaves(*final(this)) && mid.next_fill() is None,
        r matches Poll::Ready(Err(e)) ==> exists|mid: R| #[trigger]
            mid.fill_leaves(*final(this)) && mid.next_fill() == Some(Err::<Seq<u8>, R::Error>(e)),
        r matches Poll::Ready(Ok(Ok(p))) && !(p > *old(position) && final(buf)@[p - 1] == byte) ==> exists|
            mid: R,
            mid2: R,
        |
            #![trigger mid.fill_leaves(mid2), mid2.consume_leaves(0, *final(this))]
            mid.fill_leaves(mid2) && mid.next_fill() == Some(Ok::<Seq<u8>, R::Error>(Seq::empty()))
                && mid2.consume_leaves(0, *final(this)),
        r matches Poll::Ready(Ok(Err(l))) ==> l == old(buf)@.len() && *final(position) == l,
        *final(position) == old(buf)@.len() && (*old(position) == old(buf)@.len() || final(buf)@[old(buf)@.len() - 1]
            != byte) ==> r == Poll::<Result<Result<usize, usize>, R::Error>>::Ready(Ok(Err(old(buf)@.len() as usize))),
        forall|j: int|
            *old(position) <= j < *final(position) && #[trigger] final(buf)@[j] == byte ==> j == *final(position) - 1
                && r matches Poll::Ready(Ok(Ok(_))),
        *old(position) < old(buf)@.len() ==> match old(this).next_fill() {
            None => r is Pending && *final(position) == *old(position),
            Some(Err(e)) => r == Poll::<Result<Result<usize, usize>, R::Error>>::Ready(Err(e)),
            Some(Ok(d)) => {
                let limit = smaller(d.len() as int, old(buf)@.len() - *old(position));
                &&& d.len() == 0 ==> r == Poll::<Result<Result<usize, usize>, R::Error>>::Ready(
                    Ok(Ok(*old(position))),
                )
                &&& forall|i: int|
                    0 <= i < limit && d[i] == byte && (forall|j: int| 0 <= j < i ==> d[j] != byte)
                        ==> r == Poll::<Result<Result<usize, usize>, R::Error>>::Ready(
                        Ok(Ok((*old(position) + i + 1) as usize)),
                    ) && final(buf)@.subrange(*old(position) as int, *old(position) + i + 1) == d.take(i + 1)
                &&& (forall|j: int| 0 <= j < limit ==> d[j] != byte) ==> *final(position) >= *old(position) + limit
                    && final(buf)@.subrange(*old(position) as int, *old(position) + limit) == d.take(limit)
            },
        },
        old(waker).is_signalled() ==> final(waker).is_signalled(),
{
    let len = buf.len();
    while *position < len
        invariant
            this.wf(),
            len == buf@.len(),
            buf@.len() == old(buf)@.len(),
            buf@.take(*old(position) as int) == old(buf)@.take(*old(position) as int),
            *old(position) <= *position <= len,
            forall|j: int| *old(position) <= j < *position ==> #[trigger] buf@[j] != byte,
            old(waker).is_signalled() ==> waker.is_signalled(),
            this.consumed() == old(this).consumed() + buf@.subrange(*old(position) as int, *position as int),
            *position == *old(position) ==> *this == *old(this),
            *position > *old(position) ==> (old(this).next_fill() matches Some(Ok(d)) && ({
                let limit = smaller(d.len() as int, len - *old(position));
                &&& d.len() > 0
                &&& forall|j: int| 0 <= j < limit ==> d[j] != byte
                &&& *position >= *old(position) + limit
                &&& buf@.subrange(*old(position) as int, *old(position) + limit) == d.take(limit)
            })),
        ensures
            this.wf(),
            *position == len,
            buf@.len() == old(buf)@.len(),
            buf@.take(*old(position) as int) == old(buf)@.take(*old(position) as int),
            forall|j: int| *old(position) <= j < *position ==> #[trigger] buf@[j] != byte,
            old(waker).is_signalled() ==> waker.is_signalled(),
            this.consumed() == old(this).consumed() + buf@.subrange(*old(position) as int, *position as int),
            *position > *old(position) ==> (old(this).next_fill() matches Some(Ok(d)) && ({
                let limit = smaller(d.len() as int, len - *old(position));
                &&& d.len() > 0
                &&& forall|j: int| 0 <= j < limit ==> d[j] != byte
                &&& *position >= *old(position) + limit
                &&& buf@.subrange(*old(position) as int, *old(position) + limit) == d.take(limit)
            })),
        decreases len - *position,
    {
        let at = *position;
        let ghost before = *this;
        match this.poll_fill_buf(waker) {
            Poll::Pending => {
                assert(before.fill_leaves(*this));
                return Poll::Pending;
            },
            Poll::Ready(Err(e)) => {
                assert(before.fill_leaves(*this));
                return Poll::Ready(Err(e));
            },
            Poll::Ready(Ok(_)) => {},
        }
        let ghost mid2 = *this;
        let ghost pre = buf@;
        let ghost d = this.buffered();
        assert(before.next_fill() == Some(Ok::<Seq<u8>, R::Error>(d)));
        let available = this.available();
        let room = len - at;
        let limit = if available.len() < room {
            available.len()
        } else {
            room
        };
        let window = vstd::slice::slice_subrange(available, 0, limit);
        assert(window@ =~= d.take(limit as int));
        let found = find_byte(byte, window);
        let (done, used) = match found {
            Some(i) => (true, i + 1),
            None => (false, limit),
        };
        proof {
            if let Some(i) = found {
                assert forall|k: int|
                    0 <= k < limit && d[k] == byte && (forall|j: int| 0 <= j < k ==> d[j] != byte) implies k
                    == i by {
                    if k < i {
                        assert(window@[k] == d[k]);
                    } else if k > i {
                        assert(window@[i as int] == d[i as int]);
                    }
                }
            } else {
                assert forall|j: int| 0 <= j < limit implies d[j] != byte by {
                    assert(window@[j] == d[j]);
                }
            }
        }
        copy_into(buf, at, available, used);
        assert(buf@.take(*old(position) as int) =~= pre.take(*old(position) as int));
        assert(buf@.subrange(at as int, at + used) =~= available@.take(used as int));
        assert forall|j: int| *old(position) <= j < at + used && buf@[j] == byte implies done && j == at + used - 1 by {
            if j < at {
                assert(buf@[j] == pre[j]);
            } else {
                assert(buf@[j] == available@[j - at]);
                assert(window@[j - at] == available@[j - at]);
            }
        }
        proof {
            if at > *old(position) {
                assert(buf@.subrange(*old(position) as int, at as int) =~= pre.subrange(*old(position) as int, at as int));
            }
        }
        proof {
            if done {
                assert(buf@[at + used - 1] == available@[used - 1]);
                assert(window@[used - 1] == available@[used - 1]);
            }
        }
        this.consume(used);
        *position = at + used;
        proof {
            assert(this.consumed() =~= old(this).consumed() + buf@.subrange(*old(position) as int, *position as int));
            if used == 0 {
                assert(d =~= Seq::<u8>::empty());
                assert(before.fill_leaves(mid2) && mid2.consume_leaves(0, *this));
            }
        }
        if done || used == 0 {
            return Poll::Ready(Ok(Ok(*position)));
        }
    }
    Poll::Ready(Ok(Err(len)))
}

} // verus!
