use vstd::prelude::*;

verus! {

/// The single-slot notification token.
///
/// Marking it signalled is what an interrupt handler (or a computation that
/// wants to be advanced again) does; testing and clearing it is what the
/// driver loop does before it advances the root computation again.
#[derive(Debug)]
pub struct EmbrioWaker {
    woken: bool,
}

impl EmbrioWaker {
    /// Whether the token is currently signalled.
    pub closed spec fn is_signalled(&self) -> bool {
        self.woken
    }

    /// The token after a signal.
    pub closed spec fn signalled(self) -> EmbrioWaker {
        EmbrioWaker { woken: true }
    }

    /// The token after a test-and-clear, and what that test returns.
    pub closed spec fn tested(self) -> (bool, EmbrioWaker) {
        (self.is_signalled(), EmbrioWaker { woken: false })
    }

    /// A token that is not signalled.
    pub fn new() -> (r: EmbrioWaker)
        ensures
            !r.is_signalled(),
    {
        EmbrioWaker { woken: false }
    }

    /// Marks the token signalled; signalling twice is the same as once.
    pub fn wake(&mut self)
        ensures
            *final(self) == old(self).signalled(),
            final(self).is_signalled(),
    {
        self.woken = true;
    }

    /// Reads and clears the signalled flag, returning whether it was set.
    pub fn test_and_clear(&mut self) -> (r: bool)
        ensures
            (r, *final(self)) == old(self).tested(),
            r == old(self).is_signalled(),
            !final(self).is_signalled(),
    {
        let was_woken = self.woken;
        self.woken = false;
        was_woken
    }
}

/// The token is edge-triggered: after a signal, a test-and-clear returns
/// `true` once, and every later test-and-clear returns `false` until the
/// token is signalled again.
pub proof fn lemma_signal_edge_triggered(w: EmbrioWaker, n: nat)
    ensures
        w.signalled().tested().0,
        !w.signalled().tested().1.is_signalled(),
        !repeat_tested(w.signalled().tested().1, n).0,
        !repeat_tested(w.signalled().tested().1, n).1.is_signalled(),
    decreases n,
{
    if n > 0 {
        lemma_signal_edge_triggered(w, (n - 1) as nat);
    }
}

/// Tests and clears the token `n + 1` times with no signal in between: what
/// the last test returns, and the token afterwards.
pub open spec fn repeat_tested(w: EmbrioWaker, n: nat) -> (bool, EmbrioWaker)
    decreases n,
{
    if n == 0 {
        w.tested()
    } else {
        repeat_tested(w.tested().1, (n - 1) as nat)
    }
}

} // verus!
