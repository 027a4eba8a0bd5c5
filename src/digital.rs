use vstd::prelude::*;

verus! {

/// A digital output whose level can be read back and set.
pub trait Output {
    /// The level the output drives.
    spec fn level(&self) -> bool;

    /// The level the output drives.
    fn state(&self) -> (r: bool)
        ensures
            r == self.level(),
    ;

    /// Drives `state`.
    fn set_state(&mut self, state: bool)
        ensures
            final(self).level() == state,
    ;

    /// Whether the output is high.
    fn is_high(&self) -> (r: bool)
        ensures
            r == self.level(),
    {
        self.state()
    }

    /// Whether the output is low.
    fn is_low(&self) -> (r: bool)
        ensures
            r == !self.level(),
    {
        !self.state()
    }

    /// Drives the high level.
    fn set_high(&mut self)
        ensures
            final(self).level(),
    {
        self.set_state(true);
    }

    /// Drives the low level.
    fn set_low(&mut self)
        ensures
            !final(self).level(),
    {
        self.set_state(false);
    }

    /// Drives the other level.
    fn toggle(&mut self)
        ensures
            final(self).level() == !old(self).level(),
    {
        let s = self.state();
        self.set_state(!s);
    }
}

} // verus!
