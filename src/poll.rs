use vstd::prelude::*;

verus! {

/// The outcome of one advance of a pollable computation.
#[derive(Debug, PartialEq, Eq, Structural)]
pub enum Poll<T> {
    /// The computation finished with this value.
    Ready(T),
    /// The computation cannot make progress until it is notified.
    Pending,
}

impl<T> Poll<T> {
    pub fn is_ready(&self) -> (r: bool)
        ensures
            r <==> self is Ready,
    {
        match self {
            Poll::Ready(_) => true,
            Poll::Pending => false,
        }
    }

    pub fn is_pending(&self) -> (r: bool)
        ensures
            r <==> self is Pending,
    {
        !self.is_ready()
    }
}

} // verus!
