use vstd::prelude::*;

verus! {

/// A reference to a zero-sized value that takes up no space itself.
pub struct ZstRef<'a, T: 'a> {
    pub(crate) marker: core::marker::PhantomData<&'a T>,
}

impl<'a, T: 'a> ZstRef<'a, T> {
    /// A reference to `value`, whose type must be zero-sized.
    pub fn new(value: &'a T) -> (r: ZstRef<'a, T>)
        requires
            vstd::layout::size_of::<T>() == 0,
    {
        ZstRef { marker: core::marker::PhantomData }
    }
}

impl<'a, T: 'a> Clone for ZstRef<'a, T> {
    fn clone(&self) -> (r: ZstRef<'a, T>) {
        ZstRef { marker: core::marker::PhantomData }
    }
}

impl<'a, T: 'a> Copy for ZstRef<'a, T> {}

} // verus!
