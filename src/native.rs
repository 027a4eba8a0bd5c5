use vstd::prelude::*;

verus! {

/// The handle to the resources of a hosted target; its byte source and sink
/// (standard input and output) are made outside the library.
#[derive(Debug)]
pub struct EmbrioNative(());

/// The handle to the resources of a hosted target.
pub fn init() -> (r: EmbrioNative) {
    EmbrioNative(())
}

} // verus!
