use vstd::prelude::*;

verus! {

/// Why a computation could not be spawned.
#[derive(Debug, PartialEq, Eq, Structural)]
pub enum SpawnError {
    /// The executor runs a single computation and takes no others.
    Shutdown,
}

/// The spawn capability of a single-computation executor: it rejects every
/// computation.
#[derive(Debug)]
pub struct NoSpawn;

impl NoSpawn {
    /// Rejects `future`; nothing is ever spawned.
    pub fn spawn_obj<F>(&mut self, future: F) -> (r: Result<(), SpawnError>)
        ensures
            r == Err::<(), SpawnError>(SpawnError::Shutdown),
    {
        Err(SpawnError::Shutdown)
    }
}

} // verus!
