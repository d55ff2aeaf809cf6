//! The state that initialization publishes for the repository operations.

use crate::error::RepoError;
use vstd::prelude::*;

verus! {

/// What a successful initialization publishes: the handle through which
/// the store is reached.  The library never looks inside the handle; it
/// hands it out to an operation that finds the state published.
pub struct AppState<D> {
    pub db: D,
}

impl<D> AppState<D> {
    /// Gives out the store handle where state is published.
    pub fn handle<'a>(state: Option<&'a AppState<D>>) -> (found: Result<&'a D, RepoError>)
        ensures
            match state {
                Some(published) => found == Ok::<&D, RepoError>(&published.db),
                None => found == Err::<&D, RepoError>(RepoError::Unavailable),
            },
    {
        match state {
            Some(published) => Ok(&published.db),
            None => Err(RepoError::Unavailable),
        }
    }
}

} // verus!
