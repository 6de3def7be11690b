//! Helpers on `Result`.

use vstd::prelude::*;

verus! {

/// Ways to end up with the success of a result alone.
pub trait ResultExt<T, E>: Sized {
    /// The success that the result carries, if it carries one.
    spec fn success(self) -> Option<T>;

    /// Gives the success and drops the error.
    fn ignore(self) -> (kept: Option<T>)
        ensures
            kept == self.success(),
    ;
}

impl<T, E> ResultExt<T, E> for Result<T, E> {
    open spec fn success(self) -> Option<T> {
        match self {
            Ok(v) => Some(v),
            Err(_) => None,
        }
    }

    #[inline]
    fn ignore(self) -> (kept: Option<T>) {
        match self {
            Ok(v) => Some(v),
            Err(_) => None,
        }
    }
}

} // verus!
