//! Exec values as the mathematical values that contracts speak of.

use vstd::prelude::*;

verus! {

/// A result with its `Ok` value as a mathematical value.
pub open spec fn ok_view<T: View, E>(result: Result<T, E>) -> Result<T::V, E> {
    match result {
        Ok(value) => Ok(value@),
        Err(error) => Err(error),
    }
}

/// An option with its value as a mathematical value.
pub open spec fn some_view<T: View>(option: Option<T>) -> Option<T::V> {
    match option {
        Some(value) => Some(value@),
        None => None,
    }
}

} // verus!
