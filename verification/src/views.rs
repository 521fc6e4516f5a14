//! The mathematical value of an optional value and of an outcome, taken
//! through the value they hold.

use vstd::prelude::*;

verus! {

/// The value of what an `Option` holds, if it holds anything.
pub open spec fn option_view<T: View>(option: Option<T>) -> Option<T::V> {
    match option {
        Some(value) => Some(value@),
        None => None,
    }
}

/// The value of what a `Result` holds, on either side.
pub open spec fn result_view<T: View, E: View>(result: Result<T, E>) -> Result<T::V, E::V> {
    match result {
        Ok(value) => Ok(value@),
        Err(error) => Err(error@),
    }
}

} // verus!
