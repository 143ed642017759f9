//! Mathematical views of the standard containers that wrap the library's types.

use vstd::prelude::*;

verus! {

/// The view of a result: the view of whichever side it holds.
pub open spec fn outcome<T: DeepView, E: DeepView>(r: Result<T, E>) -> Result<T::V, E::V> {
    match r {
        Ok(value) => Ok(value.deep_view()),
        Err(error) => Err(error.deep_view()),
    }
}

} // verus!
