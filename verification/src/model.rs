//! Mathematical views of results.

use vstd::prelude::*;

verus! {

/// The view of a result: the view of what succeeded, or the error as it is.
pub open spec fn result_view<T: DeepView, E>(r: Result<T, E>) -> Result<T::V, E> {
    match r {
        Ok(t) => Ok(t.deep_view()),
        Err(e) => Err(e),
    }
}

/// The view of a result whose error is a status with a message.
pub open spec fn refusal_view<T: DeepView>(r: Result<T, (u16, String)>) -> Result<
    T::V,
    (u16, Seq<char>),
> {
    match r {
        Ok(t) => Ok(t.deep_view()),
        Err((status, message)) => Err((status, message@)),
    }
}

} // verus!
