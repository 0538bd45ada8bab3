use vstd::prelude::*;

verus! {

/// The mathematical content of a `Result`: that of what it holds, on either
/// side.
pub open spec fn result_view<T: View, E: View>(r: Result<T, E>) -> Result<T::V, E::V> {
    match r {
        Ok(t) => Ok(t@),
        Err(e) => Err(e@),
    }
}

} // verus!
