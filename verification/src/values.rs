//! Mathematical values of results, options and sequences whose parts have
//! views.

use vstd::prelude::*;

verus! {

/// The view of a result whose two sides have views.
pub open spec fn view_result<T: View, E: View>(r: Result<T, E>) -> Result<T::V, E::V> {
    match r {
        Ok(value) => Ok(value@),
        Err(error) => Err(error@),
    }
}

/// The view of an optional value that has a view.
pub open spec fn view_option<T: View>(o: Option<T>) -> Option<T::V> {
    match o {
        Some(value) => Some(value@),
        None => None,
    }
}

/// The views of the items of a sequence, in their order.
pub open spec fn views<T: View>(items: Seq<T>) -> Seq<T::V> {
    items.map_values(|item: T| item@)
}

} // verus!
