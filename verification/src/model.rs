//! Helpers for speaking of the models of composite values.

use vstd::prelude::*;

verus! {

/// The models of the items of a sequence, in order.
pub open spec fn models<T: View>(items: Seq<T>) -> Seq<T::V> {
    Seq::new(items.len(), |i: int| items[i]@)
}

/// The model of an optional value.
pub open spec fn optional_model<T: View>(item: Option<T>) -> Option<T::V> {
    match item {
        Some(inner) => Some(inner@),
        None => None,
    }
}

} // verus!
