//! Views of values that are held in options and in vectors, and what holds of
//! fields that are kept as a sequence of names and values.

use vstd::prelude::*;

verus! {

/// The view of what an option holds.
pub open spec fn option_view<T: View>(value: Option<T>) -> Option<T::V> {
    match value {
        Some(value) => Some(value@),
        None => None,
    }
}

/// The views of the items of a sequence, in their order.
pub open spec fn views<T: View>(items: Seq<T>) -> Seq<T::V> {
    items.map_values(|item: T| item@)
}

/// The views of what the options of a sequence hold, in their order.
pub open spec fn option_views<T: View>(items: Seq<Option<T>>) -> Seq<Option<T::V>> {
    items.map_values(|item: Option<T>| option_view(item))
}

/// Whether no name occurs twice among the fields: the fields are then a map
/// from names to values, written in some order.
pub open spec fn distinct_names<V>(fields: Seq<(Seq<char>, V)>) -> bool {
    forall|i: int, j: int|
        0 <= i < j < fields.len() ==> (#[trigger] fields[i]).0 != (#[trigger] fields[j]).0
}

} // verus!
