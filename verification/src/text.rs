//! The model of a list of strings: the sequence of their texts.

use vstd::prelude::*;

verus! {

/// The text of each string, in order.
pub open spec fn texts(strings: Seq<String>) -> Seq<Seq<char>> {
    strings.map_values(|s: String| s@)
}

} // verus!
