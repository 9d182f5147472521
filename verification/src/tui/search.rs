//! Fuzzy-search results as the screens see them. The matcher that produces
//! them runs on background threads and lives with the terminal front end;
//! here is the plain value it hands over.

use vstd::prelude::*;

verus! {

/// A single matched result with its display string and character-level
/// match indices.
#[derive(Debug, Clone)]
pub struct MatchedItem<I> {
    /// The original item data.
    pub inner: I,
    /// The string that was matched against.
    pub matched_string: String,
    /// Sorted, deduplicated character indices that matched.
    pub match_indices: Vec<u32>,
}

} // verus!
