//! Test matrices: a hash-based fill that is the same on every run of one
//! build.

use vstd::prelude::*;
use std::collections::hash_map::DefaultHasher;
use std::hash::{Hash, Hasher};

verus! {

/// Entries are drawn in thousandths, from 0 to 999.
pub const SAMPLE_RANGE: u64 = 1000;

/// Feeds `index` into `hasher` through `Hash::hash` for `usize`. Which bytes
/// the hasher is fed is left open, so nothing is said of its state.
#[verifier::external_body]
fn feed_index(hasher: &mut DefaultHasher, index: usize) {
    index.hash(hasher);
}

/// The entry, in thousandths, that a hash stands for.
pub open spec fn sample_of(hash: u64) -> u32 {
    (hash % SAMPLE_RANGE) as u32
}

/// Reduces a hash to an entry in thousandths.
pub fn sample_from_hash(hash: u64) -> (sample: u32)
    ensures
        sample == sample_of(hash),
        sample < SAMPLE_RANGE,
{
    (hash % SAMPLE_RANGE) as u32
}

/// Fills a `size` by `size` matrix with entries in thousandths: entry `i`
/// is the hash of `i`, reduced to the range 0 to 999. A caller that wants
/// fractions between 0 and 1 divides each entry by 1000.
pub fn create_random_matrix(size: usize) -> (matrix: Vec<u32>)
    requires
        size * size <= usize::MAX,
    ensures
        matrix@.len() == size * size,
        forall|i: int| 0 <= i < matrix@.len() ==> matrix@[i] < SAMPLE_RANGE,
{
    let cells: usize = size * size;
    let mut matrix: Vec<u32> = Vec::with_capacity(cells);
    let mut i: usize = 0;
    while i < cells
        invariant
            i <= cells,
            matrix@.len() == i,
            forall|j: int| 0 <= j < i ==> matrix@[j] < SAMPLE_RANGE,
        decreases cells - i,
    {
        let mut hasher = DefaultHasher::new();
        feed_index(&mut hasher, i);
        let hash = hasher.finish();
        matrix.push(sample_from_hash(hash));
        i = i + 1;
    }
    matrix
}

} // verus!
