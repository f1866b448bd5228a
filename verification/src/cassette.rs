//! Virtual cassette representation.

use vstd::prelude::*;

verus! {

/// Unique identificator of the given `Cassette`.
#[derive(PartialEq, Eq, Structural, Clone, Copy, Debug)]
pub struct CassetteId {
    pub index: usize,
}

impl CassetteId {
    pub fn new(index: usize) -> (id: CassetteId)
        ensures
            id.index == index,
    {
        Self { index }
    }
}

/// Represents a cassette: one recording's identity together with its recorded
/// length, a high-water mark in samples that never shrinks, not even on a
/// position reset.
pub struct Cassette {
    pub id: CassetteId,
    pub length: usize,
}

impl Cassette {
    pub fn new(index: usize) -> (cassette: Cassette)
        ensures
            cassette.id.index == index,
            cassette.length == 0,
    {
        Self { id: CassetteId::new(index), length: 0 }
    }
}

} // verus!
