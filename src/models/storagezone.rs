//! Storage zone values that requests carry.
use vstd::prelude::*;

verus! {

/// The tier of a storage zone, written as its number: 0 or 1.
#[derive(Debug, Clone, Copy, PartialEq, Eq, Structural)]
pub enum StorageZoneTier {
    Standard,
    Edge,
}

impl Default for StorageZoneTier {
    fn default() -> (r: StorageZoneTier)
        ensures
            r == StorageZoneTier::Standard,
    {
        StorageZoneTier::Standard
    }
}

/// The number that stands for a tier on the wire.
pub open spec fn tier_code(t: StorageZoneTier) -> Seq<char> {
    match t {
        StorageZoneTier::Standard => "0"@,
        StorageZoneTier::Edge => "1"@,
    }
}

impl StorageZoneTier {
    /// The number that stands for this tier on the wire.
    pub fn code(&self) -> (r: &'static str)
        ensures
            r@ == tier_code(*self),
    {
        match self {
            StorageZoneTier::Standard => "0",
            StorageZoneTier::Edge => "1",
        }
    }
}

} // verus!
