//! Small values that the rest of the crate passes around.

use vstd::prelude::*;

verus! {

/// Bytes that are shown as hex.
#[derive(Debug, PartialEq, Eq)]
pub struct HexString<T>(pub T);

impl<T: Clone> Clone for HexString<T> {
    fn clone(&self) -> (copy: Self)
        ensures
            cloned::<T>(self.0, copy.0),
    {
        HexString(self.0.clone())
    }
}

impl<T> HexString<T> {
    /// Wraps bytes.
    pub fn new(bytes: T) -> (hex: Self)
        ensures
            hex.0 == bytes,
    {
        HexString(bytes)
    }
}

/// The number of a slot of the DA layer.
#[derive(Debug, Clone, Copy, PartialEq, Eq, PartialOrd, Ord, Hash, Structural)]
pub struct SlotNumber(pub u64);

/// The number of a slot as the rollup sees it while it executes.
#[derive(Debug, Clone, Copy, PartialEq, Eq, PartialOrd, Ord, Hash, Structural)]
pub struct VisibleSlotNumber(pub u64);

} // verus!
