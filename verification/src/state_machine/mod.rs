//! Types, traits, and helpers that the core state machine of the rollup uses. Items in this
//! module are fully deterministic, since they are expected to run inside of zkVMs.

pub mod execution_mode;
mod sealed;

pub use bytes::{Buf, BufMut, Bytes, BytesMut};
use vstd::prelude::*;

use crate::bech32m_encoded::{LbaHash, LblkHash, LbzHash, LschHash, LsrHash, LtxHash};
use crate::common::SlotNumber;

verus! {

/// A rollup transaction hash. Bech32m-encoded with HRP `ltx` (`ltx1...`); the Borsh layout
/// is the raw 32-byte array.
pub type TxHash = LtxHash;

/// A DA block hash (slot hash on the rollup side). Bech32m with HRP `lblk` (`lblk1...`); 32
/// bytes.
pub type BlockHash = LblkHash;

/// A rollup state root. Bech32m with HRP `lsr` (`lsr1...`); 64 bytes.
pub type StateRootHash = LsrHash;

/// A sequencer batch hash. Bech32m with HRP `lba` (`lba1...`).
pub type BatchHash = LbaHash;

/// Runtime / wallet schema commitment hash. Bech32m with HRP `lsch` (`lsch1...`).
pub type ChainHash = LschHash;

/// DA-layer blob hash. Bech32m with HRP `lbz` (`lbz1...`).
pub type BlobHash = LbzHash;

/// A marker trait for general addresses.
pub trait BasicAddress:
    Ord
    + core::fmt::Debug
    + core::fmt::Display
    + Send
    + Unpin
    + Sync
    + Clone
    + Copy
    + core::hash::Hash
    + for<'a> TryFrom<&'a [u8]>
    + MaybeArbitrary
    + 'static
{
}

/// What a type has to offer for tests to make up values of it. Every type has it.
pub trait MaybeArbitrary {

}

impl<T> MaybeArbitrary for T {

}

/// A tracker that returns the maximum provable height of the rollup.
pub trait ProvableHeightTracker: Send + Sync + 'static {
    /// Returns the maximum provable height of the rollup.
    fn max_provable_slot_number(&self) -> SlotNumber;
}

} // verus!
