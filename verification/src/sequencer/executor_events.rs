//! What the executor of the sequencer reports.

use vstd::prelude::*;

use crate::common::{SlotNumber, VisibleSlotNumber};
use crate::state_machine::TxHash;

verus! {

/// The types that the node plugs into the sequencer. The sequencer hands values of them on
/// and never looks inside.
pub trait SequencerTypes {
    /// A checkpoint of the rollup state.
    type Checkpoint;

    /// What one transaction changed in the state.
    type TxChanges;

    /// An event that a transaction emitted.
    type Event;

    /// The receipt of a transaction.
    type Receipt;

    /// A reader of the ledger database.
    type LedgerReader;

    /// A blob that waits to be published again.
    type Blob;

    /// A connection to the database that only a leader has.
    type Backend;

    /// Where the submitter of a transaction waits for it to be confirmed.
    type TxResponder;

    /// Where the executor waits for the transaction cache to be flushed.
    type FlushResponder;

    /// Where a change of role is waited for.
    type TransitionResponder;

    /// What an operation of the node fails with.
    type Error;
}

/// The number of a batch or proof in the order in which the sequencer issues them.
pub type SequenceNumber = u64;

/// The identifier of a blob inside the node.
pub type BlobId = u128;

/// A transaction as it goes to the DA layer.
#[derive(Debug, PartialEq, Eq)]
pub struct FullyBakedTx {
    pub data: Vec<u8>,
}

impl FullyBakedTx {
    /// Wraps the serialized transaction.
    pub fn new(data: Vec<u8>) -> (tx: Self)
        ensures
            tx.data == data,
    {
        FullyBakedTx { data }
    }
}

/// What the submitter of a transaction is told.
pub struct Confirmation<T: SequencerTypes> {
    pub events: Vec<T::Event>,
    pub receipt: T::Receipt,
    pub tx_number: u64,
    pub timestamp_nanos: Option<u128>,
}

/// A transaction that the sequencer accepted.
pub struct AcceptedTx<T: SequencerTypes> {
    pub tx: FullyBakedTx,
    pub tx_hash: TxHash,
    pub confirmation: Confirmation<T>,
}

/// An accepted transaction with what is still to be done about it.
pub struct AcceptedTxEventContents<T: SequencerTypes> {
    pub accepted_tx: AcceptedTx<T>,
    pub tx_changes: T::TxChanges,
    pub oneshot_sender: T::TxResponder,
    pub sequence_number: SequenceNumber,
    pub tx_idx_within_batch: u64,
}

/// A batch of transactions that is complete.
pub struct ReadBatch {
    pub blob_id: BlobId,
    pub sequence_number: SequenceNumber,
    pub visible_slot_number_after_increase: VisibleSlotNumber,
    pub visible_slots_to_advance: u8,
    pub txs: Vec<FullyBakedTx>,
    pub tx_hashes: Vec<TxHash>,
}

/// What the database keeps about a batch.
#[derive(Debug, Clone, Copy, PartialEq, Eq)]
pub struct BatchToStore {
    pub blob_id: BlobId,
    pub sequence_number: SequenceNumber,
    pub visible_slot_number_after_increase: VisibleSlotNumber,
    pub visible_slots_to_advance: u8,
}

impl ReadBatch {
    /// What the database keeps about this batch.
    pub open spec fn stored(self) -> BatchToStore {
        BatchToStore {
            blob_id: self.blob_id,
            sequence_number: self.sequence_number,
            visible_slot_number_after_increase: self.visible_slot_number_after_increase,
            visible_slots_to_advance: self.visible_slots_to_advance,
        }
    }

    /// What the database keeps about this batch.
    pub fn info_to_store(&self) -> (info: BatchToStore)
        ensures
            info == self.stored(),
            info.blob_id == self.blob_id,
            info.sequence_number == self.sequence_number,
            info.visible_slot_number_after_increase == self.visible_slot_number_after_increase,
            info.visible_slots_to_advance == self.visible_slots_to_advance,
    {
        BatchToStore {
            blob_id: self.blob_id,
            sequence_number: self.sequence_number,
            visible_slot_number_after_increase: self.visible_slot_number_after_increase,
            visible_slots_to_advance: self.visible_slots_to_advance,
        }
    }
}

/// What to do about soft confirmations that are pending when the sequencer has fallen
/// behind.
#[derive(Debug, Clone, Copy, PartialEq, Eq, Structural)]
pub enum RecoveryStrategy {
    /// Publish them after all, at the risk of being penalised for those that have become
    /// invalid.
    TryToSave,
    /// Give up and exit.
    NoRecovery,
}

/// An event of the executor.
pub enum ExecutorEvent<T: SequencerTypes> {
    AcceptedTx(AcceptedTxEventContents<T>),
    CloseBatch { batch: ReadBatch, checkpoint: T::Checkpoint, forced_txs: Vec<AcceptedTx<T>> },
    StartBatch {
        visible_slot_number_after_increase: VisibleSlotNumber,
        visible_slots_to_advance: u8,
        sequence_number: SequenceNumber,
        new_checkpoint: T::Checkpoint,
        blob_id: BlobId,
    },
    TriggerRecovery {
        blobs_to_flush: Vec<T::Blob>,
        recovery_strategy: RecoveryStrategy,
        batch_to_close: Option<ReadBatch>,
    },
    PublishProofBlob(BlobId, Vec<u8>, SequenceNumber),
    ForceUpdateApiState(T::Checkpoint),
    UpdateApiLedger {
        ledger_reader: T::LedgerReader,
        slot_number: SlotNumber,
        latest_finalized_slot_number: SlotNumber,
        next_tx_number: u64,
    },
    PruneDb(SequenceNumber),
    UpdateStateForRecovery(T::Checkpoint),
    FlushTransactionsCache { next_tx_number: u64, oneshot_sender: T::FlushResponder },
}

/// The kind of an event, for metrics.
#[derive(Debug, Clone, Copy, PartialEq, Eq, Structural)]
pub enum ExecutorEventKind {
    AcceptedTx,
    CloseBatch,
    StartBatch,
    TriggerRecovery,
    PublishProofBlob,
    ForceUpdateApiState,
    UpdateApiLedger,
    PruneDb,
    UpdateStateForRecovery,
    FlushTransactionsCache,
}

impl<T: SequencerTypes> ExecutorEvent<T> {
    /// The kind of this event.
    pub open spec fn spec_kind(self) -> ExecutorEventKind {
        match self {
            ExecutorEvent::AcceptedTx(_) => ExecutorEventKind::AcceptedTx,
            ExecutorEvent::CloseBatch { .. } => ExecutorEventKind::CloseBatch,
            ExecutorEvent::StartBatch { .. } => ExecutorEventKind::StartBatch,
            ExecutorEvent::TriggerRecovery { .. } => ExecutorEventKind::TriggerRecovery,
            ExecutorEvent::PublishProofBlob(..) => ExecutorEventKind::PublishProofBlob,
            ExecutorEvent::ForceUpdateApiState(_) => ExecutorEventKind::ForceUpdateApiState,
            ExecutorEvent::UpdateApiLedger { .. } => ExecutorEventKind::UpdateApiLedger,
            ExecutorEvent::PruneDb(_) => ExecutorEventKind::PruneDb,
            ExecutorEvent::UpdateStateForRecovery(_) => ExecutorEventKind::UpdateStateForRecovery,
            ExecutorEvent::FlushTransactionsCache { .. } => ExecutorEventKind::FlushTransactionsCache,
        }
    }

    /// The kind of this event.
    pub fn kind(&self) -> (kind: ExecutorEventKind)
        ensures
            kind == self.spec_kind(),
    {
        match self {
            ExecutorEvent::AcceptedTx(_) => ExecutorEventKind::AcceptedTx,
            ExecutorEvent::CloseBatch { .. } => ExecutorEventKind::CloseBatch,
            ExecutorEvent::StartBatch { .. } => ExecutorEventKind::StartBatch,
            ExecutorEvent::TriggerRecovery { .. } => ExecutorEventKind::TriggerRecovery,
            ExecutorEvent::PublishProofBlob(..) => ExecutorEventKind::PublishProofBlob,
            ExecutorEvent::ForceUpdateApiState(_) => ExecutorEventKind::ForceUpdateApiState,
            ExecutorEvent::UpdateApiLedger { .. } => ExecutorEventKind::UpdateApiLedger,
            ExecutorEvent::PruneDb(_) => ExecutorEventKind::PruneDb,
            ExecutorEvent::UpdateStateForRecovery(_) => ExecutorEventKind::UpdateStateForRecovery,
            ExecutorEvent::FlushTransactionsCache { .. } => ExecutorEventKind::FlushTransactionsCache,
        }
    }
}

} // verus!
