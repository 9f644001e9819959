//! The single steps in which the events of the executor take effect.

use std::sync::Arc;

use vstd::prelude::*;

use crate::common::{SlotNumber, VisibleSlotNumber};
use crate::sequencer::executor_events::{
    AcceptedTx, BatchToStore, BlobId, ExecutorEventKind, FullyBakedTx, ReadBatch, SequenceNumber,
    SequencerTypes,
};
use crate::state_machine::TxHash;

verus! {

/// Why a promotion to leader did not happen.
#[derive(Debug, PartialEq, Eq)]
pub enum PromoteError<E> {
    /// The node has no database configured, so it never was meant to lead.
    NoPostgresConfig,
    /// The database could not be reached.
    Connect(E),
    /// The completed blobs could not be read from the database.
    Snapshot(E),
    /// The blob sender could not be started.
    Activate(E),
}

/// One step that the node performs.
#[allow(inconsistent_fields)]
pub enum SideEffect<T: SequencerTypes> {
    /// Store transactions of one batch in the database, the first one at the given index.
    BulkInsertTxs {
        txs: Vec<(FullyBakedTx, TxHash)>,
        sequence_number: SequenceNumber,
        tx_idx_within_batch: u64,
    },
    /// Apply what a transaction changed to the checkpoint that the API serves.
    ApplyTxChanges(T::TxChanges),
    /// Tell those who watch the checkpoint that it has changed.
    NotifyCheckpoint,
    /// Confirm a transaction to its submitter.
    ConfirmTx { responder: T::TxResponder, accepted_tx: Arc<AcceptedTx<T>> },
    /// Let other tasks run, so that a submitter who has been answered goes first.
    YieldNow,
    /// Put a transaction into the cache, which tells the subscribers.
    CacheTx(Arc<AcceptedTx<T>>),
    /// Note in the database that a batch is complete.
    TerminateBatch(BatchToStore),
    /// Let the API serve another checkpoint.
    UpdateApiState(T::Checkpoint),
    /// Tell the blob sender which transactions a blob holds.
    AddTxs { blob_id: BlobId, tx_hashes: Vec<TxHash> },
    /// Publish a batch to the DA layer.
    PublishBatch(ReadBatch),
    /// Note in the database that a batch has begun.
    StartBatch {
        visible_slot_number_after_increase: VisibleSlotNumber,
        visible_slots_to_advance: u8,
        sequence_number: SequenceNumber,
        blob_id: BlobId,
    },
    /// Publish blobs again, in the hope that some of their transactions are still valid.
    PublishBlobsForRecovery(Vec<T::Blob>),
    /// Shut the node down.
    ExitRollup,
    /// Store a proof in the database.
    InsertProofBlob { blob_id: BlobId, data: Vec<u8>, sequence_number: SequenceNumber },
    /// Publish a proof to the DA layer.
    PublishProof { data: Vec<u8>, sequence_number: SequenceNumber, blob_id: BlobId },
    /// Wait for as long as the environment asks for, in test builds only.
    DelayForTests,
    /// Let the ledger API read from another snapshot.
    ReplaceLedgerReader(T::LedgerReader),
    /// Tell the subscribers of the ledger API about a slot.
    NotifySlot(SlotNumber),
    /// Drop transactions that the ledger API serves by now from the cache.
    PruneTxCache(u64),
    /// Drop batches that are finalized from the database.
    PruneDb(SequenceNumber),
    /// Empty the cache and set the number of its next transaction.
    ResetTxCache(u64),
    /// Tell the executor that the cache has been flushed.
    ConfirmFlush(T::FlushResponder),
    /// Record that an event has been handled, together with others of its kind.
    RecordEvent { kind: ExecutorEventKind, batch_size: usize },
    /// Use another database connection from now on, or none.
    SetBackend(Option<T::Backend>),
    /// Stop the blob sender.
    DeactivateBlobSender,
    /// Answer a request for a change of role.
    ConfirmTransition {
        responder: T::TransitionResponder,
        outcome: Result<(), PromoteError<T::Error>>,
    },
}

/// A [`SideEffect`] with the contents of its vectors and pointers.
#[allow(inconsistent_fields)]
pub enum Effect<T: SequencerTypes> {
    BulkInsertTxs {
        txs: Seq<(Seq<u8>, TxHash)>,
        sequence_number: SequenceNumber,
        tx_idx_within_batch: u64,
    },
    ApplyTxChanges(T::TxChanges),
    NotifyCheckpoint,
    ConfirmTx { responder: T::TxResponder, accepted_tx: AcceptedTx<T> },
    YieldNow,
    CacheTx(AcceptedTx<T>),
    TerminateBatch(BatchToStore),
    UpdateApiState(T::Checkpoint),
    AddTxs { blob_id: BlobId, tx_hashes: Seq<TxHash> },
    PublishBatch(ReadBatch),
    StartBatch {
        visible_slot_number_after_increase: VisibleSlotNumber,
        visible_slots_to_advance: u8,
        sequence_number: SequenceNumber,
        blob_id: BlobId,
    },
    PublishBlobsForRecovery(Seq<T::Blob>),
    ExitRollup,
    InsertProofBlob { blob_id: BlobId, data: Seq<u8>, sequence_number: SequenceNumber },
    PublishProof { data: Seq<u8>, sequence_number: SequenceNumber, blob_id: BlobId },
    DelayForTests,
    ReplaceLedgerReader(T::LedgerReader),
    NotifySlot(SlotNumber),
    PruneTxCache(u64),
    PruneDb(SequenceNumber),
    ResetTxCache(u64),
    ConfirmFlush(T::FlushResponder),
    RecordEvent { kind: ExecutorEventKind, batch_size: nat },
    SetBackend(Option<T::Backend>),
    DeactivateBlobSender,
    ConfirmTransition {
        responder: T::TransitionResponder,
        outcome: Result<(), PromoteError<T::Error>>,
    },
}

impl<T: SequencerTypes> Effect<T> {
    /// The effect can fail. The others either cannot, or nobody minds if they do.
    pub open spec fn can_fail(self) -> bool {
        match self {
            Effect::BulkInsertTxs { .. } => true,
            Effect::TerminateBatch(_) => true,
            Effect::PublishBatch(_) => true,
            Effect::StartBatch { .. } => true,
            Effect::PublishBlobsForRecovery(_) => true,
            Effect::InsertProofBlob { .. } => true,
            Effect::PublishProof { .. } => true,
            Effect::PruneDb(_) => true,
            _ => false,
        }
    }
}

impl<T: SequencerTypes> View for SideEffect<T> {
    type V = Effect<T>;

    open spec fn view(&self) -> Effect<T> {
        match *self {
            SideEffect::BulkInsertTxs { txs, sequence_number, tx_idx_within_batch } => {
                Effect::BulkInsertTxs {
                    txs: Seq::new(txs@.len(), |i: int| (txs@[i].0.data@, txs@[i].1)),
                    sequence_number,
                    tx_idx_within_batch,
                }
            },
            SideEffect::ApplyTxChanges(changes) => Effect::ApplyTxChanges(changes),
            SideEffect::NotifyCheckpoint => Effect::NotifyCheckpoint,
            SideEffect::ConfirmTx { responder, accepted_tx } => Effect::ConfirmTx {
                responder,
                accepted_tx: *accepted_tx,
            },
            SideEffect::YieldNow => Effect::YieldNow,
            SideEffect::CacheTx(accepted_tx) => Effect::CacheTx(*accepted_tx),
            SideEffect::TerminateBatch(info) => Effect::TerminateBatch(info),
            SideEffect::UpdateApiState(checkpoint) => Effect::UpdateApiState(checkpoint),
            SideEffect::AddTxs { blob_id, tx_hashes } => Effect::AddTxs {
                blob_id,
                tx_hashes: tx_hashes@,
            },
            SideEffect::PublishBatch(batch) => Effect::PublishBatch(batch),
            SideEffect::StartBatch {
                visible_slot_number_after_increase,
                visible_slots_to_advance,
                sequence_number,
                blob_id,
            } => Effect::StartBatch {
                visible_slot_number_after_increase,
                visible_slots_to_advance,
                sequence_number,
                blob_id,
            },
            SideEffect::PublishBlobsForRecovery(blobs) => Effect::PublishBlobsForRecovery(blobs@),
            SideEffect::ExitRollup => Effect::ExitRollup,
            SideEffect::InsertProofBlob { blob_id, data, sequence_number } => {
                Effect::InsertProofBlob { blob_id, data: data@, sequence_number }
            },
            SideEffect::PublishProof { data, sequence_number, blob_id } => Effect::PublishProof {
                data: data@,
                sequence_number,
                blob_id,
            },
            SideEffect::DelayForTests => Effect::DelayForTests,
            SideEffect::ReplaceLedgerReader(reader) => Effect::ReplaceLedgerReader(reader),
            SideEffect::NotifySlot(slot) => Effect::NotifySlot(slot),
            SideEffect::PruneTxCache(next_tx_number) => Effect::PruneTxCache(next_tx_number),
            SideEffect::PruneDb(sequence_number) => Effect::PruneDb(sequence_number),
            SideEffect::ResetTxCache(next_tx_number) => Effect::ResetTxCache(next_tx_number),
            SideEffect::ConfirmFlush(responder) => Effect::ConfirmFlush(responder),
            SideEffect::RecordEvent { kind, batch_size } => Effect::RecordEvent {
                kind,
                batch_size: batch_size as nat,
            },
            SideEffect::SetBackend(backend) => Effect::SetBackend(backend),
            SideEffect::DeactivateBlobSender => Effect::DeactivateBlobSender,
            SideEffect::ConfirmTransition { responder, outcome } => Effect::ConfirmTransition {
                responder,
                outcome,
            },
        }
    }
}

impl<T: SequencerTypes> SideEffect<T> {
    /// The effect can fail. The others either cannot, or nobody minds if they do.
    pub fn can_fail(&self) -> (r: bool)
        ensures
            r == self@.can_fail(),
    {
        match self {
            SideEffect::BulkInsertTxs { .. } => true,
            SideEffect::TerminateBatch(_) => true,
            SideEffect::PublishBatch(_) => true,
            SideEffect::StartBatch { .. } => true,
            SideEffect::PublishBlobsForRecovery(_) => true,
            SideEffect::InsertProofBlob { .. } => true,
            SideEffect::PublishProof { .. } => true,
            SideEffect::PruneDb(_) => true,
            _ => false,
        }
    }
}

/// The effects of a sequence.
pub open spec fn effects_of<T: SequencerTypes>(effects: Seq<SideEffect<T>>) -> Seq<Effect<T>> {
    Seq::new(effects.len(), |i: int| effects[i]@)
}

/// An effect shows everything that it was made of, and nothing else.
pub proof fn effects_show_what_they_hold<T: SequencerTypes>(effect: SideEffect<T>)
    ensures
        match effect {
            SideEffect::BulkInsertTxs { txs, sequence_number, tx_idx_within_batch } => {
                effect@ matches Effect::BulkInsertTxs {
                    txs: shown,
                    sequence_number: batch,
                    tx_idx_within_batch: place,
                } && {
                    &&& shown.len() == txs@.len()
                    &&& forall|i: int|
                        0 <= i < txs@.len() ==> (#[trigger] shown[i]).0 == txs@[i].0.data@
                            && shown[i].1 == txs@[i].1
                    &&& batch == sequence_number
                    &&& place == tx_idx_within_batch
                }
            },
            SideEffect::ApplyTxChanges(changes) => effect@ == Effect::<T>::ApplyTxChanges(changes),
            SideEffect::NotifyCheckpoint => effect@ == Effect::<T>::NotifyCheckpoint,
            SideEffect::ConfirmTx { responder, accepted_tx } => effect@ == (Effect::<
                T,
            >::ConfirmTx { responder, accepted_tx: *accepted_tx }),
            SideEffect::YieldNow => effect@ == Effect::<T>::YieldNow,
            SideEffect::CacheTx(accepted_tx) => effect@ == Effect::<T>::CacheTx(*accepted_tx),
            SideEffect::TerminateBatch(info) => effect@ == Effect::<T>::TerminateBatch(info),
            SideEffect::UpdateApiState(checkpoint) => effect@ == Effect::<T>::UpdateApiState(
                checkpoint,
            ),
            SideEffect::AddTxs { blob_id, tx_hashes } => effect@ == (Effect::<T>::AddTxs {
                blob_id,
                tx_hashes: tx_hashes@,
            }),
            SideEffect::PublishBatch(batch) => effect@ == Effect::<T>::PublishBatch(batch),
            SideEffect::StartBatch {
                visible_slot_number_after_increase,
                visible_slots_to_advance,
                sequence_number,
                blob_id,
            } => effect@ == (Effect::<T>::StartBatch {
                visible_slot_number_after_increase,
                visible_slots_to_advance,
                sequence_number,
                blob_id,
            }),
            SideEffect::PublishBlobsForRecovery(blobs) => effect@ == Effect::<
                T,
            >::PublishBlobsForRecovery(blobs@),
            SideEffect::ExitRollup => effect@ == Effect::<T>::ExitRollup,
            SideEffect::InsertProofBlob { blob_id, data, sequence_number } => effect@ == (Effect::<
                T,
            >::InsertProofBlob { blob_id, data: data@, sequence_number }),
            SideEffect::PublishProof { data, sequence_number, blob_id } => effect@ == (Effect::<
                T,
            >::PublishProof { data: data@, sequence_number, blob_id }),
            SideEffect::DelayForTests => effect@ == Effect::<T>::DelayForTests,
            SideEffect::ReplaceLedgerReader(reader) => effect@ == Effect::<T>::ReplaceLedgerReader(
                reader,
            ),
            SideEffect::NotifySlot(slot) => effect@ == Effect::<T>::NotifySlot(slot),
            SideEffect::PruneTxCache(next) => effect@ == Effect::<T>::PruneTxCache(next),
            SideEffect::PruneDb(sequence_number) => effect@ == Effect::<T>::PruneDb(
                sequence_number,
            ),
            SideEffect::ResetTxCache(next) => effect@ == Effect::<T>::ResetTxCache(next),
            SideEffect::ConfirmFlush(responder) => effect@ == Effect::<T>::ConfirmFlush(responder),
            SideEffect::RecordEvent { kind, batch_size } => effect@ == (Effect::<T>::RecordEvent {
                kind,
                batch_size: batch_size as nat,
            }),
            SideEffect::SetBackend(backend) => effect@ == Effect::<T>::SetBackend(backend),
            SideEffect::DeactivateBlobSender => effect@ == Effect::<T>::DeactivateBlobSender,
            SideEffect::ConfirmTransition { responder, outcome } => effect@ == (Effect::<
                T,
            >::ConfirmTransition { responder, outcome }),
        },
{
}

/// A sequence has one effect for each of its members, at the same place.
pub proof fn sequences_show_each_effect<T: SequencerTypes>(effects: Seq<SideEffect<T>>)
    ensures
        effects_of(effects).len() == effects.len(),
        forall|i: int| 0 <= i < effects.len() ==> #[trigger] effects_of(effects)[i] == effects[i]@,
{
}

/// Writing to the database and publishing to the DA layer can fail, and nothing else.
pub proof fn writing_and_publishing_can_fail<T: SequencerTypes>(effect: Effect<T>)
    ensures
        effect.can_fail() <==> {
            ||| effect is BulkInsertTxs
            ||| effect is TerminateBatch
            ||| effect is StartBatch
            ||| effect is InsertProofBlob
            ||| effect is PruneDb
            ||| effect is PublishBatch
            ||| effect is PublishBlobsForRecovery
            ||| effect is PublishProof
        },
{
}

/// The effects of a sequence that has grown by one.
pub(crate) broadcast proof fn lemma_effects_of_push<T: SequencerTypes>(
    effects: Seq<SideEffect<T>>,
    effect: SideEffect<T>,
)
    ensures
        #[trigger] effects_of(effects.push(effect)) == effects_of(effects).push(effect@),
{
    assert(effects_of(effects.push(effect)) =~= effects_of(effects).push(effect@));
}

/// The effects of two sequences, one behind the other.
pub(crate) broadcast proof fn lemma_effects_of_add<T: SequencerTypes>(
    first: Seq<SideEffect<T>>,
    second: Seq<SideEffect<T>>,
)
    ensures
        #[trigger] effects_of(first + second) == effects_of(first) + effects_of(second),
{
    assert(effects_of(first + second) =~= effects_of(first) + effects_of(second));
}

} // verus!
