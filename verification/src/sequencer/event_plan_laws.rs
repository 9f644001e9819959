//! What is done about each event, told by the event itself.

use vstd::prelude::*;

use crate::common::{SlotNumber, VisibleSlotNumber};
use crate::sequencer::event_plan::{
    accepted_effects, accepted_run, handled_together, lemma_leading_accepted_unique,
    planned_effects, settlement_effects,
};
use crate::sequencer::executor_events::{
    AcceptedTx, BatchToStore, BlobId, ExecutorEvent, ExecutorEventKind, ReadBatch,
    RecoveryStrategy, SequenceNumber, SequencerTypes,
};
use crate::sequencer::side_effect::Effect;

verus! {

proof fn lemma_run_is_the_front<T: SequencerTypes>(queue: Seq<ExecutorEvent<T>>, n: int)
    requires
        0 < n <= queue.len(),
        forall|i: int| 0 <= i < n ==> #[trigger] queue[i] is AcceptedTx,
        n < queue.len() ==> !(queue[n] is AcceptedTx),
    ensures
        handled_together(queue) == n,
        ({
            let run = accepted_run(queue[0]->AcceptedTx_0, queue.skip(1));
            &&& run.len() == n
            &&& forall|i: int| 0 <= i < n ==> #[trigger] run[i] == queue[i]->AcceptedTx_0
            &&& planned_effects(queue) == accepted_effects(run) + seq![
                Effect::RecordEvent { kind: ExecutorEventKind::AcceptedTx, batch_size: n as nat },
            ]
        }),
{
    assert(queue[0] is AcceptedTx);
    let rest = queue.skip(1);
    assert forall|i: int| 0 <= i < n - 1 implies #[trigger] rest[i] is AcceptedTx by {
        assert(rest[i] == queue[i + 1]);
    }
    if n - 1 < rest.len() {
        assert(rest[n - 1] == queue[n]);
    }
    lemma_leading_accepted_unique(rest, n - 1);
    lemma_leading_accepted_unique(queue, n);
    let run = accepted_run(queue[0]->AcceptedTx_0, rest);
    assert forall|i: int| 0 <= i < n implies #[trigger] run[i] == queue[i]->AcceptedTx_0 by {
        if i > 0 {
            assert(rest[i - 1] == queue[i]);
        }
    }
}

/// Accepted transactions at the front of the queue are stored before anything else is done
/// about them: in the batch and from the index that the first of them names, and each of them,
/// at its place, by its own data under its own hash. All of them are stored together, and
/// nothing else.
pub proof fn accepted_txs_are_stored_where_they_belong<T: SequencerTypes>(
    queue: Seq<ExecutorEvent<T>>,
    n: int,
)
    requires
        0 < n <= queue.len(),
        forall|i: int| 0 <= i < n ==> #[trigger] queue[i] is AcceptedTx,
        n < queue.len() ==> !(queue[n] is AcceptedTx),
    ensures
        handled_together(queue) == n,
        planned_effects(queue).len() > 0,
        match (queue[0], planned_effects(queue)[0]) {
            (
                ExecutorEvent::AcceptedTx(first),
                Effect::BulkInsertTxs { txs, sequence_number, tx_idx_within_batch },
            ) => {
                &&& sequence_number == first.sequence_number
                &&& tx_idx_within_batch == first.tx_idx_within_batch
                &&& txs.len() == n
                &&& forall|i: int|
                    #![trigger txs[i]]
                    #![trigger queue[i]]
                    0 <= i < n ==> (queue[i] matches ExecutorEvent::AcceptedTx(contents)
                        && txs[i].0 == contents.accepted_tx.tx.data@ && txs[i].1
                        == contents.accepted_tx.tx_hash)
            },
            _ => false,
        },
        forall|i: int|
            0 < i < planned_effects(queue).len() ==> !(#[trigger] planned_effects(queue)[i]
                is BulkInsertTxs),
{
    lemma_run_is_the_front(queue, n);
}

/// Behind the storing come, in this order: the changes of every accepted transaction, each
/// once; the word to the watchers; and for each transaction its confirmation to the one who
/// waits for it, a yield, and its way into the cache. A record of how many they were ends it.
pub proof fn accepted_txs_are_settled_one_by_one<T: SequencerTypes>(
    queue: Seq<ExecutorEvent<T>>,
    n: int,
)
    requires
        0 < n <= queue.len(),
        forall|i: int| 0 <= i < n ==> #[trigger] queue[i] is AcceptedTx,
        n < queue.len() ==> !(queue[n] is AcceptedTx),
    ensures
        ({
            let plan = planned_effects(queue);
            &&& plan.len() == 4 * n + 3
            &&& plan[n + 1] == Effect::<T>::NotifyCheckpoint
            &&& forall|i: int|
                #![trigger queue[i]]
                0 <= i < n ==> (queue[i] matches ExecutorEvent::AcceptedTx(contents) && {
                    &&& plan[1 + i] == Effect::<T>::ApplyTxChanges(contents.tx_changes)
                    &&& plan[n + 2 + 3 * i] == (Effect::<T>::ConfirmTx {
                        responder: contents.oneshot_sender,
                        accepted_tx: contents.accepted_tx,
                    })
                    &&& plan[n + 3 + 3 * i] == Effect::<T>::YieldNow
                    &&& plan[n + 4 + 3 * i] == Effect::<T>::CacheTx(contents.accepted_tx)
                })
            &&& plan[4 * n + 2] == (Effect::<T>::RecordEvent {
                kind: ExecutorEventKind::AcceptedTx,
                batch_size: n as nat,
            })
        }),
{
    lemma_run_is_the_front(queue, n);
    let plan = planned_effects(queue);
    let run = accepted_run(queue[0]->AcceptedTx_0, queue.skip(1));
    let accepted = accepted_effects(run);
    assert forall|i: int| #![trigger queue[i]] 0 <= i < n implies (queue[i] matches
        ExecutorEvent::AcceptedTx(contents) && {
        &&& plan[1 + i] == Effect::<T>::ApplyTxChanges(contents.tx_changes)
        &&& plan[n + 2 + 3 * i] == (Effect::<T>::ConfirmTx {
            responder: contents.oneshot_sender,
            accepted_tx: contents.accepted_tx,
        })
        &&& plan[n + 3 + 3 * i] == Effect::<T>::YieldNow
        &&& plan[n + 4 + 3 * i] == Effect::<T>::CacheTx(contents.accepted_tx)
    }) by {
        assert(run[i] == queue[i]->AcceptedTx_0);
        assert(plan[1 + i] == accepted[1 + i]);
        assert(accepted[n + 2 + 3 * i] == settlement_effects(run)[3 * i]);
        assert(accepted[n + 3 + 3 * i] == settlement_effects(run)[3 * i + 1]);
        assert(accepted[n + 4 + 3 * i] == settlement_effects(run)[3 * i + 2]);
        assert((3 * i) / 3 == i && (3 * i) % 3 == 0);
        assert((3 * i + 1) % 3 == 1);
        assert((3 * i + 2) / 3 == i && (3 * i + 2) % 3 == 2);
    }
}

/// Events other than accepted transactions are handled one at a time.
pub proof fn other_events_are_handled_alone<T: SequencerTypes>(queue: Seq<ExecutorEvent<T>>)
    requires
        queue.len() > 0,
        !(queue[0] is AcceptedTx),
    ensures
        handled_together(queue) == 1,
{
}

/// A batch that is closed is published, whatever came with it: exactly once, directly after
/// the blob sender has heard of its blob with all its transactions, and after the database
/// has noted it as complete and the API has moved on. The forced transactions are cached
/// behind that, each once and in order.
pub proof fn closed_batch_is_stored_and_published<T: SequencerTypes>(
    queue: Seq<ExecutorEvent<T>>,
    batch: ReadBatch,
    checkpoint: T::Checkpoint,
    forced_txs: Vec<AcceptedTx<T>>,
)
    requires
        queue.len() > 0,
        queue[0] == (ExecutorEvent::<T>::CloseBatch { batch, checkpoint, forced_txs }),
    ensures
        ({
            let plan = planned_effects(queue);
            &&& plan.len() == 5 + forced_txs@.len()
            &&& plan[0] == Effect::<T>::TerminateBatch(
                BatchToStore {
                    blob_id: batch.blob_id,
                    sequence_number: batch.sequence_number,
                    visible_slot_number_after_increase: batch.visible_slot_number_after_increase,
                    visible_slots_to_advance: batch.visible_slots_to_advance,
                },
            )
            &&& plan[1] == Effect::<T>::UpdateApiState(checkpoint)
            &&& plan[2] == (Effect::<T>::AddTxs {
                blob_id: batch.blob_id,
                tx_hashes: batch.tx_hashes@,
            })
            &&& plan[3] == Effect::<T>::PublishBatch(batch)
            &&& forall|i: int|
                0 <= i < forced_txs@.len() ==> #[trigger] plan[4 + i] == Effect::<T>::CacheTx(
                    forced_txs@[i],
                )
            &&& plan.last() == (Effect::<T>::RecordEvent {
                kind: ExecutorEventKind::CloseBatch,
                batch_size: 1,
            })
            &&& forall|i: int|
                0 <= i < plan.len() && i != 3 ==> !(#[trigger] plan[i] is PublishBatch)
        }),
{
}

/// A batch that has begun is noted in the database with everything the event says of it, and
/// only then the API serves the checkpoint that the event brings.
pub proof fn started_batch_is_stored_before_it_is_served<T: SequencerTypes>(
    queue: Seq<ExecutorEvent<T>>,
    visible_slot_number_after_increase: VisibleSlotNumber,
    visible_slots_to_advance: u8,
    sequence_number: SequenceNumber,
    new_checkpoint: T::Checkpoint,
    blob_id: BlobId,
)
    requires
        queue.len() > 0,
        queue[0] == (ExecutorEvent::<T>::StartBatch {
            visible_slot_number_after_increase,
            visible_slots_to_advance,
            sequence_number,
            new_checkpoint,
            blob_id,
        }),
    ensures
        planned_effects(queue).len() == 3,
        planned_effects(queue)[0] == (Effect::<T>::StartBatch {
            visible_slot_number_after_increase,
            visible_slots_to_advance,
            sequence_number,
            blob_id,
        }),
        planned_effects(queue)[1] == Effect::<T>::UpdateApiState(new_checkpoint),
        planned_effects(queue)[2] == (Effect::<T>::RecordEvent {
            kind: ExecutorEventKind::StartBatch,
            batch_size: 1,
        }),
{
}

/// A recovery notes the batch that was open as complete, if there was one. Pending soft
/// confirmations are all published again if they are to be saved, and otherwise the node
/// exits. Without pending ones neither happens.
pub proof fn recovery_saves_or_exits<T: SequencerTypes>(
    queue: Seq<ExecutorEvent<T>>,
    blobs_to_flush: Vec<T::Blob>,
    recovery_strategy: RecoveryStrategy,
    batch_to_close: Option<ReadBatch>,
)
    requires
        queue.len() > 0,
        queue[0] == (ExecutorEvent::<T>::TriggerRecovery {
            blobs_to_flush,
            recovery_strategy,
            batch_to_close,
        }),
    ensures
        ({
            let plan = planned_effects(queue);
            let closed = if batch_to_close is Some {
                1int
            } else {
                0
            };
            let pending = if blobs_to_flush@.len() > 0 {
                1int
            } else {
                0
            };
            &&& plan.len() == closed + pending + 1
            &&& batch_to_close matches Some(batch) ==> plan[0] == Effect::<T>::TerminateBatch(
                BatchToStore {
                    blob_id: batch.blob_id,
                    sequence_number: batch.sequence_number,
                    visible_slot_number_after_increase: batch.visible_slot_number_after_increase,
                    visible_slots_to_advance: batch.visible_slots_to_advance,
                },
            )
            &&& pending == 1 && recovery_strategy is TryToSave ==> plan[closed] == Effect::<
                T,
            >::PublishBlobsForRecovery(blobs_to_flush@)
            &&& pending == 1 && recovery_strategy is NoRecovery ==> plan[closed] == Effect::<
                T,
            >::ExitRollup
            &&& plan.last() == (Effect::<T>::RecordEvent {
                kind: ExecutorEventKind::TriggerRecovery,
                batch_size: 1,
            })
        }),
{
}

/// A proof is stored and then published, both with the data, the sequence number and the blob
/// id of the event, whatever they are.
pub proof fn proof_is_stored_and_published<T: SequencerTypes>(
    queue: Seq<ExecutorEvent<T>>,
    blob_id: BlobId,
    data: Vec<u8>,
    sequence_number: SequenceNumber,
)
    requires
        queue.len() > 0,
        queue[0] == ExecutorEvent::<T>::PublishProofBlob(blob_id, data, sequence_number),
    ensures
        planned_effects(queue).len() == 3,
        planned_effects(queue)[0] == (Effect::<T>::InsertProofBlob {
            blob_id,
            data: data@,
            sequence_number,
        }),
        planned_effects(queue)[1] == (Effect::<T>::PublishProof {
            data: data@,
            sequence_number,
            blob_id,
        }),
        planned_effects(queue)[2] == (Effect::<T>::RecordEvent {
            kind: ExecutorEventKind::PublishProofBlob,
            batch_size: 1,
        }),
{
}

/// A checkpoint that the executor brings by itself, in a recovery or out of one, is what the
/// API serves next, after the delay that tests may ask for.
pub proof fn forced_checkpoint_is_served<T: SequencerTypes>(
    queue: Seq<ExecutorEvent<T>>,
    checkpoint: T::Checkpoint,
)
    requires
        queue.len() > 0,
        queue[0] == ExecutorEvent::<T>::ForceUpdateApiState(checkpoint) || queue[0]
            == ExecutorEvent::<T>::UpdateStateForRecovery(checkpoint),
    ensures
        planned_effects(queue).len() == 3,
        planned_effects(queue)[0] == Effect::<T>::DelayForTests,
        planned_effects(queue)[1] == Effect::<T>::UpdateApiState(checkpoint),
        planned_effects(queue)[2] == (Effect::<T>::RecordEvent {
            kind: if queue[0] is ForceUpdateApiState {
                ExecutorEventKind::ForceUpdateApiState
            } else {
                ExecutorEventKind::UpdateStateForRecovery
            },
            batch_size: 1,
        }),
{
}

/// The ledger API reads from the new snapshot before its subscribers hear of the slot, and
/// only after that the cache drops what comes before the next transaction.
pub proof fn ledger_is_updated_before_it_is_announced<T: SequencerTypes>(
    queue: Seq<ExecutorEvent<T>>,
    ledger_reader: T::LedgerReader,
    slot_number: SlotNumber,
    latest_finalized_slot_number: SlotNumber,
    next_tx_number: u64,
)
    requires
        queue.len() > 0,
        queue[0] == (ExecutorEvent::<T>::UpdateApiLedger {
            ledger_reader,
            slot_number,
            latest_finalized_slot_number,
            next_tx_number,
        }),
    ensures
        planned_effects(queue).len() == 4,
        planned_effects(queue)[0] == Effect::<T>::ReplaceLedgerReader(ledger_reader),
        planned_effects(queue)[1] == Effect::<T>::NotifySlot(slot_number),
        planned_effects(queue)[2] == Effect::<T>::PruneTxCache(next_tx_number),
        planned_effects(queue)[3] == (Effect::<T>::RecordEvent {
            kind: ExecutorEventKind::UpdateApiLedger,
            batch_size: 1,
        }),
{
}

/// The database is pruned up to the sequence number of the event, and nothing else is done.
pub proof fn database_is_pruned_as_asked<T: SequencerTypes>(
    queue: Seq<ExecutorEvent<T>>,
    sequence_number: SequenceNumber,
)
    requires
        queue.len() > 0,
        queue[0] == ExecutorEvent::<T>::PruneDb(sequence_number),
    ensures
        planned_effects(queue).len() == 2,
        planned_effects(queue)[0] == Effect::<T>::PruneDb(sequence_number),
        planned_effects(queue)[1] == (Effect::<T>::RecordEvent {
            kind: ExecutorEventKind::PruneDb,
            batch_size: 1,
        }),
{
}

/// The cache is flushed to the number of the event before the executor that waits for it is
/// told.
pub proof fn cache_is_flushed_before_it_is_confirmed<T: SequencerTypes>(
    queue: Seq<ExecutorEvent<T>>,
    next_tx_number: u64,
    oneshot_sender: T::FlushResponder,
)
    requires
        queue.len() > 0,
        queue[0] == (ExecutorEvent::<T>::FlushTransactionsCache { next_tx_number, oneshot_sender }),
    ensures
        planned_effects(queue).len() == 3,
        planned_effects(queue)[0] == Effect::<T>::ResetTxCache(next_tx_number),
        planned_effects(queue)[1] == Effect::<T>::ConfirmFlush(oneshot_sender),
        planned_effects(queue)[2] == (Effect::<T>::RecordEvent {
            kind: ExecutorEventKind::FlushTransactionsCache,
            batch_size: 1,
        }),
{
}

/// An event has the kind of its own name, so two events share a kind only if they are of the
/// same sort.
pub proof fn kinds_tell_events_apart<T: SequencerTypes>(event: ExecutorEvent<T>)
    ensures
        event.spec_kind() is AcceptedTx <==> event is AcceptedTx,
        event.spec_kind() is CloseBatch <==> event is CloseBatch,
        event.spec_kind() is StartBatch <==> event is StartBatch,
        event.spec_kind() is TriggerRecovery <==> event is TriggerRecovery,
        event.spec_kind() is PublishProofBlob <==> event is PublishProofBlob,
        event.spec_kind() is ForceUpdateApiState <==> event is ForceUpdateApiState,
        event.spec_kind() is UpdateApiLedger <==> event is UpdateApiLedger,
        event.spec_kind() is PruneDb <==> event is PruneDb,
        event.spec_kind() is UpdateStateForRecovery <==> event is UpdateStateForRecovery,
        event.spec_kind() is FlushTransactionsCache <==> event is FlushTransactionsCache,
{
}

} // verus!
