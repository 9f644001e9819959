//! Which side effects the events at the front of the queue have, and in which order.

use std::collections::VecDeque;
use std::sync::Arc;

use vstd::prelude::*;

use crate::common::SlotNumber;
use crate::sequencer::executor_events::{
    AcceptedTx, AcceptedTxEventContents, BatchToStore, ExecutorEvent, FullyBakedTx, ReadBatch,
    RecoveryStrategy, SequencerTypes,
};
use crate::sequencer::side_effect::{
    effects_of, lemma_effects_of_add, lemma_effects_of_push, Effect, SideEffect,
};
use crate::state_machine::TxHash;

verus! {

broadcast use {lemma_effects_of_push, lemma_effects_of_add};

// ---- Accepted transactions at the front of the queue -----------------------

/// How many events at the front of the queue are accepted transactions.
pub open spec fn leading_accepted<T: SequencerTypes>(queue: Seq<ExecutorEvent<T>>) -> nat
    decreases queue.len(),
{
    if queue.len() > 0 && queue[0] is AcceptedTx {
        1 + leading_accepted(queue.skip(1))
    } else {
        0
    }
}

/// `first` and the accepted transactions that directly follow it in the queue.
pub open spec fn accepted_run<T: SequencerTypes>(
    first: AcceptedTxEventContents<T>,
    queue: Seq<ExecutorEvent<T>>,
) -> Seq<AcceptedTxEventContents<T>> {
    seq![first] + Seq::new(leading_accepted(queue), |i: int| queue[i]->AcceptedTx_0)
}

/// The events that are counted are accepted transactions, and the next one, if there is
/// one, is not.
pub proof fn leading_accepted_is_maximal<T: SequencerTypes>(queue: Seq<ExecutorEvent<T>>)
    ensures
        leading_accepted(queue) <= queue.len(),
        forall|i: int| 0 <= i < leading_accepted(queue) ==> #[trigger] queue[i] is AcceptedTx,
        leading_accepted(queue) < queue.len() ==> !(queue[leading_accepted(queue) as int] is AcceptedTx),
    decreases queue.len(),
{
    if queue.len() > 0 && queue[0] is AcceptedTx {
        let rest = queue.skip(1);
        leading_accepted_is_maximal(rest);
        assert forall|i: int| 0 <= i < leading_accepted(queue) implies #[trigger] queue[i] is AcceptedTx by {
            if i > 0 {
                assert(queue[i] == rest[i - 1]);
            }
        }
    }
}

/// A count with that property is the count.
pub(crate) proof fn lemma_leading_accepted_unique<T: SequencerTypes>(queue: Seq<ExecutorEvent<T>>, n: int)
    requires
        0 <= n <= queue.len(),
        forall|i: int| 0 <= i < n ==> #[trigger] queue[i] is AcceptedTx,
        n < queue.len() ==> !(queue[n] is AcceptedTx),
    ensures
        leading_accepted(queue) == n,
{
    leading_accepted_is_maximal(queue);
    let m = leading_accepted(queue) as int;
    if m < n {
        assert(queue[m] is AcceptedTx);
    } else if n < m {
        assert(queue[n] is AcceptedTx);
    }
}

/// Takes the accepted transactions from the front of the queue, up to the first event of
/// another kind, and puts them behind `first_tx`. The rest of the queue stays as it is.
pub fn drain_consecutive_accepted_txs<T: SequencerTypes>(
    first_tx: AcceptedTxEventContents<T>,
    event_queue: &mut VecDeque<ExecutorEvent<T>>,
) -> (txs_to_insert: Vec<AcceptedTxEventContents<T>>)
    ensures
        txs_to_insert@ == accepted_run(first_tx, old(event_queue)@),
        final(event_queue)@ == old(event_queue)@.skip(leading_accepted(old(event_queue)@) as int),
        1 <= txs_to_insert@.len() <= old(event_queue)@.len() + 1,
        txs_to_insert@[0] == first_tx,
        forall|i: int|
            1 <= i < txs_to_insert@.len() ==> (old(event_queue)@[i - 1] matches
                ExecutorEvent::AcceptedTx(contents) && #[trigger] txs_to_insert@[i] == contents),
        txs_to_insert@.len() <= old(event_queue)@.len() ==> !(old(
            event_queue,
        )@[txs_to_insert@.len() - 1] is AcceptedTx),
        final(event_queue)@ == old(event_queue)@.skip(txs_to_insert@.len() - 1),
{
    let ghost queue = event_queue@;
    let mut txs_to_insert: Vec<AcceptedTxEventContents<T>> = Vec::new();
    txs_to_insert.push(first_tx);
    let ghost mut n: int = 0;
    loop
        invariant
            queue == old(event_queue)@,
            0 <= n <= queue.len(),
            event_queue@ == queue.skip(n),
            forall|i: int| 0 <= i < n ==> #[trigger] queue[i] is AcceptedTx,
            txs_to_insert@ == seq![first_tx] + Seq::new(n as nat, |i: int| queue[i]->AcceptedTx_0),
        ensures
            n < queue.len() ==> !(queue[n] is AcceptedTx),
        decreases queue.len() - n,
    {
        match event_queue.pop_front() {
            None => {
                break;
            },
            Some(ExecutorEvent::AcceptedTx(accepted)) => {
                txs_to_insert.push(accepted);
                proof {
                    n = n + 1;
                    assert(event_queue@ =~= queue.skip(n));
                    assert(txs_to_insert@ =~= seq![first_tx] + Seq::new(
                        n as nat,
                        |i: int| queue[i]->AcceptedTx_0,
                    ));
                }
            },
            Some(next_event) => {
                // Not a transaction: put the event back and stop.
                event_queue.push_front(next_event);
                assert(event_queue@ =~= queue.skip(n));
                break;
            },
        }
    }
    proof {
        lemma_leading_accepted_unique(queue, n);
    }
    txs_to_insert
}

// ---- Effects of one event --------------------------------------------------

/// Applying what transactions changed, in their order.
pub open spec fn change_effects<T: SequencerTypes>(run: Seq<AcceptedTxEventContents<T>>) -> Seq<
    Effect<T>,
> {
    Seq::new(run.len(), |i: int| Effect::ApplyTxChanges(run[i].tx_changes))
}

/// Confirming each transaction, letting other tasks run, and then caching it, in their order.
pub open spec fn settlement_effects<T: SequencerTypes>(run: Seq<AcceptedTxEventContents<T>>) -> Seq<
    Effect<T>,
> {
    Seq::new(
        3 * run.len(),
        |i: int|
            if i % 3 == 0 {
                Effect::ConfirmTx {
                    responder: run[i / 3].oneshot_sender,
                    accepted_tx: run[i / 3].accepted_tx,
                }
            } else if i % 3 == 1 {
                Effect::YieldNow
            } else {
                Effect::CacheTx(run[i / 3].accepted_tx)
            },
    )
}

/// Storing transactions in one go, at the place of the first one.
pub open spec fn store_effect<T: SequencerTypes>(run: Seq<AcceptedTxEventContents<T>>) -> Effect<T> {
    Effect::BulkInsertTxs {
        txs: Seq::new(
            run.len(),
            |i: int| (run[i].accepted_tx.tx.data@, run[i].accepted_tx.tx_hash),
        ),
        sequence_number: run[0].sequence_number,
        tx_idx_within_batch: run[0].tx_idx_within_batch,
    }
}

/// The effects of consecutive accepted transactions: they are stored, then all their
/// changes become visible and the watchers are told, and only then each transaction is
/// confirmed to its submitter and, after other tasks had a chance to run, shown to the
/// subscribers.
pub open spec fn accepted_effects<T: SequencerTypes>(run: Seq<AcceptedTxEventContents<T>>) -> Seq<
    Effect<T>,
> {
    seq![store_effect(run)] + change_effects(run) + seq![Effect::NotifyCheckpoint]
        + settlement_effects(run)
}

/// The effects of consecutive accepted transactions.
fn accept_txs<T: SequencerTypes>(txs_to_insert: Vec<AcceptedTxEventContents<T>>) -> (plan: VecDeque<
    SideEffect<T>,
>)
    requires
        txs_to_insert@.len() > 0,
    ensures
        effects_of(plan@) == accepted_effects(txs_to_insert@),
{
    let ghost run = txs_to_insert@;
    let sequence_number: u64 = txs_to_insert[0].sequence_number;
    let tx_idx_within_batch: u64 = txs_to_insert[0].tx_idx_within_batch;

    let mut txs: Vec<(FullyBakedTx, TxHash)> = Vec::new();
    let mut i: usize = 0;
    while i < txs_to_insert.len()
        invariant
            run == txs_to_insert@,
            i <= run.len(),
            txs@.len() == i,
            forall|j: int|
                0 <= j < i ==> (#[trigger] txs@[j]).0.data@ == run[j].accepted_tx.tx.data@
                    && txs@[j].1 == run[j].accepted_tx.tx_hash,
        decreases run.len() - i,
    {
        let data = txs_to_insert[i].accepted_tx.tx.data.clone();
        assert(data@ =~= run[i as int].accepted_tx.tx.data@);
        txs.push((FullyBakedTx { data }, txs_to_insert[i].accepted_tx.tx_hash));
        i += 1;
    }

    let mut plan: VecDeque<SideEffect<T>> = VecDeque::new();
    plan.push_back(SideEffect::BulkInsertTxs { txs, sequence_number, tx_idx_within_batch });
    assert(effects_of(plan@) =~= seq![store_effect(run)]) by {
        assert(plan@[0]@->BulkInsertTxs_txs =~= store_effect(run)->BulkInsertTxs_txs);
    }

    let mut settlements: VecDeque<SideEffect<T>> = VecDeque::new();
    for contents in iter: txs_to_insert
        invariant
            iter.seq() == run,
            effects_of(plan@) == seq![store_effect(run)] + change_effects(run.take(iter.index())),
            effects_of(settlements@) == settlement_effects(run.take(iter.index())),
    {
        let ghost i = iter.index();
        assert(contents == run[i]);
        plan.push_back(SideEffect::ApplyTxChanges(contents.tx_changes));
        let accepted_tx = Arc::new(contents.accepted_tx);
        settlements.push_back(
            SideEffect::ConfirmTx {
                responder: contents.oneshot_sender,
                accepted_tx: accepted_tx.clone(),
            },
        );
        settlements.push_back(SideEffect::YieldNow);
        settlements.push_back(SideEffect::CacheTx(accepted_tx));
        assert(effects_of(plan@) =~= seq![store_effect(run)] + change_effects(run.take(i + 1)));
        assert(effects_of(settlements@) =~= settlement_effects(run.take(i + 1)));
    }
    assert(run.take(run.len() as int) =~= run);
    plan.push_back(SideEffect::NotifyCheckpoint);
    plan.append(&mut settlements);
    assert(effects_of(plan@) =~= accepted_effects(run));
    plan
}

/// The effects of closing a batch: it is noted in the database, the API moves on to the
/// new checkpoint, and only then the batch is published.
pub open spec fn close_batch_effects<T: SequencerTypes>(
    checkpoint: T::Checkpoint,
    batch: ReadBatch,
    info_to_store: BatchToStore,
) -> Seq<Effect<T>> {
    seq![
        Effect::TerminateBatch(info_to_store),
        Effect::UpdateApiState(checkpoint),
        Effect::AddTxs { blob_id: batch.blob_id, tx_hashes: batch.tx_hashes@ },
        Effect::PublishBatch(batch),
    ]
}

/// The effects of closing a batch.
pub fn close_and_publish_current_batch<T: SequencerTypes>(
    checkpoint: T::Checkpoint,
    batch: ReadBatch,
    info_to_store: BatchToStore,
) -> (plan: VecDeque<SideEffect<T>>)
    ensures
        effects_of(plan@) == close_batch_effects::<T>(checkpoint, batch, info_to_store),
        effects_of(plan@) == seq![
            Effect::<T>::TerminateBatch(info_to_store),
            Effect::UpdateApiState(checkpoint),
            Effect::AddTxs { blob_id: batch.blob_id, tx_hashes: batch.tx_hashes@ },
            Effect::PublishBatch(batch),
        ],
{
    let mut plan: VecDeque<SideEffect<T>> = VecDeque::new();
    plan.push_back(SideEffect::TerminateBatch(info_to_store));
    plan.push_back(update_api_state(checkpoint));
    let tx_hashes = batch.tx_hashes.clone();
    assert(tx_hashes@ =~= batch.tx_hashes@);
    plan.push_back(SideEffect::AddTxs { blob_id: batch.blob_id, tx_hashes });
    plan.push_back(SideEffect::PublishBatch(batch));
    assert(effects_of(plan@) =~= close_batch_effects::<T>(checkpoint, batch, info_to_store));
    plan
}

/// Lets the API serve the latest checkpoint.
pub fn update_api_state<T: SequencerTypes>(checkpoint: T::Checkpoint) -> (effect: SideEffect<T>)
    ensures
        effect@ == Effect::<T>::UpdateApiState(checkpoint),
        effect == SideEffect::<T>::UpdateApiState(checkpoint),
{
    SideEffect::UpdateApiState(checkpoint)
}

/// The effects of a new slot on the ledger API: it reads from the new snapshot before the
/// subscribers hear of the slot, and what it serves by then leaves the cache.
pub open spec fn ledger_effects<T: SequencerTypes>(
    ledger_reader: T::LedgerReader,
    slot_number: SlotNumber,
    next_tx_number: u64,
) -> Seq<Effect<T>> {
    seq![
        Effect::ReplaceLedgerReader(ledger_reader),
        Effect::NotifySlot(slot_number),
        Effect::PruneTxCache(next_tx_number),
    ]
}

/// The effects of a new slot on the ledger API.
pub fn update_api_ledger<T: SequencerTypes>(
    ledger_reader: T::LedgerReader,
    slot_number: SlotNumber,
    next_tx_number: u64,
) -> (plan: VecDeque<SideEffect<T>>)
    ensures
        effects_of(plan@) == ledger_effects::<T>(ledger_reader, slot_number, next_tx_number),
        effects_of(plan@) == seq![
            Effect::<T>::ReplaceLedgerReader(ledger_reader),
            Effect::NotifySlot(slot_number),
            Effect::PruneTxCache(next_tx_number),
        ],
{
    let mut plan: VecDeque<SideEffect<T>> = VecDeque::new();
    plan.push_back(SideEffect::ReplaceLedgerReader(ledger_reader));
    plan.push_back(SideEffect::NotifySlot(slot_number));
    plan.push_back(SideEffect::PruneTxCache(next_tx_number));
    assert(effects_of(plan@) =~= ledger_effects::<T>(ledger_reader, slot_number, next_tx_number));
    plan
}

/// The effects of a recovery on the soft confirmations that are pending. Without any there
/// is nothing to do.
pub open spec fn recovery_effects<T: SequencerTypes>(
    batches_to_flush: Seq<T::Blob>,
    recovery_strategy: RecoveryStrategy,
) -> Seq<Effect<T>> {
    if batches_to_flush.len() == 0 {
        seq![]
    } else {
        match recovery_strategy {
            RecoveryStrategy::TryToSave => seq![Effect::PublishBlobsForRecovery(batches_to_flush)],
            RecoveryStrategy::NoRecovery => seq![Effect::ExitRollup],
        }
    }
}

/// The effects of a recovery on the soft confirmations that are pending.
pub fn trigger_recovery<T: SequencerTypes>(
    batches_to_flush: Vec<T::Blob>,
    recovery_strategy: RecoveryStrategy,
) -> (plan: VecDeque<SideEffect<T>>)
    ensures
        effects_of(plan@) == recovery_effects::<T>(batches_to_flush@, recovery_strategy),
        batches_to_flush@.len() == 0 ==> plan@.len() == 0,
        batches_to_flush@.len() > 0 ==> plan@.len() == 1,
        batches_to_flush@.len() > 0 && recovery_strategy is TryToSave ==> plan@[0]
            == SideEffect::<T>::PublishBlobsForRecovery(batches_to_flush),
        batches_to_flush@.len() > 0 && recovery_strategy is NoRecovery ==> plan@[0] is ExitRollup,
{
    let mut plan: VecDeque<SideEffect<T>> = VecDeque::new();
    if !batches_to_flush.is_empty() {
        match recovery_strategy {
            RecoveryStrategy::TryToSave => {
                plan.push_back(SideEffect::PublishBlobsForRecovery(batches_to_flush));
            },
            RecoveryStrategy::NoRecovery => {
                plan.push_back(SideEffect::ExitRollup);
            },
        }
    }
    assert(effects_of(plan@) =~= recovery_effects::<T>(batches_to_flush@, recovery_strategy));
    plan
}

/// Caching transactions, in their order.
pub open spec fn cache_effects<T: SequencerTypes>(txs: Seq<AcceptedTx<T>>) -> Seq<Effect<T>> {
    Seq::new(txs.len(), |i: int| Effect::CacheTx(txs[i]))
}

/// The effects of an event, with `queue` behind it.
pub open spec fn event_effects<T: SequencerTypes>(
    event: ExecutorEvent<T>,
    queue: Seq<ExecutorEvent<T>>,
) -> Seq<Effect<T>> {
    match event {
        ExecutorEvent::AcceptedTx(first) => accepted_effects(accepted_run(first, queue)),
        ExecutorEvent::CloseBatch { batch, checkpoint, forced_txs } => close_batch_effects::<T>(
            checkpoint,
            batch,
            batch.stored(),
        ) + cache_effects(forced_txs@),
        ExecutorEvent::StartBatch {
            visible_slot_number_after_increase,
            visible_slots_to_advance,
            sequence_number,
            new_checkpoint,
            blob_id,
        } => seq![
            Effect::StartBatch {
                visible_slot_number_after_increase,
                visible_slots_to_advance,
                sequence_number,
                blob_id,
            },
            Effect::UpdateApiState(new_checkpoint),
        ],
        ExecutorEvent::TriggerRecovery { blobs_to_flush, recovery_strategy, batch_to_close } => (
        match batch_to_close {
            Some(batch) => seq![Effect::TerminateBatch(batch.stored())],
            None => seq![],
        }) + recovery_effects::<T>(blobs_to_flush@, recovery_strategy),
        ExecutorEvent::PublishProofBlob(blob_id, data, sequence_number) => seq![
            Effect::InsertProofBlob { blob_id, data: data@, sequence_number },
            Effect::PublishProof { data: data@, sequence_number, blob_id },
        ],
        ExecutorEvent::ForceUpdateApiState(new_checkpoint) => seq![
            Effect::DelayForTests,
            Effect::UpdateApiState(new_checkpoint),
        ],
        ExecutorEvent::UpdateApiLedger {
            ledger_reader,
            slot_number,
            latest_finalized_slot_number: _,
            next_tx_number,
        } => ledger_effects::<T>(ledger_reader, slot_number, next_tx_number),
        ExecutorEvent::PruneDb(sequence_number) => seq![Effect::PruneDb(sequence_number)],
        ExecutorEvent::UpdateStateForRecovery(checkpoint) => seq![
            Effect::DelayForTests,
            Effect::UpdateApiState(checkpoint),
        ],
        ExecutorEvent::FlushTransactionsCache { next_tx_number, oneshot_sender } => seq![
            Effect::ResetTxCache(next_tx_number),
            Effect::ConfirmFlush(oneshot_sender),
        ],
    }
}

/// How many events at the front of a queue are handled together: accepted transactions as
/// many as follow each other, other events one by one.
pub open spec fn handled_together<T: SequencerTypes>(queue: Seq<ExecutorEvent<T>>) -> nat {
    if queue[0] is AcceptedTx {
        leading_accepted(queue)
    } else {
        1
    }
}

/// Everything that is done about the events that are handled together at the front of a
/// queue. The handling is recorded when it is over.
pub open spec fn planned_effects<T: SequencerTypes>(queue: Seq<ExecutorEvent<T>>) -> Seq<Effect<T>> {
    event_effects(queue[0], queue.skip(1)) + seq![
        Effect::RecordEvent { kind: queue[0].spec_kind(), batch_size: handled_together(queue) },
    ]
}

/// At least one event is handled, and no more than there are.
pub proof fn handled_together_bounds<T: SequencerTypes>(queue: Seq<ExecutorEvent<T>>)
    requires
        queue.len() > 0,
    ensures
        1 <= handled_together(queue) <= queue.len(),
{
    leading_accepted_is_maximal(queue);
}

/// Takes at least one event from the front of the queue, accepted transactions as many as
/// follow each other, and returns what is to be done about them, in order.
pub fn handle_executor_event<T: SequencerTypes>(
    event_queue: &mut VecDeque<ExecutorEvent<T>>,
) -> (plan: VecDeque<SideEffect<T>>)
    requires
        old(event_queue)@.len() > 0,
    ensures
        effects_of(plan@) == planned_effects(old(event_queue)@),
        final(event_queue)@ == old(event_queue)@.skip(handled_together(old(event_queue)@) as int),
{
    let ghost queue = event_queue@;
    let queue_size_before: usize = event_queue.len();
    let next_event = event_queue.pop_front().unwrap();
    let ghost rest = event_queue@;
    assert(rest =~= queue.skip(1));
    let kind = next_event.kind();
    let mut plan: VecDeque<SideEffect<T>> = VecDeque::new();
    match next_event {
        ExecutorEvent::AcceptedTx(contents) => {
            let txs_to_insert = drain_consecutive_accepted_txs(contents, event_queue);
            plan = accept_txs(txs_to_insert);
            proof {
                leading_accepted_is_maximal(rest);
                assert(rest.skip(leading_accepted(rest) as int) =~= queue.skip(
                    1 + leading_accepted(rest) as int,
                ));
            }
        },
        ExecutorEvent::CloseBatch { batch, checkpoint, forced_txs } => {
            let info_to_store = batch.info_to_store();
            plan = close_and_publish_current_batch(checkpoint, batch, info_to_store);
            let ghost closing = effects_of(plan@);
            let ghost forced = forced_txs@;
            for tx in iter: forced_txs
                invariant
                    iter.seq() == forced,
                    effects_of(plan@) == closing + cache_effects(forced.take(iter.index())),
            {
                let ghost i = iter.index();
                plan.push_back(SideEffect::CacheTx(Arc::new(tx)));
                assert(effects_of(plan@) =~= closing + cache_effects(forced.take(i + 1)));
            }
            assert(forced.take(forced.len() as int) =~= forced);
        },
        ExecutorEvent::StartBatch {
            visible_slot_number_after_increase,
            visible_slots_to_advance,
            sequence_number,
            new_checkpoint,
            blob_id,
        } => {
            plan.push_back(
                SideEffect::StartBatch {
                    visible_slot_number_after_increase,
                    visible_slots_to_advance,
                    sequence_number,
                    blob_id,
                },
            );
            plan.push_back(update_api_state(new_checkpoint));
        },
        ExecutorEvent::TriggerRecovery { blobs_to_flush, recovery_strategy, batch_to_close } => {
            if let Some(batch) = batch_to_close {
                // The batch is among the blobs to publish, so it is only noted as complete.
                plan.push_back(SideEffect::TerminateBatch(batch.info_to_store()));
            }
            let mut recovery = trigger_recovery(blobs_to_flush, recovery_strategy);
            plan.append(&mut recovery);
        },
        ExecutorEvent::PublishProofBlob(blob_id, data, sequence_number) => {
            let copy = data.clone();
            assert(copy@ =~= data@);
            plan.push_back(SideEffect::InsertProofBlob { blob_id, data: copy, sequence_number });
            plan.push_back(SideEffect::PublishProof { data, sequence_number, blob_id });
        },
        ExecutorEvent::ForceUpdateApiState(new_checkpoint) => {
            plan.push_back(SideEffect::DelayForTests);
            plan.push_back(update_api_state(new_checkpoint));
        },
        ExecutorEvent::UpdateApiLedger {
            ledger_reader,
            slot_number,
            latest_finalized_slot_number: _,
            next_tx_number,
        } => {
            plan = update_api_ledger(ledger_reader, slot_number, next_tx_number);
        },
        ExecutorEvent::PruneDb(sequence_number) => {
            plan.push_back(SideEffect::PruneDb(sequence_number));
        },
        ExecutorEvent::UpdateStateForRecovery(checkpoint) => {
            plan.push_back(SideEffect::DelayForTests);
            plan.push_back(update_api_state(checkpoint));
        },
        ExecutorEvent::FlushTransactionsCache { next_tx_number, oneshot_sender } => {
            plan.push_back(SideEffect::ResetTxCache(next_tx_number));
            plan.push_back(SideEffect::ConfirmFlush(oneshot_sender));
        },
    }
    assert(effects_of(plan@) =~= event_effects(queue[0], queue.skip(1)));
    let queue_size_after: usize = event_queue.len();
    proof {
        handled_together_bounds(queue);
    }
    plan.push_back(
        SideEffect::RecordEvent { kind, batch_size: queue_size_before - queue_size_after },
    );
    plan
}

} // verus!
