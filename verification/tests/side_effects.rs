use std::collections::VecDeque;

use ligate_node::common::{SlotNumber, VisibleSlotNumber};
use ligate_node::sequencer::event_plan::{drain_consecutive_accepted_txs, handle_executor_event};
use ligate_node::sequencer::executor_events::{
    AcceptedTx, AcceptedTxEventContents, BatchToStore, Confirmation, ExecutorEvent,
    ExecutorEventKind, FullyBakedTx, ReadBatch, RecoveryStrategy, SequencerTypes,
};
use ligate_node::sequencer::side_effect::{PromoteError, SideEffect};
use ligate_node::sequencer::side_effects_task::{
    RoleTransitionRequest, SideEffectsTask, TaskAction, TaskInput,
};
use ligate_node::sequencer::test_delay::{parse_u64, requested_delay, InvalidDelay};
use ligate_node::state_machine::TxHash;
use tokio::sync::oneshot;

struct TestTypes;

impl SequencerTypes for TestTypes {
    type Checkpoint = u32;
    type TxChanges = u64;
    type Event = ();
    type Receipt = ();
    type LedgerReader = &'static str;
    type Blob = u16;
    type Backend = &'static str;
    type TxResponder = oneshot::Sender<u64>;
    type FlushResponder = &'static str;
    type TransitionResponder = &'static str;
    type Error = &'static str;
}

type Event = ExecutorEvent<TestTypes>;
type Effect = SideEffect<TestTypes>;
type Task = SideEffectsTask<TestTypes>;
type Input = TaskInput<TestTypes>;
type Action = TaskAction<TestTypes>;

fn accepted_tx(number: u64, data: Vec<u8>) -> AcceptedTx<TestTypes> {
    AcceptedTx {
        tx: FullyBakedTx::new(data),
        tx_hash: TxHash::new([number as u8; 32]),
        confirmation: Confirmation {
            events: vec![],
            receipt: (),
            tx_number: number,
            timestamp_nanos: None,
        },
    }
}

fn create_accepted_tx_event(number: u64) -> Event {
    accepted_tx_event(number, vec![])
}

fn accepted_tx_event(number: u64, data: Vec<u8>) -> Event {
    let (sender, _) = oneshot::channel();
    ExecutorEvent::AcceptedTx(AcceptedTxEventContents {
        accepted_tx: accepted_tx(number, data),
        tx_changes: number,
        oneshot_sender: sender,
        sequence_number: 0,
        tx_idx_within_batch: number,
    })
}

fn extract_contents(event: Event) -> AcceptedTxEventContents<TestTypes> {
    match event {
        ExecutorEvent::AcceptedTx(contents) => contents,
        _ => panic!("Expected AcceptedTx event"),
    }
}

fn batch() -> ReadBatch {
    ReadBatch {
        blob_id: 77,
        sequence_number: 5,
        visible_slot_number_after_increase: VisibleSlotNumber(9),
        visible_slots_to_advance: 2,
        txs: vec![FullyBakedTx::new(vec![1])],
        tx_hashes: vec![TxHash::new([1; 32])],
    }
}

fn stored_batch() -> BatchToStore {
    BatchToStore {
        blob_id: 77,
        sequence_number: 5,
        visible_slot_number_after_increase: VisibleSlotNumber(9),
        visible_slots_to_advance: 2,
    }
}

fn show(effect: &Effect) -> String {
    match effect {
        SideEffect::BulkInsertTxs { txs, sequence_number, tx_idx_within_batch } => {
            let txs: Vec<(Vec<u8>, u8)> = txs
                .iter()
                .map(|(tx, hash)| (tx.data.clone(), hash.0[0]))
                .collect();
            format!("insert {txs:?} {sequence_number} {tx_idx_within_batch}")
        }
        SideEffect::ApplyTxChanges(changes) => format!("apply {changes}"),
        SideEffect::NotifyCheckpoint => "notify".to_string(),
        SideEffect::ConfirmTx { accepted_tx, .. } => {
            format!("confirm {}", accepted_tx.confirmation.tx_number)
        }
        SideEffect::YieldNow => "yield".to_string(),
        SideEffect::CacheTx(tx) => format!("cache {}", tx.confirmation.tx_number),
        SideEffect::TerminateBatch(info) => {
            assert_eq!(*info, stored_batch());
            "terminate".to_string()
        }
        SideEffect::UpdateApiState(checkpoint) => format!("api {checkpoint}"),
        SideEffect::AddTxs { blob_id, tx_hashes } => {
            format!("add {blob_id} {}", tx_hashes.len())
        }
        SideEffect::PublishBatch(batch) => format!("publish {}", batch.blob_id),
        SideEffect::StartBatch {
            visible_slot_number_after_increase,
            visible_slots_to_advance,
            sequence_number,
            blob_id,
        } => format!(
            "start {} {visible_slots_to_advance} {sequence_number} {blob_id}",
            visible_slot_number_after_increase.0
        ),
        SideEffect::PublishBlobsForRecovery(blobs) => format!("recover {blobs:?}"),
        SideEffect::ExitRollup => "exit".to_string(),
        SideEffect::InsertProofBlob { blob_id, data, sequence_number } => {
            format!("insert proof {blob_id} {data:?} {sequence_number}")
        }
        SideEffect::PublishProof { data, sequence_number, blob_id } => {
            format!("publish proof {blob_id} {data:?} {sequence_number}")
        }
        SideEffect::DelayForTests => "delay".to_string(),
        SideEffect::ReplaceLedgerReader(reader) => format!("reader {reader}"),
        SideEffect::NotifySlot(slot) => format!("slot {}", slot.0),
        SideEffect::PruneTxCache(n) => format!("prune cache {n}"),
        SideEffect::PruneDb(n) => format!("prune db {n}"),
        SideEffect::ResetTxCache(n) => format!("reset cache {n}"),
        SideEffect::ConfirmFlush(responder) => format!("flushed {responder}"),
        SideEffect::RecordEvent { kind, batch_size } => format!("record {kind:?} {batch_size}"),
        SideEffect::SetBackend(backend) => format!("backend {backend:?}"),
        SideEffect::DeactivateBlobSender => "deactivate".to_string(),
        SideEffect::ConfirmTransition { responder, outcome } => {
            format!("answer {responder} {outcome:?}")
        }
    }
}

fn show_action(action: &Action) -> String {
    match action {
        TaskAction::Select => "Select".to_string(),
        TaskAction::TryRecv => "TryRecv".to_string(),
        TaskAction::Perform(effect) => show(effect),
        TaskAction::SignalShutdown => "SignalShutdown".to_string(),
        TaskAction::ConnectBackend => "ConnectBackend".to_string(),
        TaskAction::ReadSnapshot => "ReadSnapshot".to_string(),
        TaskAction::ActivateBlobSender(blobs) => format!("Activate {blobs:?}"),
        TaskAction::Stop => "Stop".to_string(),
    }
}

fn plan(events: Vec<Event>) -> (Vec<String>, usize) {
    let mut queue: VecDeque<Event> = events.into();
    let plan = handle_executor_event(&mut queue);
    (plan.iter().map(show).collect(), queue.len())
}

fn step(task: Task, input: Input) -> (Task, String) {
    assert!(task.accepts(&input));
    let (task, action) = task.step(input);
    (task, show_action(&action))
}

#[test]
fn test_drain_consecutive_accepted_txs() {
    let events = (1..1001)
        .map(create_accepted_tx_event)
        .collect::<VecDeque<_>>();
    // Test 1: draining from an empty queue
    {
        let first_event = create_accepted_tx_event(0);
        let drained_txs =
            drain_consecutive_accepted_txs(extract_contents(first_event), &mut VecDeque::new());
        // We should get back the event that we passed and no others. The queue should still be empty.
        assert_eq!(drained_txs.len(), 1);
    }

    // Test draining from a queue where the first event is not AcceptedTx
    {
        let first_event = create_accepted_tx_event(0);
        let mut event_queue = vec![ExecutorEvent::PruneDb(0)].into();
        let drained_txs =
            drain_consecutive_accepted_txs(extract_contents(first_event), &mut event_queue);
        // We should get back the event that we passed and no others. The queue should be untouched
        assert_eq!(drained_txs.len(), 1);
        assert_eq!(event_queue.len(), 1);
    }

    // Test draining from a queue where the first event is not AcceptedTx and there are other events in the queue
    {
        let first_event = create_accepted_tx_event(0);
        let second_event = create_accepted_tx_event(1);
        let mut event_queue = vec![ExecutorEvent::PruneDb(0), second_event].into();
        let drained_txs =
            drain_consecutive_accepted_txs(extract_contents(first_event), &mut event_queue);
        // We should get back the event that we passed and no others. The queue should be untouched
        assert_eq!(drained_txs.len(), 1);
        assert_eq!(event_queue.len(), 2);
    }

    // test a large queue size
    {
        let first_event = create_accepted_tx_event(0);
        let mut event_queue = events;
        // Put a non-accepted tx in the middle of the queue
        event_queue.insert(500, ExecutorEvent::PruneDb(0));
        let drained_txs =
            drain_consecutive_accepted_txs(extract_contents(first_event), &mut event_queue);
        // We should drain events at index 0..499 (so 500 of them) plus the "first" event
        assert_eq!(drained_txs.len(), 501);
        assert_eq!(event_queue.len(), 501); // There should be 501 events in the queue - one prune and the remaining 500 accept txs
        for i in 0..501 {
            assert_eq!(
                drained_txs[i as usize].accepted_tx.confirmation.tx_number,
                i
            );
        }

        // Drain the prune event
        event_queue.pop_front();

        // Drain the last half of the events and check correctness
        let drained_txs = drain_consecutive_accepted_txs(
            extract_contents(create_accepted_tx_event(0)),
            &mut event_queue,
        );
        assert_eq!(drained_txs.len(), 501);
        assert_eq!(event_queue.len(), 0);
        let first_event_received = drained_txs.first().unwrap();
        assert_eq!(first_event_received.accepted_tx.confirmation.tx_number, 0);
        for i in 1..501 {
            assert_eq!(
                drained_txs[i as usize].accepted_tx.confirmation.tx_number,
                i + 500
            );
        }
    }
}

#[test]
fn accepted_txs_are_stored_shown_and_confirmed() {
    let (effects, left) = plan(vec![
        accepted_tx_event(3, vec![30, 31]),
        accepted_tx_event(4, vec![40]),
        ExecutorEvent::PruneDb(1),
        accepted_tx_event(5, vec![]),
    ]);
    assert_eq!(
        effects,
        [
            "insert [([30, 31], 3), ([40], 4)] 0 3",
            "apply 3",
            "apply 4",
            "notify",
            "confirm 3",
            "yield",
            "cache 3",
            "confirm 4",
            "yield",
            "cache 4",
            "record AcceptedTx 2",
        ]
    );
    assert_eq!(left, 2);
}

#[test]
fn batches_are_stored_before_they_are_published() {
    let (effects, left) = plan(vec![ExecutorEvent::CloseBatch {
        batch: batch(),
        checkpoint: 4,
        forced_txs: vec![accepted_tx(8, vec![]), accepted_tx(9, vec![])],
    }]);
    assert_eq!(
        effects,
        [
            "terminate",
            "api 4",
            "add 77 1",
            "publish 77",
            "cache 8",
            "cache 9",
            "record CloseBatch 1",
        ]
    );
    assert_eq!(left, 0);
}

#[test]
fn other_events_have_their_effects() {
    let (effects, _) = plan(vec![ExecutorEvent::StartBatch {
        visible_slot_number_after_increase: VisibleSlotNumber(3),
        visible_slots_to_advance: 1,
        sequence_number: 8,
        new_checkpoint: 6,
        blob_id: 12,
    }]);
    assert_eq!(effects, ["start 3 1 8 12", "api 6", "record StartBatch 1"]);

    let (effects, _) = plan(vec![ExecutorEvent::PublishProofBlob(2, vec![1, 2], 3)]);
    assert_eq!(
        effects,
        [
            "insert proof 2 [1, 2] 3",
            "publish proof 2 [1, 2] 3",
            "record PublishProofBlob 1",
        ]
    );

    let (effects, _) = plan(vec![ExecutorEvent::ForceUpdateApiState(1)]);
    assert_eq!(effects, ["delay", "api 1", "record ForceUpdateApiState 1"]);

    let (effects, _) = plan(vec![ExecutorEvent::UpdateStateForRecovery(2)]);
    assert_eq!(effects, ["delay", "api 2", "record UpdateStateForRecovery 1"]);

    let (effects, _) = plan(vec![ExecutorEvent::UpdateApiLedger {
        ledger_reader: "snapshot",
        slot_number: SlotNumber(7),
        latest_finalized_slot_number: SlotNumber(5),
        next_tx_number: 40,
    }]);
    assert_eq!(
        effects,
        ["reader snapshot", "slot 7", "prune cache 40", "record UpdateApiLedger 1"]
    );

    let (effects, _) = plan(vec![ExecutorEvent::PruneDb(6)]);
    assert_eq!(effects, ["prune db 6", "record PruneDb 1"]);

    let (effects, _) = plan(vec![ExecutorEvent::FlushTransactionsCache {
        next_tx_number: 30,
        oneshot_sender: "executor",
    }]);
    assert_eq!(
        effects,
        ["reset cache 30", "flushed executor", "record FlushTransactionsCache 1"]
    );
}

#[test]
fn recovery_follows_its_strategy() {
    let recovery = |blobs_to_flush, recovery_strategy, batch_to_close| {
        plan(vec![ExecutorEvent::TriggerRecovery {
            blobs_to_flush,
            recovery_strategy,
            batch_to_close,
        }])
        .0
    };
    assert_eq!(
        recovery(vec![1, 2], RecoveryStrategy::TryToSave, Some(batch())),
        ["terminate", "recover [1, 2]", "record TriggerRecovery 1"]
    );
    assert_eq!(
        recovery(vec![1], RecoveryStrategy::NoRecovery, None),
        ["exit", "record TriggerRecovery 1"]
    );
    assert_eq!(
        recovery(vec![], RecoveryStrategy::NoRecovery, None),
        ["record TriggerRecovery 1"]
    );
    assert_eq!(
        recovery(vec![], RecoveryStrategy::TryToSave, Some(batch())),
        ["terminate", "record TriggerRecovery 1"]
    );
}

#[test]
fn task_fills_its_queue_and_handles_it() {
    let task = Task::new(3, true);
    let (task, action) = step(task, TaskInput::Received(Some(create_accepted_tx_event(1))));
    assert_eq!(action, "TryRecv");
    let (task, action) = step(task, TaskInput::Polled(Some(create_accepted_tx_event(2))));
    assert_eq!(action, "TryRecv");
    // The queue is full, so it is handled without another poll.
    let (task, action) = step(task, TaskInput::Polled(Some(ExecutorEvent::PruneDb(9))));
    assert_eq!(action, "insert [([], 1), ([], 2)] 0 1");
    assert_eq!(task.queue_len(), 1);
    let mut task = task;
    for expected in [
        "apply 1",
        "apply 2",
        "notify",
        "confirm 1",
        "yield",
        "cache 1",
        "confirm 2",
        "yield",
        "cache 2",
        "record AcceptedTx 2",
        "prune db 9",
        "record PruneDb 1",
        "Select",
    ] {
        let (next, action) = step(task, TaskInput::Done);
        assert_eq!(action, expected);
        task = next;
    }
    let (task, action) = step(task, TaskInput::Received(None));
    assert_eq!(action, "Stop");
    assert!(!task.accepts(&TaskInput::Done));
}

#[test]
fn failure_keeps_waiting_events() {
    let task = Task::new(8, true);
    let (task, _) = step(task, TaskInput::Received(Some(create_accepted_tx_event(1))));
    let (task, _) = step(task, TaskInput::Polled(Some(ExecutorEvent::PruneDb(4))));
    let (task, action) = step(task, TaskInput::Polled(None));
    assert_eq!(action, "insert [([], 1)] 0 1");
    let (task, action) = step(task, TaskInput::Failed);
    assert_eq!(action, "SignalShutdown");
    assert_eq!(task.queue_len(), 1);
    // A change of role does not touch them.
    let (task, action) = step(
        task,
        TaskInput::RoleTransition(RoleTransitionRequest::Demote { confirm: "actor" }),
    );
    assert_eq!(action, "backend None");
    // What cannot fail is not reported as failed.
    assert!(!task.accepts(&TaskInput::Failed));
    let (task, action) = step(task, TaskInput::Done);
    assert_eq!(action, "deactivate");
    let (task, action) = step(task, TaskInput::Done);
    assert_eq!(action, "answer actor Ok(())");
    let (task, action) = step(task, TaskInput::Done);
    assert_eq!(action, "Select");
    assert_eq!(task.queue_len(), 1);
    // The next event brings the waiting one along, in order.
    let (task, action) = step(task, TaskInput::Received(Some(ExecutorEvent::PruneDb(5))));
    assert_eq!(action, "TryRecv");
    let (task, action) = step(task, TaskInput::Polled(None));
    assert_eq!(action, "prune db 4");
    assert_eq!(task.queue_len(), 1);
}

fn promote(task: Task) -> (Task, String) {
    step(
        task,
        TaskInput::RoleTransition(RoleTransitionRequest::Promote { confirm: "actor" }),
    )
}

#[test]
fn promotion_takes_the_connection_into_use() {
    let (task, action) = promote(Task::new(1, true));
    assert_eq!(action, "ConnectBackend");
    assert!(task.pending_backend().is_none());
    let (task, action) = step(task, TaskInput::Connected(Ok("connection")));
    assert_eq!(action, "ReadSnapshot");
    assert_eq!(task.pending_backend(), Some(&"connection"));
    let (task, action) = step(task, TaskInput::SnapshotRead(Ok(vec![5, 6])));
    assert_eq!(action, "Activate [5, 6]");
    let (task, action) = step(task, TaskInput::Activated(Ok(())));
    assert_eq!(action, "backend Some(\"connection\")");
    assert!(task.pending_backend().is_none());
    let (task, action) = step(task, TaskInput::Done);
    assert_eq!(action, "answer actor Ok(())");
    let (_, action) = step(task, TaskInput::Done);
    assert_eq!(action, "Select");
}

#[test]
fn failed_promotion_only_answers() {
    let (task, action) = promote(Task::new(1, false));
    assert_eq!(action, "answer actor Err(NoPostgresConfig)");
    let (_, action) = step(task, TaskInput::Done);
    assert_eq!(action, "Select");

    let (task, _) = promote(Task::new(1, true));
    let (_, action) = step(task, TaskInput::Connected(Err("refused")));
    assert_eq!(action, "answer actor Err(Connect(\"refused\"))");

    let (task, _) = promote(Task::new(1, true));
    let (task, _) = step(task, TaskInput::Connected(Ok("connection")));
    let (_, action) = step(task, TaskInput::SnapshotRead(Err("gone")));
    assert_eq!(action, "answer actor Err(Snapshot(\"gone\"))");

    let (task, _) = promote(Task::new(1, true));
    let (task, _) = step(task, TaskInput::Connected(Ok("connection")));
    let (task, _) = step(task, TaskInput::SnapshotRead(Ok(vec![])));
    let (_, action) = step(task, TaskInput::Activated(Err("busy")));
    assert_eq!(action, "answer actor Err(Activate(\"busy\"))");
    assert_eq!(
        PromoteError::<u8>::NoPostgresConfig,
        PromoteError::NoPostgresConfig
    );
}

#[test]
fn kinds_follow_the_events() {
    assert_eq!(
        create_accepted_tx_event(0).kind(),
        ExecutorEventKind::AcceptedTx
    );
    assert_eq!(Event::PruneDb(0).kind(), ExecutorEventKind::PruneDb);
    assert_eq!(batch().info_to_store(), stored_batch());
}

#[test]
fn delays_are_whole_milliseconds() {
    assert_eq!(requested_delay(None), Ok(None));
    assert_eq!(requested_delay(Some("0")), Ok(None));
    assert_eq!(requested_delay(Some("250")), Ok(Some(250)));
    for raw in ["", "+", "-1", " 5", "5 ", "1.5", "x", "18446744073709551616"] {
        assert_eq!(requested_delay(Some(raw)), Err(InvalidDelay));
        assert!(raw.parse::<u64>().is_err());
    }
    for raw in ["+7", "007", "18446744073709551615", "10"] {
        assert_eq!(parse_u64(raw), raw.parse::<u64>().ok());
        assert!(parse_u64(raw).is_some());
    }
}

#[test]
fn nothing_can_fail_once_txs_are_stored() {
    let task = Task::new(1, true);
    let (task, action) = step(task, TaskInput::Received(Some(create_accepted_tx_event(1))));
    assert_eq!(action, "insert [([], 1)] 0 1");
    assert!(task.accepts(&TaskInput::Failed));
    let mut task = task;
    for _ in 0..6 {
        let (next, _) = step(task, TaskInput::Done);
        assert!(!next.accepts(&TaskInput::Failed));
        task = next;
    }
    let (_, action) = step(task, TaskInput::Done);
    assert_eq!(action, "Select");
}

fn run_promotion(task: Task) -> Task {
    let (task, _) = promote(task);
    let (task, _) = step(task, TaskInput::Connected(Ok("connection")));
    let (task, _) = step(task, TaskInput::SnapshotRead(Ok(vec![1])));
    let (task, action) = step(task, TaskInput::Activated(Ok(())));
    assert_eq!(action, "backend Some(\"connection\")");
    let (task, action) = step(task, TaskInput::Done);
    assert_eq!(action, "answer actor Ok(())");
    let (task, action) = step(task, TaskInput::Done);
    assert_eq!(action, "Select");
    task
}

fn run_demotion(task: Task) -> Task {
    let request = TaskInput::RoleTransition(RoleTransitionRequest::Demote { confirm: "actor" });
    let (mut task, mut action) = step(task, request);
    for expected in ["backend None", "deactivate", "answer actor Ok(())"] {
        assert_eq!(action, expected);
        assert!(!task.accepts(&TaskInput::Failed));
        (task, action) = step(task, TaskInput::Done);
    }
    assert_eq!(action, "Select");
    task
}

#[test]
fn leadership_is_taken_and_given_up_repeatedly() {
    let task = run_promotion(Task::new(2, true));
    let task = run_demotion(task);
    let task = run_demotion(task);
    let task = run_promotion(task);
    assert_eq!(task.queue_len(), 0);
}

#[test]
fn role_transitions_can_be_started_directly() {
    let demote = RoleTransitionRequest::Demote { confirm: "actor" };
    let (_, action) = Task::new(1, true).handle_role_transition(demote);
    assert_eq!(show_action(&action), "backend None");
    let (_, action) = Task::new(1, true).do_demote("actor");
    assert_eq!(show_action(&action), "backend None");
    let (_, action) = Task::new(1, true).do_promote("actor");
    assert_eq!(show_action(&action), "ConnectBackend");
}

#[test]
fn nothing_is_left_when_the_task_ends() {
    let (mut task, action) = Task::new(2, true).spawn();
    let mut action = show_action(&action);
    assert_eq!(action, "Select");
    let mut handled = vec![];
    let mut next: u64 = 0;
    // The channel always has another event until the fifth, so the queue of two runs hot.
    while action != "Stop" {
        let input = match action.as_str() {
            "Select" | "TryRecv" => {
                let event = if next < 5 { Some(ExecutorEvent::PruneDb(next)) } else { None };
                next += 1;
                if action == "Select" {
                    // Between two waits no more than two events are begun.
                    assert!(handled.len() % 2 == 0 || handled.len() == 5);
                    TaskInput::Received(event)
                } else {
                    TaskInput::Polled(event)
                }
            }
            effect => {
                if effect.starts_with("prune db") {
                    handled.push(effect.to_string());
                }
                TaskInput::Done
            }
        };
        (task, action) = step(task, input);
    }
    assert_eq!(
        handled,
        ["prune db 0", "prune db 1", "prune db 2", "prune db 3", "prune db 4"]
    );
    assert_eq!(task.queue_len(), 0);
    assert!(!task.accepts(&TaskInput::Received(None)));
}
