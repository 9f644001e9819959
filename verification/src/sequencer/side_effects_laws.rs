//! What holds of the side effects task over many steps.

use vstd::prelude::*;

use crate::sequencer::event_plan::{
    accepted_effects, event_effects, handled_together, handled_together_bounds, planned_effects,
    settlement_effects, store_effect,
};
use crate::sequencer::executor_events::{
    AcceptedTxEventContents, ExecutorEvent, SequencerTypes,
};
use crate::sequencer::side_effect::{Effect, PromoteError};
use crate::sequencer::side_effects_task::{
    next_keeps_room, Action, Phase, RoleTransitionRequest, TaskInput, TaskState,
};

verus! {

// ---- The plan for one event ------------------------------------------------

/// Accepted transactions are stored first, all in one go. Then the changes of all of them
/// are applied, then the watchers are told. After that each is confirmed to its submitter,
/// then the task yields, and only after that it is cached, which is when the subscribers see
/// it.
pub proof fn accepted_effects_order<T: SequencerTypes>(run: Seq<AcceptedTxEventContents<T>>)
    ensures
        accepted_effects(run).len() == 4 * run.len() + 2,
        accepted_effects(run)[0] == store_effect(run),
        forall|i: int|
            0 <= i < run.len() ==> #[trigger] accepted_effects(run)[1 + i]
                == Effect::<T>::ApplyTxChanges(run[i].tx_changes),
        accepted_effects(run)[1 + run.len() as int] == Effect::<T>::NotifyCheckpoint,
        forall|i: int|
            #![trigger run[i].accepted_tx]
            0 <= i < run.len() ==> {
                &&& accepted_effects(run)[run.len() + 2 + 3 * i] == Effect::<T>::ConfirmTx {
                    responder: run[i].oneshot_sender,
                    accepted_tx: run[i].accepted_tx,
                }
                &&& accepted_effects(run)[run.len() + 3 + 3 * i] == Effect::<T>::YieldNow
                &&& accepted_effects(run)[run.len() + 4 + 3 * i] == Effect::<T>::CacheTx(
                    run[i].accepted_tx,
                )
            },
{
    let e = accepted_effects(run);
    let n = run.len() as int;
    assert forall|i: int| #![trigger run[i].accepted_tx] 0 <= i < run.len() implies {
        &&& e[n + 2 + 3 * i] == Effect::<T>::ConfirmTx {
            responder: run[i].oneshot_sender,
            accepted_tx: run[i].accepted_tx,
        }
        &&& e[n + 3 + 3 * i] == Effect::<T>::YieldNow
        &&& e[n + 4 + 3 * i] == Effect::<T>::CacheTx(run[i].accepted_tx)
    } by {
        assert(e[n + 2 + 3 * i] == settlement_effects(run)[3 * i]);
        assert(e[n + 3 + 3 * i] == settlement_effects(run)[3 * i + 1]);
        assert(e[n + 4 + 3 * i] == settlement_effects(run)[3 * i + 2]);
        assert((3 * i) / 3 == i && (3 * i) % 3 == 0);
        assert((3 * i + 1) % 3 == 1);
        assert((3 * i + 2) / 3 == i && (3 * i + 2) % 3 == 2);
    }
}

/// Of the effects of accepted transactions only the storing can fail. Once they are
/// stored, every one of them is confirmed.
pub proof fn stored_txs_are_confirmed<T: SequencerTypes>(
    run: Seq<AcceptedTxEventContents<T>>,
    i: int,
)
    requires
        0 < i < accepted_effects(run).len(),
    ensures
        !accepted_effects(run)[i].can_fail(),
{
}

/// A batch or a proof is published only after it has been stored: wherever an event
/// publishes one, an earlier effect of the same event stores it.
pub proof fn nothing_is_published_before_it_is_stored<T: SequencerTypes>(
    event: ExecutorEvent<T>,
    queue: Seq<ExecutorEvent<T>>,
    i: int,
)
    requires
        0 <= i < event_effects(event, queue).len(),
    ensures
        match event_effects(event, queue)[i] {
            Effect::PublishBatch(batch) => exists|j: int|
                0 <= j < i && #[trigger] event_effects(event, queue)[j] == Effect::<
                    T,
                >::TerminateBatch(batch.stored()),
            Effect::PublishProof { data, sequence_number, blob_id } => exists|j: int|
                0 <= j < i && #[trigger] event_effects(event, queue)[j] == (Effect::<
                    T,
                >::InsertProofBlob { blob_id, data, sequence_number }),
            _ => true,
        },
{
    let e = event_effects(event, queue);
    match event {
        ExecutorEvent::CloseBatch { batch, .. } => {
            assert(e[0] == Effect::<T>::TerminateBatch(batch.stored()));
        },
        ExecutorEvent::PublishProofBlob(blob_id, data, sequence_number) => {
            assert(e[0] == (Effect::<T>::InsertProofBlob {
                blob_id,
                data: data@,
                sequence_number,
            }));
        },
        _ => {},
    }
}

// ---- Performing a plan -----------------------------------------------------

/// The state after `n` effects have been performed.
pub open spec fn after_done<T: SequencerTypes>(step: (TaskState<T>, Action<T>), n: nat) -> (
    TaskState<T>,
    Action<T>,
)
    decreases n,
{
    if n == 0 {
        step
    } else {
        after_done(step, (n - 1) as nat).0.next(TaskInput::Done)
    }
}

/// As long as nothing fails, effects are performed one after the other in their order.
pub proof fn effects_are_performed_in_order<T: SequencerTypes>(
    state: TaskState<T>,
    effects: Seq<Effect<T>>,
    for_events: bool,
    n: nat,
)
    requires
        n < effects.len(),
    ensures
        after_done(state.performing(effects, for_events), n) == state.performing(
            effects.skip(n as int),
            for_events,
        ),
        after_done(state.performing(effects, for_events), n).1 == Action::<T>::Perform(
            effects[n as int],
        ),
    decreases n,
{
    if n == 0 {
        assert(effects.skip(0) =~= effects);
    } else {
        effects_are_performed_in_order(state, effects, for_events, (n - 1) as nat);
        assert(effects.skip(n - 1).skip(1) =~= effects.skip(n as int));
    }
}

/// When the effect at place `n` fails, the node is told to shut down, the effects behind it
/// are dropped, and the events that are waiting stay where they are.
pub proof fn failure_drops_the_rest<T: SequencerTypes>(
    state: TaskState<T>,
    effects: Seq<Effect<T>>,
    for_events: bool,
    n: nat,
)
    requires
        n < effects.len(),
        effects[n as int].can_fail(),
    ensures
        after_done(state.performing(effects, for_events), n).0.expects(TaskInput::Failed),
        after_done(state.performing(effects, for_events), n).0.next(TaskInput::Failed) == (
            state.in_phase(Phase::Selecting),
            Action::<T>::SignalShutdown,
        ),
{
    effects_are_performed_in_order(state, effects, for_events, n);
}

// ---- Steps -----------------------------------------------------------------

/// Each action calls for the input that tells how it went, and for no other. Only writing to
/// the database and publishing may be told to have failed.
pub proof fn every_action_calls_for_its_answer<T: SequencerTypes>(
    state: TaskState<T>,
    input: TaskInput<T>,
    answer: TaskInput<T>,
)
    requires
        state.expects(input),
    ensures
        state.next(input).0.expects(answer) <==> match state.next(input).1 {
            Action::Select => answer is RoleTransition || answer is Received,
            Action::SignalShutdown => answer is RoleTransition || answer is Received,
            Action::TryRecv => answer is Polled,
            Action::Perform(effect) => answer is Done || answer is Failed && {
                ||| effect is BulkInsertTxs
                ||| effect is TerminateBatch
                ||| effect is StartBatch
                ||| effect is InsertProofBlob
                ||| effect is PruneDb
                ||| effect is PublishBatch
                ||| effect is PublishBlobsForRecovery
                ||| effect is PublishProof
            },
            Action::ConnectBackend => answer is Connected,
            Action::ReadSnapshot => answer is SnapshotRead,
            Action::ActivateBlobSender(_) => answer is Activated,
            Action::Stop => false,
        },
{
}

/// A task that waits takes a request for a change of role or an event, and nothing else.
pub proof fn waiting_task_takes_requests_and_events<T: SequencerTypes>(
    state: TaskState<T>,
    input: TaskInput<T>,
)
    requires
        state.phase is Selecting,
    ensures
        state.expects(input) <==> input is RoleTransition || input is Received,
{
}

/// An event that comes in goes behind those that wait. As long as there is room for another
/// one the task looks for it, and only when there is none left it begins with the first.
pub proof fn events_are_collected_while_there_is_room<T: SequencerTypes>(
    state: TaskState<T>,
    event: ExecutorEvent<T>,
)
    requires
        state.queue.len() < state.max_queue_size,
        state.phase is Selecting || state.phase is Filling,
    ensures
        ({
            let input = if state.phase is Selecting {
                TaskInput::Received(Some(event))
            } else {
                TaskInput::Polled(Some(event))
            };
            let (after, action) = state.next(input);
            let queue = state.queue.push(event);
            if queue.len() < state.max_queue_size {
                &&& action == Action::<T>::TryRecv
                &&& after.queue == queue
                &&& after.phase is Filling
            } else {
                &&& action == Action::<T>::Perform(planned_effects(queue)[0])
                &&& after.queue == queue.skip(handled_together(queue) as int)
                &&& after.phase == (Phase::<T>::Running {
                    in_flight_can_fail: planned_effects(queue)[0].can_fail(),
                    rest: planned_effects(queue).skip(1),
                    for_events: true,
                })
            }
        }),
{
}

/// When no other event is there, the task begins with the first of those that wait: it
/// performs their plan from its first effect on, and they leave the queue.
pub proof fn collected_events_are_begun<T: SequencerTypes>(state: TaskState<T>)
    requires
        state.phase is Filling,
        state.queue.len() > 0,
    ensures
        ({
            let (after, action) = state.next(TaskInput::Polled(None));
            &&& action == Action::<T>::Perform(planned_effects(state.queue)[0])
            &&& after.queue == state.queue.skip(handled_together(state.queue) as int)
            &&& after.phase == (Phase::<T>::Running {
                in_flight_can_fail: planned_effects(state.queue)[0].can_fail(),
                rest: planned_effects(state.queue).skip(1),
                for_events: true,
            })
        }),
{
}

/// When an effect has been performed, the next one of the plan is, and the queue stays as it
/// is. When there is none left, the task goes on with the events that wait, unless the plan
/// was for a change of role, and else it waits.
pub proof fn performed_effect_is_followed_by_the_next<T: SequencerTypes>(
    state: TaskState<T>,
    can_fail: bool,
    rest: Seq<Effect<T>>,
    for_events: bool,
)
    requires
        state.phase == (Phase::<T>::Running { in_flight_can_fail: can_fail, rest, for_events }),
    ensures
        ({
            let (after, action) = state.next(TaskInput::Done);
            if rest.len() > 0 {
                &&& action == Action::<T>::Perform(rest[0])
                &&& after.queue == state.queue
                &&& after.phase == (Phase::<T>::Running {
                    in_flight_can_fail: rest[0].can_fail(),
                    rest: rest.skip(1),
                    for_events,
                })
            } else if for_events && state.queue.len() > 0 {
                &&& action == Action::<T>::Perform(planned_effects(state.queue)[0])
                &&& after.queue == state.queue.skip(handled_together(state.queue) as int)
                &&& after.phase == (Phase::<T>::Running {
                    in_flight_can_fail: planned_effects(state.queue)[0].can_fail(),
                    rest: planned_effects(state.queue).skip(1),
                    for_events: true,
                })
            } else {
                &&& action == Action::<T>::Select
                &&& after.queue == state.queue
                &&& after.phase is Selecting
            }
        }),
{
}

/// When an effect has failed, the node is told to shut down, no event that waits is lost, and
/// the task waits without performing the rest.
pub proof fn failed_effect_shuts_the_node_down<T: SequencerTypes>(state: TaskState<T>)
    requires
        state.phase is Running,
    ensures
        ({
            let (after, action) = state.next(TaskInput::Failed);
            &&& action == Action::<T>::SignalShutdown
            &&& after.queue == state.queue
            &&& after.phase is Selecting
        }),
{
}

/// A node without a database answers a request for a promotion with that very reason, to the
/// one who asked. Any other node first connects to the database.
pub proof fn promotion_needs_a_database<T: SequencerTypes>(
    state: TaskState<T>,
    confirm: T::TransitionResponder,
)
    requires
        state.phase is Selecting,
    ensures
        ({
            let (after, action) = state.next(
                TaskInput::RoleTransition(RoleTransitionRequest::Promote { confirm }),
            );
            &&& after.queue == state.queue
            &&& if state.postgres_configured {
                &&& action == Action::<T>::ConnectBackend
                &&& after.phase == (Phase::<T>::Connecting { confirm })
            } else {
                &&& action == Action::<T>::Perform(
                    Effect::ConfirmTransition {
                        responder: confirm,
                        outcome: Err(PromoteError::NoPostgresConfig),
                    },
                )
                &&& after.phase == (Phase::<T>::Running {
                    in_flight_can_fail: false,
                    rest: seq![],
                    for_events: false,
                })
            }
        }),
{
    let answer = Effect::<T>::ConfirmTransition {
        responder: confirm,
        outcome: Err(PromoteError::NoPostgresConfig),
    };
    assert(seq![answer].skip(1) =~= seq![]);
}

/// A stage of a promotion that fails is answered with an error of that stage, which carries
/// what it failed with, to the one who asked. Nothing else follows.
pub proof fn failed_stage_is_what_is_answered<T: SequencerTypes>(
    state: TaskState<T>,
    confirm: T::TransitionResponder,
    error: T::Error,
)
    requires
        match state.phase {
            Phase::Connecting { confirm: c } => c == confirm,
            Phase::ReadingSnapshot { confirm: c, .. } => c == confirm,
            Phase::Activating { confirm: c, .. } => c == confirm,
            _ => false,
        },
    ensures
        ({
            let (after, action) = state.next(
                match state.phase {
                    Phase::Connecting { .. } => TaskInput::Connected(Err(error)),
                    Phase::ReadingSnapshot { .. } => TaskInput::SnapshotRead(Err(error)),
                    _ => TaskInput::Activated(Err(error)),
                },
            );
            &&& action == Action::<T>::Perform(
                Effect::ConfirmTransition {
                    responder: confirm,
                    outcome: Err(
                        match state.phase {
                            Phase::Connecting { .. } => PromoteError::Connect(error),
                            Phase::ReadingSnapshot { .. } => PromoteError::Snapshot(error),
                            _ => PromoteError::Activate(error),
                        },
                    ),
                },
            )
            &&& after.queue == state.queue
            &&& after.phase == (Phase::<T>::Running {
                in_flight_can_fail: false,
                rest: seq![],
                for_events: false,
            })
        }),
{
    let answer = Effect::<T>::ConfirmTransition {
        responder: confirm,
        outcome: Err(
            match state.phase {
                Phase::Connecting { .. } => PromoteError::Connect(error),
                Phase::ReadingSnapshot { .. } => PromoteError::Snapshot(error),
                _ => PromoteError::Activate(error),
            },
        ),
    };
    assert(seq![answer].skip(1) =~= seq![]);
}

/// A stage of a promotion that succeeds leads to the next one with what it brought: the blobs
/// are read over the connection that was made, the blob sender starts with all the blobs that
/// were read, and that connection is what is taken into use, before the answer.
pub proof fn succeeded_stage_leads_to_the_next<T: SequencerTypes>(
    state: TaskState<T>,
    confirm: T::TransitionResponder,
    backend: T::Backend,
    blobs: Vec<T::Blob>,
)
    ensures
        state.phase == (Phase::<T>::Connecting { confirm }) ==> {
            let (after, action) = state.next(TaskInput::Connected(Ok(backend)));
            &&& action == Action::<T>::ReadSnapshot
            &&& after.phase == (Phase::<T>::ReadingSnapshot { confirm, backend })
            &&& after.queue == state.queue
        },
        state.phase == (Phase::<T>::ReadingSnapshot { confirm, backend }) ==> {
            let (after, action) = state.next(TaskInput::SnapshotRead(Ok(blobs)));
            &&& action == Action::<T>::ActivateBlobSender(blobs@)
            &&& after.phase == (Phase::<T>::Activating { confirm, backend })
            &&& after.queue == state.queue
        },
        state.phase == (Phase::<T>::Activating { confirm, backend }) ==> {
            let (after, action) = state.next(TaskInput::Activated(Ok(())));
            &&& action == Action::<T>::Perform(Effect::SetBackend(Some(backend)))
            &&& after.phase == (Phase::<T>::Running {
                in_flight_can_fail: false,
                rest: seq![Effect::ConfirmTransition { responder: confirm, outcome: Ok(()) }],
                for_events: false,
            })
            &&& after.queue == state.queue
        },
{
    let set = Effect::<T>::SetBackend(Some(backend));
    let answer = Effect::<T>::ConfirmTransition { responder: confirm, outcome: Ok(()) };
    assert(seq![set, answer].skip(1) =~= seq![answer]);
}

/// A demotion takes the connection out of use, stops the blob sender, and then grants the
/// request, to the one who asked.
pub proof fn demotion_clears_before_it_grants<T: SequencerTypes>(
    state: TaskState<T>,
    confirm: T::TransitionResponder,
)
    requires
        state.phase is Selecting,
    ensures
        ({
            let (after, action) = state.next(
                TaskInput::RoleTransition(RoleTransitionRequest::Demote { confirm }),
            );
            &&& action == Action::<T>::Perform(Effect::SetBackend(None))
            &&& after.phase == (Phase::<T>::Running {
                in_flight_can_fail: false,
                rest: seq![
                    Effect::DeactivateBlobSender,
                    Effect::ConfirmTransition { responder: confirm, outcome: Ok(()) },
                ],
                for_events: false,
            })
            &&& after.queue == state.queue
        }),
{
    let answer = Effect::<T>::ConfirmTransition { responder: confirm, outcome: Ok(()) };
    assert(seq![Effect::<T>::SetBackend(None), Effect::DeactivateBlobSender, answer].skip(1)
        =~= seq![Effect::<T>::DeactivateBlobSender, answer]);
}

// ---- Runs ------------------------------------------------------------------

/// The state after a run of inputs, and the last action.
pub open spec fn run<T: SequencerTypes>(
    start: (TaskState<T>, Action<T>),
    inputs: Seq<TaskInput<T>>,
) -> (TaskState<T>, Action<T>)
    decreases inputs.len(),
{
    if inputs.len() == 0 {
        start
    } else {
        run(start, inputs.drop_last()).0.next(inputs.last())
    }
}

/// Every input of a run tells how the action before it went.
pub open spec fn fits<T: SequencerTypes>(
    start: (TaskState<T>, Action<T>),
    inputs: Seq<TaskInput<T>>,
) -> bool
    decreases inputs.len(),
{
    inputs.len() == 0 || {
        &&& fits(start, inputs.drop_last())
        &&& run(start, inputs.drop_last()).0.expects(inputs.last())
    }
}

/// The queue never overflows, however long the task runs.
pub proof fn queue_stays_bounded<T: SequencerTypes>(
    start: (TaskState<T>, Action<T>),
    inputs: Seq<TaskInput<T>>,
)
    requires
        start.0.wf(),
        fits(start, inputs),
    ensures
        run(start, inputs).0.wf(),
    decreases inputs.len(),
{
    if inputs.len() > 0 {
        queue_stays_bounded(start, inputs.drop_last());
        next_keeps_room(run(start, inputs.drop_last()).0, inputs.last());
    }
}

/// The event that an input brings.
pub open spec fn received_by<T: SequencerTypes>(input: TaskInput<T>) -> Seq<ExecutorEvent<T>> {
    match input {
        TaskInput::Received(Some(event)) => seq![event],
        TaskInput::Polled(Some(event)) => seq![event],
        _ => seq![],
    }
}

/// On this input the task begins to handle the events at the front of the queue.
pub open spec fn begins_handling<T: SequencerTypes>(
    state: TaskState<T>,
    input: TaskInput<T>,
) -> bool {
    let queue = state.queue + received_by(input);
    match (state.phase, input) {
        (Phase::Selecting, TaskInput::Received(Some(_))) => queue.len() >= state.max_queue_size,
        (Phase::Filling, TaskInput::Polled(Some(_))) => queue.len() >= state.max_queue_size,
        (Phase::Filling, TaskInput::Polled(None)) => queue.len() > 0,
        (Phase::Running { rest, for_events, .. }, TaskInput::Done) => rest.len() == 0 && for_events
            && queue.len() > 0,
        _ => false,
    }
}

/// The events that the task begins to handle on this input.
pub open spec fn begun_by<T: SequencerTypes>(
    state: TaskState<T>,
    input: TaskInput<T>,
) -> Seq<ExecutorEvent<T>> {
    let queue = state.queue + received_by(input);
    if begins_handling(state, input) {
        queue.take(handled_together(queue) as int)
    } else {
        seq![]
    }
}

/// In one step, the events that were waiting and the one that came in are those that are
/// handled from now on, followed by those that wait from now on. What is done about the
/// former is their plan, from its first effect.
pub proof fn step_loses_no_event<T: SequencerTypes>(state: TaskState<T>, input: TaskInput<T>)
    requires
        state.wf(),
        state.expects(input),
    ensures
        state.queue + received_by(input) == begun_by(state, input) + state.next(input).0.queue,
        begins_handling(state, input) ==> state.next(input) == state.with_queue(
            state.next(input).0.queue,
        ).performing(planned_effects(state.queue + received_by(input)), true),
{
    let queue = state.queue + received_by(input);
    match input {
        TaskInput::Received(Some(event)) => {
            assert(queue =~= state.queue.push(event));
        },
        TaskInput::Polled(Some(event)) => {
            assert(queue =~= state.queue.push(event));
        },
        _ => {
            assert(queue =~= state.queue);
        },
    }
    if begins_handling(state, input) {
        handled_together_bounds(queue);
        let n = handled_together(queue) as int;
        assert(queue =~= queue.take(n) + queue.skip(n));
    } else {
        assert(queue =~= begun_by(state, input) + state.next(input).0.queue);
    }
}

/// All the events that came in during a run, in the order in which they came.
pub open spec fn received<T: SequencerTypes>(inputs: Seq<TaskInput<T>>) -> Seq<ExecutorEvent<T>>
    decreases inputs.len(),
{
    if inputs.len() == 0 {
        seq![]
    } else {
        received(inputs.drop_last()) + received_by(inputs.last())
    }
}

/// All the events whose handling began during a run, in the order in which it began.
pub open spec fn begun<T: SequencerTypes>(
    start: (TaskState<T>, Action<T>),
    inputs: Seq<TaskInput<T>>,
) -> Seq<ExecutorEvent<T>>
    decreases inputs.len(),
{
    if inputs.len() == 0 {
        seq![]
    } else {
        begun(start, inputs.drop_last()) + begun_by(
            run(start, inputs.drop_last()).0,
            inputs.last(),
        )
    }
}

/// Events are handled in the order in which they came, each exactly once: at any time the
/// ones that came are the ones whose handling has begun, followed by the ones that wait.
pub proof fn events_are_handled_in_order<T: SequencerTypes>(
    start: (TaskState<T>, Action<T>),
    inputs: Seq<TaskInput<T>>,
)
    requires
        start.0.wf(),
        fits(start, inputs),
    ensures
        start.0.queue + received(inputs) == begun(start, inputs) + run(start, inputs).0.queue,
    decreases inputs.len(),
{
    if inputs.len() == 0 {
        assert(start.0.queue + received(inputs) =~= begun(start, inputs) + start.0.queue);
    } else {
        let before = inputs.drop_last();
        events_are_handled_in_order(start, before);
        queue_stays_bounded(start, before);
        let state = run(start, before).0;
        step_loses_no_event(state, inputs.last());
        assert(start.0.queue + received(inputs) =~= (start.0.queue + received(before))
            + received_by(inputs.last()));
        assert((begun(start, before) + state.queue) + received_by(inputs.last()) =~= begun(
            start,
            before,
        ) + (state.queue + received_by(inputs.last())));
        assert(begun(start, before) + (begun_by(state, inputs.last()) + run(
            start,
            inputs,
        ).0.queue) =~= begun(start, inputs) + run(start, inputs).0.queue);
    }
}

// ---- Everything is handled, and in time ------------------------------------

/// No effect fails during a run.
pub open spec fn nothing_fails<T: SequencerTypes>(inputs: Seq<TaskInput<T>>) -> bool {
    forall|i: int| 0 <= i < inputs.len() ==> !(#[trigger] inputs[i] is Failed)
}

/// The effect of an event that has been performed when this input comes.
pub open spec fn performed_by<T: SequencerTypes>(
    step: (TaskState<T>, Action<T>),
    input: TaskInput<T>,
) -> Seq<Effect<T>> {
    match (step.0.phase, step.1, input) {
        (
            Phase::Running { for_events: true, .. },
            Action::Perform(effect),
            TaskInput::Done,
        ) => seq![effect],
        _ => seq![],
    }
}

/// All the effects of events that were performed during a run, in their order.
pub open spec fn performed<T: SequencerTypes>(
    start: (TaskState<T>, Action<T>),
    inputs: Seq<TaskInput<T>>,
) -> Seq<Effect<T>>
    decreases inputs.len(),
{
    if inputs.len() == 0 {
        seq![]
    } else {
        performed(start, inputs.drop_last()) + performed_by(
            run(start, inputs.drop_last()),
            inputs.last(),
        )
    }
}

/// The plan for the events that the task begins to handle on this input.
pub open spec fn planned_by<T: SequencerTypes>(
    state: TaskState<T>,
    input: TaskInput<T>,
) -> Seq<Effect<T>> {
    if begins_handling(state, input) {
        planned_effects(state.queue + received_by(input))
    } else {
        seq![]
    }
}

/// The plans for all the events whose handling began during a run, one behind the other.
pub open spec fn planned<T: SequencerTypes>(
    start: (TaskState<T>, Action<T>),
    inputs: Seq<TaskInput<T>>,
) -> Seq<Effect<T>>
    decreases inputs.len(),
{
    if inputs.len() == 0 {
        seq![]
    } else {
        planned(start, inputs.drop_last()) + planned_by(
            run(start, inputs.drop_last()).0,
            inputs.last(),
        )
    }
}

/// How far the plans have been carried out at each point of a task without failures.
spec fn on_schedule<T: SequencerTypes>(
    step: (TaskState<T>, Action<T>),
    planned: Seq<Effect<T>>,
    performed: Seq<Effect<T>>,
) -> bool {
    match step.0.phase {
        Phase::Running { rest, for_events: true, .. } => {
            &&& step.1 matches Action::Perform(effect) && planned == performed + seq![effect] + rest
        },
        Phase::Filling => planned == performed,
        _ => planned == performed && step.0.queue.len() == 0,
    }
}

proof fn lemma_on_schedule_step<T: SequencerTypes>(
    step: (TaskState<T>, Action<T>),
    input: TaskInput<T>,
    plans: Seq<Effect<T>>,
    done: Seq<Effect<T>>,
)
    requires
        step.0.wf(),
        step.0.expects(input),
        !(input is Failed),
        on_schedule(step, plans, done),
    ensures
        on_schedule(
            step.0.next(input),
            plans + planned_by(step.0, input),
            done + performed_by(step, input),
        ),
{
    let now_planned = plans + planned_by(step.0, input);
    let now_done = done + performed_by(step, input);
    step_loses_no_event(step.0, input);
    if begins_handling(step.0, input) {
        let plan = planned_effects(step.0.queue + received_by(input));
        assert(plan.len() > 0);
        assert(plans =~= now_done);
        assert(now_planned =~= now_done + seq![plan[0]] + plan.skip(1));
    } else {
        assert(now_planned =~= plans);
        if let (Phase::Running { rest, for_events: true, .. }, TaskInput::Done) = (
            step.0.phase,
            input,
        ) {
            if rest.len() > 0 {
                assert(now_planned =~= now_done + seq![rest[0]] + rest.skip(1));
            } else {
                assert(now_planned =~= now_done);
            }
        } else {
            assert(now_done =~= done);
        }
    }
}

proof fn lemma_on_schedule<T: SequencerTypes>(
    start: (TaskState<T>, Action<T>),
    inputs: Seq<TaskInput<T>>,
)
    requires
        start.0.wf(),
        start.0.phase is Selecting,
        start.0.queue.len() == 0,
        fits(start, inputs),
        nothing_fails(inputs),
    ensures
        on_schedule(run(start, inputs), planned(start, inputs), performed(start, inputs)),
    decreases inputs.len(),
{
    if inputs.len() > 0 {
        let before = inputs.drop_last();
        assert forall|i: int| 0 <= i < before.len() implies !(#[trigger] before[i] is Failed) by {
            assert(before[i] == inputs[i]);
        }
        assert(!(inputs[inputs.len() - 1] is Failed));
        lemma_on_schedule(start, before);
        queue_stays_bounded(start, before);
        lemma_on_schedule_step(
            run(start, before),
            inputs.last(),
            planned(start, before),
            performed(start, before),
        );
    }
}

/// No event is left behind by a task that started like this, as long as nothing fails.
/// Whenever it waits, and when it ends, every event that came has been handled, in the order
/// in which they came, and every effect of every plan has been performed, in order and once.
/// It ends if and only if it hears that the executor has gone away.
pub open spec fn leaves_nothing_behind<T: SequencerTypes>(
    start: (TaskState<T>, Action<T>),
) -> bool {
    forall|inputs: Seq<TaskInput<T>>| #[trigger]
        fits(start, inputs) && nothing_fails(inputs) ==> {
            let end = run(start, inputs).0;
            &&& end.phase is Selecting || end.phase is Stopped ==> {
                &&& end.queue.len() == 0
                &&& begun(start, inputs) == received(inputs)
                &&& performed(start, inputs) == planned(start, inputs)
            }
            &&& end.phase is Stopped <==> inputs.len() > 0 && (inputs.last() matches
                TaskInput::Received(None))
        }
}

/// As long as nothing fails, no event is left behind.
pub proof fn everything_is_handled_unless_something_fails<T: SequencerTypes>(
    start: (TaskState<T>, Action<T>),
)
    requires
        start.0.wf(),
        start.0.phase is Selecting,
        start.0.queue.len() == 0,
    ensures
        leaves_nothing_behind(start),
{
    assert forall|inputs: Seq<TaskInput<T>>| #[trigger]
        fits(start, inputs) && nothing_fails(inputs) implies {
        let end = run(start, inputs).0;
        &&& end.phase is Selecting || end.phase is Stopped ==> {
            &&& end.queue.len() == 0
            &&& begun(start, inputs) == received(inputs)
            &&& performed(start, inputs) == planned(start, inputs)
        }
        &&& end.phase is Stopped <==> inputs.len() > 0 && (inputs.last() matches
            TaskInput::Received(None))
    } by {
        lemma_on_schedule(start, inputs);
        events_are_handled_in_order(start, inputs);
        assert(start.0.queue + received(inputs) =~= received(inputs));
        if run(start, inputs).0.queue.len() == 0 {
            assert(begun(start, inputs) + run(start, inputs).0.queue =~= begun(start, inputs));
        }
        if inputs.len() > 0 {
            task_ends_with_the_executor(run(start, inputs.drop_last()).0, inputs.last());
        }
    }
}

/// The task ends if and only if it hears that the executor has gone away, which it asks for
/// only while it waits. After that nothing is expected any more.
pub proof fn task_ends_with_the_executor<T: SequencerTypes>(
    state: TaskState<T>,
    input: TaskInput<T>,
)
    requires
        state.expects(input),
    ensures
        state.next(input).0.phase is Stopped <==> (input matches TaskInput::Received(None)),
        state.next(input).0.phase is Stopped <==> state.next(input).1 is Stop,
        state.next(input).0.phase is Stopped ==> state.phase is Selecting,
        state.next(input).0.phase is Stopped ==> forall|later: TaskInput<T>|
            !state.next(input).0.expects(later),
{
}

/// The task does not wait in between during a run.
pub open spec fn never_waits_inside<T: SequencerTypes>(
    start: (TaskState<T>, Action<T>),
    inputs: Seq<TaskInput<T>>,
) -> bool {
    forall|k: int|
        0 < k < inputs.len() ==> !(run(start, #[trigger] inputs.take(k)).0.phase is Selecting)
}

proof fn lemma_begun_between_waits<T: SequencerTypes>(
    start: (TaskState<T>, Action<T>),
    inputs: Seq<TaskInput<T>>,
)
    requires
        start.0.wf(),
        start.0.phase is Selecting,
        fits(start, inputs),
        never_waits_inside(start, inputs),
    ensures
        begun(start, inputs).len() <= start.0.max_queue_size,
        match run(start, inputs).0.phase {
            Phase::Filling => begun(start, inputs).len() == 0,
            Phase::Running { for_events: true, .. } => begun(start, inputs).len() + run(
                start,
                inputs,
            ).0.queue.len() <= start.0.max_queue_size,
            _ => true,
        },
    decreases inputs.len(),
{
    if inputs.len() > 0 {
        let before = inputs.drop_last();
        assert(never_waits_inside(start, before)) by {
            assert forall|k: int| 0 < k < before.len() implies !(run(
                start,
                #[trigger] before.take(k),
            ).0.phase is Selecting) by {
                assert(before.take(k) =~= inputs.take(k));
            }
        }
        lemma_begun_between_waits(start, before);
        queue_stays_bounded(start, before);
        configuration_never_changes(start, before);
        let state = run(start, before).0;
        if before.len() > 0 {
            assert(before =~= inputs.take(before.len() as int));
            assert(!(state.phase is Selecting));
        }
        step_loses_no_event(state, inputs.last());
        let queue = state.queue + received_by(inputs.last());
        if begins_handling(state, inputs.last()) {
            handled_together_bounds(queue);
        }
        assert((begun_by(state, inputs.last()) + run(start, inputs).0.queue).len() == queue.len());
    }
}

/// A change of role waits for no more than one queue of events: however fast new ones arrive,
/// between two moments at which a task that started like this waits, when a request for a
/// change of role is taken before any event, at most as many events are begun as the queue
/// may hold.
pub open spec fn lets_role_changes_in<T: SequencerTypes>(
    start: (TaskState<T>, Action<T>),
) -> bool {
    forall|earlier: Seq<TaskInput<T>>, inputs: Seq<TaskInput<T>>|
        #![trigger fits(run(start, earlier), inputs)]
        {
            &&& fits(start, earlier)
            &&& run(start, earlier).0.phase is Selecting
            &&& fits(run(start, earlier), inputs)
            &&& never_waits_inside(run(start, earlier), inputs)
        } ==> begun(run(start, earlier), inputs).len() <= start.0.max_queue_size
}

/// A change of role waits for no more than one queue of events.
pub proof fn role_change_waits_for_one_queue_at_most<T: SequencerTypes>(
    start: (TaskState<T>, Action<T>),
)
    requires
        start.0.wf(),
    ensures
        lets_role_changes_in(start),
{
    assert forall|earlier: Seq<TaskInput<T>>, inputs: Seq<TaskInput<T>>|
        #![trigger fits(run(start, earlier), inputs)]
        {
            &&& fits(start, earlier)
            &&& run(start, earlier).0.phase is Selecting
            &&& fits(run(start, earlier), inputs)
            &&& never_waits_inside(run(start, earlier), inputs)
        } implies begun(run(start, earlier), inputs).len() <= start.0.max_queue_size by {
        queue_stays_bounded(start, earlier);
        configuration_never_changes(start, earlier);
        lemma_begun_between_waits(run(start, earlier), inputs);
    }
}

/// Nothing that happens changes how the task is configured: what a promotion is built from
/// stays as it was.
pub proof fn configuration_never_changes<T: SequencerTypes>(
    start: (TaskState<T>, Action<T>),
    inputs: Seq<TaskInput<T>>,
)
    ensures
        run(start, inputs).0.postgres_configured == start.0.postgres_configured,
        run(start, inputs).0.max_queue_size == start.0.max_queue_size,
    decreases inputs.len(),
{
    if inputs.len() > 0 {
        configuration_never_changes(start, inputs.drop_last());
    }
}

// ---- Changes of role -------------------------------------------------------

/// What only a leader has, as far as the node has been told to set it up.
pub struct LeaderSide {
    /// The database connection is in use.
    pub backend: bool,
    /// The blob sender is running.
    pub blob_sender: bool,
}

/// The leader's side once an action has gone as the input tells.
pub open spec fn leader_side_after<T: SequencerTypes>(
    side: LeaderSide,
    action: Action<T>,
    input: TaskInput<T>,
) -> LeaderSide {
    match (action, input) {
        (Action::Perform(Effect::SetBackend(backend)), TaskInput::Done) => LeaderSide {
            backend: backend is Some,
            ..side
        },
        (Action::Perform(Effect::DeactivateBlobSender), TaskInput::Done) => LeaderSide {
            blob_sender: false,
            ..side
        },
        (Action::ActivateBlobSender(_), TaskInput::Activated(Ok(_))) => LeaderSide {
            blob_sender: true,
            ..side
        },
        _ => side,
    }
}

/// The leader's side after a run.
pub open spec fn leader_side<T: SequencerTypes>(
    start: (TaskState<T>, Action<T>),
    side: LeaderSide,
    inputs: Seq<TaskInput<T>>,
) -> LeaderSide
    decreases inputs.len(),
{
    if inputs.len() == 0 {
        side
    } else {
        leader_side_after(
            leader_side(start, side, inputs.drop_last()),
            run(start, inputs.drop_last()).1,
            inputs.last(),
        )
    }
}

/// The effect is part of a change of role.
pub open spec fn is_role_effect<T: SequencerTypes>(effect: Effect<T>) -> bool {
    effect is SetBackend || effect is DeactivateBlobSender || effect is ConfirmTransition
}

/// No event of the executor changes the role.
pub proof fn events_change_no_role<T: SequencerTypes>(queue: Seq<ExecutorEvent<T>>, i: int)
    requires
        0 <= i < planned_effects(queue).len(),
    ensures
        !is_role_effect(planned_effects(queue)[i]),
{
}

/// How far the two halves of the leader's side agree at each point of the task.
spec fn halves_fit<T: SequencerTypes>(step: (TaskState<T>, Action<T>), side: LeaderSide) -> bool {
    match step.0.phase {
        Phase::Running { rest, for_events: true, .. } => {
            &&& side.backend == side.blob_sender
            &&& step.1 matches Action::Perform(effect) && !is_role_effect(effect)
            &&& forall|i: int| 0 <= i < rest.len() ==> !is_role_effect(#[trigger] rest[i])
        },
        Phase::Running { in_flight_can_fail, rest, for_events: false } => !in_flight_can_fail
            && match step.1 {
            Action::Perform(Effect::SetBackend(Some(_))) => {
                &&& side.blob_sender
                &&& rest.len() == 1
                &&& rest[0] is ConfirmTransition
            },
            Action::Perform(Effect::SetBackend(None)) => {
                &&& rest.len() == 2
                &&& rest[0] is DeactivateBlobSender
                &&& rest[1] is ConfirmTransition
            },
            Action::Perform(Effect::DeactivateBlobSender) => {
                &&& !side.backend
                &&& rest.len() == 1
                &&& rest[0] is ConfirmTransition
            },
            Action::Perform(Effect::ConfirmTransition { .. }) => {
                &&& side.backend == side.blob_sender
                &&& rest.len() == 0
            },
            _ => false,
        },
        Phase::Activating { .. } => {
            &&& side.backend == side.blob_sender
            &&& step.1 is ActivateBlobSender
        },
        _ => {
            &&& side.backend == side.blob_sender
            &&& !(step.1 is Perform) && !(step.1 is ActivateBlobSender)
        },
    }
}

proof fn lemma_halves_fit_step<T: SequencerTypes>(
    step: (TaskState<T>, Action<T>),
    side: LeaderSide,
    input: TaskInput<T>,
)
    requires
        step.0.wf(),
        step.0.expects(input),
        halves_fit(step, side),
    ensures
        halves_fit(step.0.next(input), leader_side_after(side, step.1, input)),
{
    if begins_handling(step.0, input) {
        step_loses_no_event(step.0, input);
        let queue = step.0.queue + received_by(input);
        assert forall|i: int| 0 <= i < planned_effects(queue).len() implies !is_role_effect(
            #[trigger] planned_effects(queue)[i],
        ) by {
            events_change_no_role(queue, i);
        }
        let rest = planned_effects(queue).skip(1);
        assert(!is_role_effect(planned_effects(queue)[0]));
        assert forall|i: int| 0 <= i < rest.len() implies !is_role_effect(#[trigger] rest[i]) by {
            assert(rest[i] == planned_effects(queue)[i + 1]);
        }
    } else if let (Phase::Running { rest, for_events, .. }, TaskInput::Done) = (
        step.0.phase,
        input,
    ) {
        if rest.len() > 0 {
            let left = rest.skip(1);
            assert forall|i: int| for_events && 0 <= i < left.len() implies !is_role_effect(
                #[trigger] left[i],
            ) by {
                assert(left[i] == rest[i + 1]);
            }
            assert(step.0.next(input) == step.0.performing(rest, for_events));
        }
    }
}

/// The database connection and the blob sender go together: whenever the task waits for
/// something new, and whenever it answers a request for a change of role, either both are
/// there or neither is.
pub proof fn leader_side_is_never_halved<T: SequencerTypes>(
    start: (TaskState<T>, Action<T>),
    side: LeaderSide,
    inputs: Seq<TaskInput<T>>,
)
    requires
        start.0.wf(),
        start.0.phase is Selecting,
        start.1 is Select,
        side.backend == side.blob_sender,
        fits(start, inputs),
    ensures
        run(start, inputs).0.phase is Selecting || (run(start, inputs).1 matches Action::Perform(
            effect,
        ) && effect is ConfirmTransition) ==> leader_side(start, side, inputs).backend
            == leader_side(start, side, inputs).blob_sender,
{
    lemma_halves_fit(start, side, inputs);
}

proof fn lemma_halves_fit<T: SequencerTypes>(
    start: (TaskState<T>, Action<T>),
    side: LeaderSide,
    inputs: Seq<TaskInput<T>>,
)
    requires
        start.0.wf(),
        start.0.phase is Selecting,
        start.1 is Select,
        side.backend == side.blob_sender,
        fits(start, inputs),
    ensures
        halves_fit(run(start, inputs), leader_side(start, side, inputs)),
    decreases inputs.len(),
{
    if inputs.len() > 0 {
        lemma_halves_fit(start, side, inputs.drop_last());
        queue_stays_bounded(start, inputs.drop_last());
        lemma_halves_fit_step(
            run(start, inputs.drop_last()),
            leader_side(start, side, inputs.drop_last()),
            inputs.last(),
        );
    }
}

/// What has come in last, at each point of a change of role.
spec fn history_fits<T: SequencerTypes>(
    step: (TaskState<T>, Action<T>),
    side: LeaderSide,
    inputs: Seq<TaskInput<T>>,
) -> bool {
    let n = inputs.len() as int;
    match step.0.phase {
        Phase::Connecting { confirm } => {
            &&& step.0.postgres_configured
            &&& n >= 1
            &&& inputs[n - 1] == TaskInput::<T>::RoleTransition(
                RoleTransitionRequest::Promote { confirm },
            )
        },
        Phase::ReadingSnapshot { confirm, backend } => {
            &&& step.0.postgres_configured
            &&& n >= 2
            &&& inputs[n - 2] == TaskInput::<T>::RoleTransition(
                RoleTransitionRequest::Promote { confirm },
            )
            &&& inputs[n - 1] == TaskInput::<T>::Connected(Ok(backend))
        },
        Phase::Activating { confirm, backend } => {
            &&& step.0.postgres_configured
            &&& n >= 3
            &&& inputs[n - 3] == TaskInput::<T>::RoleTransition(
                RoleTransitionRequest::Promote { confirm },
            )
            &&& inputs[n - 2] == TaskInput::<T>::Connected(Ok(backend))
            &&& inputs[n - 1] matches TaskInput::SnapshotRead(Ok(_))
        },
        Phase::Running { rest, for_events: false, .. } => match step.1 {
            Action::Perform(Effect::SetBackend(Some(backend))) => {
                &&& step.0.postgres_configured
                &&& n >= 4
                &&& inputs[n - 4] matches TaskInput::RoleTransition(
                    RoleTransitionRequest::Promote { confirm },
                )
                &&& inputs[n - 3] == TaskInput::<T>::Connected(Ok(backend))
                &&& inputs[n - 2] matches TaskInput::SnapshotRead(Ok(_))
                &&& inputs[n - 1] matches TaskInput::Activated(Ok(_))
                &&& rest == seq![
                    Effect::<T>::ConfirmTransition { responder: confirm, outcome: Ok(()) },
                ]
            },
            Action::Perform(Effect::SetBackend(None)) => {
                &&& n >= 1
                &&& inputs[n - 1] matches TaskInput::RoleTransition(
                    RoleTransitionRequest::Demote { confirm },
                )
                &&& rest == seq![
                    Effect::<T>::DeactivateBlobSender,
                    Effect::ConfirmTransition { responder: confirm, outcome: Ok(()) },
                ]
            },
            Action::Perform(Effect::DeactivateBlobSender) => {
                &&& n >= 2
                &&& inputs[n - 2] matches TaskInput::RoleTransition(
                    RoleTransitionRequest::Demote { confirm },
                )
                &&& inputs[n - 1] is Done
                &&& rest == seq![
                    Effect::<T>::ConfirmTransition { responder: confirm, outcome: Ok(()) },
                ]
            },
            Action::Perform(Effect::ConfirmTransition { responder, outcome }) => {
                ||| promotion_was_granted(step.0, side, inputs, responder, outcome)
                ||| promotion_was_refused(step.0, inputs, responder, outcome)
                ||| demotion_was_granted(side, inputs, responder, outcome)
            },
            _ => true,
        },
        _ => true,
    }
}

/// The last things that happened are a promotion, asked for by `responder`, of which every
/// stage succeeded, and the whole leader's side is there.
spec fn promotion_was_granted<T: SequencerTypes>(
    state: TaskState<T>,
    side: LeaderSide,
    inputs: Seq<TaskInput<T>>,
    responder: T::TransitionResponder,
    outcome: Result<(), PromoteError<T::Error>>,
) -> bool {
    let n = inputs.len() as int;
    &&& outcome is Ok
    &&& state.postgres_configured
    &&& n >= 5
    &&& inputs[n - 5] == TaskInput::<T>::RoleTransition(
        RoleTransitionRequest::Promote { confirm: responder },
    )
    &&& inputs[n - 4] matches TaskInput::Connected(Ok(_))
    &&& inputs[n - 3] matches TaskInput::SnapshotRead(Ok(_))
    &&& inputs[n - 2] matches TaskInput::Activated(Ok(_))
    &&& inputs[n - 1] is Done
    &&& side.backend
    &&& side.blob_sender
}

/// The last things that happened are a promotion, asked for by `responder`, up to the stage
/// that failed, and that failure is the outcome.
spec fn promotion_was_refused<T: SequencerTypes>(
    state: TaskState<T>,
    inputs: Seq<TaskInput<T>>,
    responder: T::TransitionResponder,
    outcome: Result<(), PromoteError<T::Error>>,
) -> bool {
    let n = inputs.len() as int;
    let asked = TaskInput::<T>::RoleTransition(
        RoleTransitionRequest::Promote { confirm: responder },
    );
    match outcome {
        Ok(_) => false,
        Err(PromoteError::NoPostgresConfig) => {
            &&& !state.postgres_configured
            &&& n >= 1
            &&& inputs[n - 1] == asked
        },
        Err(PromoteError::Connect(e)) => {
            &&& state.postgres_configured
            &&& n >= 2
            &&& inputs[n - 2] == asked
            &&& inputs[n - 1] == TaskInput::<T>::Connected(Err(e))
        },
        Err(PromoteError::Snapshot(e)) => {
            &&& state.postgres_configured
            &&& n >= 3
            &&& inputs[n - 3] == asked
            &&& inputs[n - 2] matches TaskInput::Connected(Ok(_))
            &&& inputs[n - 1] == TaskInput::<T>::SnapshotRead(Err(e))
        },
        Err(PromoteError::Activate(e)) => {
            &&& state.postgres_configured
            &&& n >= 4
            &&& inputs[n - 4] == asked
            &&& inputs[n - 3] matches TaskInput::Connected(Ok(_))
            &&& inputs[n - 2] matches TaskInput::SnapshotRead(Ok(_))
            &&& inputs[n - 1] == TaskInput::<T>::Activated(Err(e))
        },
    }
}

/// The last things that happened are a demotion, asked for by `responder`, and nothing of the
/// leader's side is left.
spec fn demotion_was_granted<T: SequencerTypes>(
    side: LeaderSide,
    inputs: Seq<TaskInput<T>>,
    responder: T::TransitionResponder,
    outcome: Result<(), PromoteError<T::Error>>,
) -> bool {
    let n = inputs.len() as int;
    &&& outcome is Ok
    &&& n >= 3
    &&& inputs[n - 3] == TaskInput::<T>::RoleTransition(
        RoleTransitionRequest::Demote { confirm: responder },
    )
    &&& inputs[n - 2] is Done
    &&& inputs[n - 1] is Done
    &&& !side.backend
    &&& !side.blob_sender
}

proof fn lemma_history_fits_step<T: SequencerTypes>(
    step: (TaskState<T>, Action<T>),
    side: LeaderSide,
    inputs: Seq<TaskInput<T>>,
    input: TaskInput<T>,
)
    requires
        step.0.wf(),
        step.0.expects(input),
        halves_fit(step, side),
        history_fits(step, side, inputs),
    ensures
        history_fits(
            step.0.next(input),
            leader_side_after(side, step.1, input),
            inputs.push(input),
        ),
{
    let all = inputs.push(input);
    let n = inputs.len() as int;
    assert(forall|i: int| 0 <= i < n ==> #[trigger] all[i] == inputs[i]);
    assert(all[n] == input);
    match step.0.phase {
        Phase::Selecting => {
            if let TaskInput::RoleTransition(RoleTransitionRequest::Promote { confirm }) = input {
                promotion_needs_a_database(step.0, confirm);
            } else if let TaskInput::RoleTransition(RoleTransitionRequest::Demote { confirm })
                = input {
                demotion_clears_before_it_grants(step.0, confirm);
            }
        },
        Phase::Activating { confirm, backend } => {
            let set = Effect::<T>::SetBackend(Some(backend));
            let answer = Effect::<T>::ConfirmTransition { responder: confirm, outcome: Ok(()) };
            assert(seq![set, answer].skip(1) =~= seq![answer]);
        },
        Phase::Running { in_flight_can_fail, rest, for_events } => {
            if input is Done {
                performed_effect_is_followed_by_the_next(
                    step.0,
                    in_flight_can_fail,
                    rest,
                    for_events,
                );
                if !for_events && rest.len() == 2 {
                    assert(rest.skip(1) =~= seq![rest[1]]);
                }
            }
        },
        _ => {},
    }
}

proof fn lemma_history_fits<T: SequencerTypes>(
    start: (TaskState<T>, Action<T>),
    side: LeaderSide,
    inputs: Seq<TaskInput<T>>,
)
    requires
        start.0.wf(),
        start.0.phase is Selecting,
        start.1 is Select,
        side.backend == side.blob_sender,
        fits(start, inputs),
    ensures
        history_fits(run(start, inputs), leader_side(start, side, inputs), inputs),
    decreases inputs.len(),
{
    if inputs.len() > 0 {
        let before = inputs.drop_last();
        lemma_history_fits(start, side, before);
        lemma_halves_fit(start, side, before);
        queue_stays_bounded(start, before);
        lemma_history_fits_step(
            run(start, before),
            leader_side(start, side, before),
            before,
            inputs.last(),
        );
        assert(before.push(inputs.last()) =~= inputs);
    }
}

/// Whoever asked for a change of role is told the truth. Whenever a request is answered, the
/// answer goes to the one who made the last request. It grants a promotion if and only if a
/// database is configured and the connection, the reading of the blobs and the start of the
/// blob sender all came back well, and then the whole leader's side is in place. Otherwise it
/// names the stage that failed and carries its error. A demotion is always granted, and then
/// nothing of the leader's side is left.
pub proof fn answers_are_truthful<T: SequencerTypes>(
    start: (TaskState<T>, Action<T>),
    side: LeaderSide,
    inputs: Seq<TaskInput<T>>,
)
    requires
        start.0.wf(),
        start.0.phase is Selecting,
        start.1 is Select,
        side.backend == side.blob_sender,
        fits(start, inputs),
    ensures
        run(start, inputs).1 matches Action::Perform(
            Effect::ConfirmTransition { responder, outcome },
        ) ==> {
            let n = inputs.len() as int;
            let now = leader_side(start, side, inputs);
            let promote = TaskInput::<T>::RoleTransition(
                RoleTransitionRequest::Promote { confirm: responder },
            );
            let demote = TaskInput::<T>::RoleTransition(
                RoleTransitionRequest::Demote { confirm: responder },
            );
            match outcome {
                Ok(_) => {
                    ||| {
                        &&& n >= 5 && start.0.postgres_configured
                        &&& inputs[n - 5] == promote
                        &&& inputs[n - 4] matches TaskInput::Connected(Ok(_))
                        &&& inputs[n - 3] matches TaskInput::SnapshotRead(Ok(_))
                        &&& inputs[n - 2] matches TaskInput::Activated(Ok(_))
                        &&& inputs[n - 1] is Done
                        &&& now.backend && now.blob_sender
                    }
                    ||| {
                        &&& n >= 3
                        &&& inputs[n - 3] == demote
                        &&& inputs[n - 2] is Done
                        &&& inputs[n - 1] is Done
                        &&& !now.backend && !now.blob_sender
                    }
                },
                Err(PromoteError::NoPostgresConfig) => {
                    &&& n >= 1 && !start.0.postgres_configured
                    &&& inputs[n - 1] == promote
                },
                Err(PromoteError::Connect(e)) => {
                    &&& n >= 2 && start.0.postgres_configured
                    &&& inputs[n - 2] == promote
                    &&& inputs[n - 1] == TaskInput::<T>::Connected(Err(e))
                },
                Err(PromoteError::Snapshot(e)) => {
                    &&& n >= 3 && start.0.postgres_configured
                    &&& inputs[n - 3] == promote
                    &&& inputs[n - 2] matches TaskInput::Connected(Ok(_))
                    &&& inputs[n - 1] == TaskInput::<T>::SnapshotRead(Err(e))
                },
                Err(PromoteError::Activate(e)) => {
                    &&& n >= 4 && start.0.postgres_configured
                    &&& inputs[n - 4] == promote
                    &&& inputs[n - 3] matches TaskInput::Connected(Ok(_))
                    &&& inputs[n - 2] matches TaskInput::SnapshotRead(Ok(_))
                    &&& inputs[n - 1] == TaskInput::<T>::Activated(Err(e))
                },
            }
        },
{
    lemma_history_fits(start, side, inputs);
    lemma_halves_fit(start, side, inputs);
    configuration_never_changes(start, inputs);
}

/// A promotion goes through four stages and is confirmed only if all of them succeed. The
/// connection that is then taken into use is the one that was made, and the blob sender got
/// the blobs that were read over it. If a stage fails, the only effect is the answer that
/// names the stage.
pub proof fn promotion_succeeds_whole_or_not_at_all<T: SequencerTypes>(
    state: TaskState<T>,
    confirm: T::TransitionResponder,
    connected: Result<T::Backend, T::Error>,
    snapshot: Result<Vec<T::Blob>, T::Error>,
    activated: Result<(), T::Error>,
)
    requires
        state.phase is Selecting,
    ensures
        ({
            let requested = state.next(
                TaskInput::RoleTransition(RoleTransitionRequest::Promote { confirm }),
            );
            let reached = requested.0.next(TaskInput::Connected(connected));
            let read = reached.0.next(TaskInput::SnapshotRead(snapshot));
            let started = read.0.next(TaskInput::Activated(activated));
            if !state.postgres_configured {
                requested == state.refusing(confirm, PromoteError::NoPostgresConfig)
            } else {
                &&& requested.1 == Action::<T>::ConnectBackend
                &&& match connected {
                    Err(e) => reached == state.refusing(confirm, PromoteError::Connect(e)),
                    Ok(backend) => {
                        &&& reached.1 == Action::<T>::ReadSnapshot
                        &&& match snapshot {
                            Err(e) => read == state.refusing(confirm, PromoteError::Snapshot(e)),
                            Ok(blobs) => {
                                &&& read.1 == Action::<T>::ActivateBlobSender(blobs@)
                                &&& match activated {
                                    Err(e) => started == state.refusing(
                                        confirm,
                                        PromoteError::Activate(e),
                                    ),
                                    Ok(_) => started == state.performing(
                                        seq![
                                            Effect::SetBackend(Some(backend)),
                                            Effect::ConfirmTransition {
                                                responder: confirm,
                                                outcome: Ok(()),
                                            },
                                        ],
                                        false,
                                    ),
                                }
                            },
                        }
                    },
                }
            }
        }),
{
}

/// A run in two parts.
proof fn lemma_run_in_two_parts<T: SequencerTypes>(
    start: (TaskState<T>, Action<T>),
    side: LeaderSide,
    first: Seq<TaskInput<T>>,
    second: Seq<TaskInput<T>>,
)
    ensures
        run(start, first + second) == run(run(start, first), second),
        fits(start, first + second) <==> fits(start, first) && fits(run(start, first), second),
        leader_side(start, side, first + second) == leader_side(
            run(start, first),
            leader_side(start, side, first),
            second,
        ),
    decreases second.len(),
{
    if second.len() == 0 {
        assert(first + second =~= first);
    } else {
        assert((first + second).drop_last() =~= first + second.drop_last());
        lemma_run_in_two_parts(start, side, first, second.drop_last());
    }
}

/// What happens when a promotion succeeds, up to its answer.
pub open spec fn promotion<T: SequencerTypes>(
    confirm: T::TransitionResponder,
    backend: T::Backend,
    blobs: Vec<T::Blob>,
) -> Seq<TaskInput<T>> {
    seq![
        TaskInput::RoleTransition(RoleTransitionRequest::Promote { confirm }),
        TaskInput::Connected(Ok(backend)),
        TaskInput::SnapshotRead(Ok(blobs)),
        TaskInput::Activated(Ok(())),
        TaskInput::Done,
    ]
}

/// What happens on a demotion, up to its answer.
pub open spec fn demotion<T: SequencerTypes>(confirm: T::TransitionResponder) -> Seq<TaskInput<T>> {
    seq![
        TaskInput::RoleTransition(RoleTransitionRequest::Demote { confirm }),
        TaskInput::Done,
        TaskInput::Done,
    ]
}

/// Telling that a request for a change of role has been granted.
pub open spec fn granting<T: SequencerTypes>(confirm: T::TransitionResponder) -> Action<T> {
    Action::Perform(Effect::ConfirmTransition { responder: confirm, outcome: Ok(()) })
}

/// When a promotion is confirmed, the database connection is in use and the blob sender is
/// running, so a fresh leader never writes into the void. After the answer the task is as it
/// was before.
pub proof fn confirmed_promotion_finds_the_leader_side_in_place<T: SequencerTypes>(
    start: (TaskState<T>, Action<T>),
    side: LeaderSide,
    confirm: T::TransitionResponder,
    backend: T::Backend,
    blobs: Vec<T::Blob>,
)
    requires
        start.0.phase is Selecting,
        start.0.postgres_configured,
    ensures
        ({
            let inputs = promotion::<T>(confirm, backend, blobs);
            let answered = inputs.push(TaskInput::Done);
            &&& fits(start, answered)
            &&& run(start, inputs).1 == granting::<T>(confirm)
            &&& leader_side(start, side, inputs) == (LeaderSide {
                backend: true,
                blob_sender: true,
            })
            &&& run(start, answered) == (start.0, Action::<T>::Select)
            &&& leader_side(start, side, answered) == leader_side(start, side, inputs)
        }),
{
    let inputs = promotion::<T>(confirm, backend, blobs);
    assert(inputs.push(TaskInput::Done).drop_last() =~= inputs);
    assert(inputs.drop_last() =~= inputs.take(4));
    assert(inputs.take(4).drop_last() =~= inputs.take(3));
    assert(inputs.take(3).drop_last() =~= inputs.take(2));
    assert(inputs.take(2).drop_last() =~= inputs.take(1));
    assert(inputs.take(1).drop_last() =~= seq![]);
    reveal_with_fuel(run, 7);
    reveal_with_fuel(fits, 7);
    reveal_with_fuel(leader_side, 7);
}

/// A demotion always succeeds, in whatever state of the leader's side it is asked for: each
/// of its effects can only be done, the answer is a grant, by then the database connection is
/// out of use and the blob sender is stopped, and nothing on the way shuts the node down.
/// After the answer the task is as it was before.
pub proof fn demotion_always_succeeds<T: SequencerTypes>(
    start: (TaskState<T>, Action<T>),
    side: LeaderSide,
    confirm: T::TransitionResponder,
)
    requires
        start.0.phase is Selecting,
    ensures
        ({
            let inputs = demotion::<T>(confirm);
            let answered = inputs.push(TaskInput::Done);
            &&& fits(start, answered)
            &&& run(start, inputs.take(1)).1 == Action::<T>::Perform(Effect::SetBackend(None))
            &&& run(start, inputs.take(2)).1 == Action::<T>::Perform(Effect::DeactivateBlobSender)
            &&& run(start, inputs).1 == granting::<T>(confirm)
            &&& forall|k: int, input: TaskInput<T>|
                1 <= k <= 3 && #[trigger] run(start, inputs.take(k)).0.expects(input) ==> input is Done
            &&& leader_side(start, side, inputs) == (LeaderSide {
                backend: false,
                blob_sender: false,
            })
            &&& run(start, answered) == (start.0, Action::<T>::Select)
            &&& leader_side(start, side, answered) == leader_side(start, side, inputs)
        }),
{
    let inputs = demotion::<T>(confirm);
    assert(inputs.push(TaskInput::Done).drop_last() =~= inputs);
    assert(inputs.take(3) =~= inputs);
    assert(inputs.drop_last() =~= inputs.take(2));
    assert(inputs.take(2).drop_last() =~= inputs.take(1));
    assert(inputs.take(1).drop_last() =~= seq![]);
    reveal_with_fuel(run, 5);
    reveal_with_fuel(fits, 5);
    reveal_with_fuel(leader_side, 5);
    assert forall|k: int, input: TaskInput<T>|
        1 <= k <= 3 && #[trigger] run(start, inputs.take(k)).0.expects(input) implies input is Done by {
        assert(k == 1 || k == 2 || k == 3);
    }
}

/// A second demotion is granted like the first one and leaves the same state.
pub proof fn demotion_can_be_repeated<T: SequencerTypes>(
    start: (TaskState<T>, Action<T>),
    side: LeaderSide,
    first: T::TransitionResponder,
    second: T::TransitionResponder,
)
    requires
        start.0.phase is Selecting,
    ensures
        ({
            let once = demotion::<T>(first).push(TaskInput::Done);
            let twice = once + demotion::<T>(second);
            &&& fits(start, twice)
            &&& run(start, twice).1 == granting::<T>(second)
            &&& run(start, twice.push(TaskInput::Done)) == run(start, once)
            &&& leader_side(start, side, twice) == leader_side(start, side, once)
        }),
{
    let once = demotion::<T>(first).push(TaskInput::Done);
    let again = demotion::<T>(second);
    demotion_always_succeeds(start, side, first);
    let middle = run(start, once);
    let middle_side = leader_side(start, side, once);
    demotion_always_succeeds(middle, middle_side, second);
    lemma_run_in_two_parts(start, side, once, again);
    lemma_run_in_two_parts(start, side, once, again.push(TaskInput::Done));
    assert((once + again).push(TaskInput::Done) =~= once + again.push(TaskInput::Done));
    assert(again.push(TaskInput::Done).drop_last() =~= again);
}

/// Leadership can be given up and taken again: a demotion directly after a promotion leaves
/// nothing of the leader's side, and a promotion after that starts from the same task and
/// succeeds like the first one.
pub proof fn leadership_can_be_taken_again<T: SequencerTypes>(
    start: (TaskState<T>, Action<T>),
    side: LeaderSide,
    confirms: (T::TransitionResponder, T::TransitionResponder, T::TransitionResponder),
    backends: (T::Backend, T::Backend),
    blobs: (Vec<T::Blob>, Vec<T::Blob>),
)
    requires
        start.0.phase is Selecting,
        start.0.postgres_configured,
    ensures
        ({
            let taken = promotion::<T>(confirms.0, backends.0, blobs.0).push(TaskInput::Done);
            let given_up = taken + demotion::<T>(confirms.1).push(TaskInput::Done);
            let taken_again = given_up + promotion::<T>(confirms.2, backends.1, blobs.1);
            &&& fits(start, taken_again)
            &&& run(start, given_up) == (start.0, Action::<T>::Select)
            &&& leader_side(start, side, given_up) == (LeaderSide {
                backend: false,
                blob_sender: false,
            })
            &&& run(start, taken_again).1 == granting::<T>(confirms.2)
            &&& leader_side(start, side, taken_again) == (LeaderSide {
                backend: true,
                blob_sender: true,
            })
        }),
{
    let taken = promotion::<T>(confirms.0, backends.0, blobs.0).push(TaskInput::Done);
    let giving_up = demotion::<T>(confirms.1).push(TaskInput::Done);
    let again = promotion::<T>(confirms.2, backends.1, blobs.1);
    let given_up = taken + giving_up;
    confirmed_promotion_finds_the_leader_side_in_place(
        start,
        side,
        confirms.0,
        backends.0,
        blobs.0,
    );
    demotion_always_succeeds(run(start, taken), leader_side(start, side, taken), confirms.1);
    lemma_run_in_two_parts(start, side, taken, giving_up);
    confirmed_promotion_finds_the_leader_side_in_place(
        run(start, given_up),
        leader_side(start, side, given_up),
        confirms.2,
        backends.1,
        blobs.1,
    );
    lemma_run_in_two_parts(start, side, given_up, again);
    assert(again.push(TaskInput::Done).drop_last() =~= again);
}

/// Once the effects of a change of role have been performed, the task waits as before, with
/// the same events in its queue.
pub proof fn role_change_returns_to_waiting<T: SequencerTypes>(
    state: TaskState<T>,
    effects: Seq<Effect<T>>,
)
    requires
        effects.len() > 0,
    ensures
        after_done(state.performing(effects, false), effects.len()) == (
            state.in_phase(Phase::Selecting),
            Action::<T>::Select,
        ),
{
    effects_are_performed_in_order(state, effects, false, (effects.len() - 1) as nat);
}

} // verus!
