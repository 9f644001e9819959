//! The task that carries out the side effects of the sequencer, as a state machine: it is
//! told what has happened and says what to do next.

use std::collections::VecDeque;

use vstd::prelude::*;

use crate::sequencer::event_plan::{
    handle_executor_event, handled_together, handled_together_bounds, planned_effects,
};
use crate::sequencer::executor_events::{ExecutorEvent, SequencerTypes};
use crate::sequencer::side_effect::{effects_of, Effect, PromoteError, SideEffect};
use crate::sequencer::side_effects_laws::{
    everything_is_handled_unless_something_fails, leaves_nothing_behind, lets_role_changes_in,
    role_change_waits_for_one_queue_at_most,
};

verus! {

/// A request for a change of role.
pub enum RoleTransitionRequest<T: SequencerTypes> {
    /// Build what only a leader has, the database connection and the blob sender, and take
    /// it into use.
    Promote { confirm: T::TransitionResponder },
    /// Drop what only a leader has.
    Demote { confirm: T::TransitionResponder },
}

/// Something that has happened.
pub enum TaskInput<T: SequencerTypes> {
    /// A change of role is requested.
    RoleTransition(RoleTransitionRequest<T>),
    /// The executor has sent an event, or has gone away.
    Received(Option<ExecutorEvent<T>>),
    /// Without waiting, there was another event, or there was none.
    Polled(Option<ExecutorEvent<T>>),
    /// The effect has been performed.
    Done,
    /// The effect has failed.
    Failed,
    /// The database has been reached, or not.
    Connected(Result<T::Backend, T::Error>),
    /// The completed blobs have been read from the database, or not.
    SnapshotRead(Result<Vec<T::Blob>, T::Error>),
    /// The blob sender has been started, or not.
    Activated(Result<(), T::Error>),
}

/// What to do next. Each calls for the input that tells how it went.
pub enum TaskAction<T: SequencerTypes> {
    /// Wait for a request for a change of role or for an event of the executor. If both are
    /// there, take the request.
    Select,
    /// See whether there is another event, without waiting.
    TryRecv,
    /// Perform an effect.
    Perform(SideEffect<T>),
    /// Signal to the whole node that it has to shut down, and then wait as for `Select`.
    SignalShutdown,
    /// Connect to the database.
    ConnectBackend,
    /// Read the completed blobs over the connection that was just made.
    ReadSnapshot,
    /// Start the blob sender with the completed blobs.
    ActivateBlobSender(Vec<T::Blob>),
    /// End the task.
    Stop,
}

/// A [`TaskAction`] with the contents of its vectors and pointers.
pub enum Action<T: SequencerTypes> {
    Select,
    TryRecv,
    Perform(Effect<T>),
    SignalShutdown,
    ConnectBackend,
    ReadSnapshot,
    ActivateBlobSender(Seq<T::Blob>),
    Stop,
}

impl<T: SequencerTypes> View for TaskAction<T> {
    type V = Action<T>;

    open spec fn view(&self) -> Action<T> {
        match *self {
            TaskAction::Select => Action::Select,
            TaskAction::TryRecv => Action::TryRecv,
            TaskAction::Perform(effect) => Action::Perform(effect@),
            TaskAction::SignalShutdown => Action::SignalShutdown,
            TaskAction::ConnectBackend => Action::ConnectBackend,
            TaskAction::ReadSnapshot => Action::ReadSnapshot,
            TaskAction::ActivateBlobSender(blobs) => Action::ActivateBlobSender(blobs@),
            TaskAction::Stop => Action::Stop,
        }
    }
}

/// Where the task is.
enum TaskPhase<T: SequencerTypes> {
    Selecting,
    Filling,
    Running { in_flight_can_fail: bool, rest: VecDeque<SideEffect<T>>, for_events: bool },
    Connecting { confirm: T::TransitionResponder },
    ReadingSnapshot { confirm: T::TransitionResponder, backend: T::Backend },
    Activating { confirm: T::TransitionResponder, backend: T::Backend },
    Stopped,
}

/// Where the task is, with the effects that are left.
pub enum Phase<T: SequencerTypes> {
    /// Waiting for a request or an event.
    Selecting,
    /// Filling the queue with the events that are there.
    Filling,
    /// Performing effects one after the other, `rest` after the one in flight. They are those
    /// of events or those of a change of role.
    Running { in_flight_can_fail: bool, rest: Seq<Effect<T>>, for_events: bool },
    /// Connecting to the database, for a promotion.
    Connecting { confirm: T::TransitionResponder },
    /// Reading the completed blobs, for a promotion.
    ReadingSnapshot { confirm: T::TransitionResponder, backend: T::Backend },
    /// Starting the blob sender, for a promotion.
    Activating { confirm: T::TransitionResponder, backend: T::Backend },
    /// Over.
    Stopped,
}

/// The state of the task.
pub struct TaskState<T: SequencerTypes> {
    /// Events that are waiting.
    pub queue: Seq<ExecutorEvent<T>>,
    /// How many events may wait.
    pub max_queue_size: nat,
    /// A database is configured, without which the node cannot lead.
    pub postgres_configured: bool,
    pub phase: Phase<T>,
}

/// A task that runs in the background and handles side effects of accepted transactions.
pub struct SideEffectsTask<T: SequencerTypes> {
    event_queue: VecDeque<ExecutorEvent<T>>,
    max_queue_size: usize,
    postgres_configured: bool,
    phase: TaskPhase<T>,
}

impl<T: SequencerTypes> View for SideEffectsTask<T> {
    type V = TaskState<T>;

    closed spec fn view(&self) -> TaskState<T> {
        TaskState {
            queue: self.event_queue@,
            max_queue_size: self.max_queue_size as nat,
            postgres_configured: self.postgres_configured,
            phase: match self.phase {
                TaskPhase::Selecting => Phase::Selecting,
                TaskPhase::Filling => Phase::Filling,
                TaskPhase::Running { in_flight_can_fail, rest, for_events } => Phase::Running {
                    in_flight_can_fail,
                    rest: effects_of(rest@),
                    for_events,
                },
                TaskPhase::Connecting { confirm } => Phase::Connecting { confirm },
                TaskPhase::ReadingSnapshot { confirm, backend } => Phase::ReadingSnapshot {
                    confirm,
                    backend,
                },
                TaskPhase::Activating { confirm, backend } => Phase::Activating {
                    confirm,
                    backend,
                },
                TaskPhase::Stopped => Phase::Stopped,
            },
        }
    }
}

impl<T: SequencerTypes> TaskState<T> {
    /// There is room in the queue whenever the task waits for something to happen.
    pub open spec fn wf(self) -> bool {
        self.queue.len() < self.max_queue_size
    }

    /// The input tells how the last action went.
    pub open spec fn expects(self, input: TaskInput<T>) -> bool {
        match (self.phase, input) {
            (Phase::Selecting, TaskInput::RoleTransition(_)) => true,
            (Phase::Selecting, TaskInput::Received(_)) => true,
            (Phase::Filling, TaskInput::Polled(_)) => true,
            (Phase::Running { .. }, TaskInput::Done) => true,
            (Phase::Running { in_flight_can_fail, .. }, TaskInput::Failed) => in_flight_can_fail,
            (Phase::Connecting { .. }, TaskInput::Connected(_)) => true,
            (Phase::ReadingSnapshot { .. }, TaskInput::SnapshotRead(_)) => true,
            (Phase::Activating { .. }, TaskInput::Activated(_)) => true,
            _ => false,
        }
    }

    /// This state in another phase.
    pub open spec fn in_phase(self, phase: Phase<T>) -> TaskState<T> {
        TaskState { phase, ..self }
    }

    /// This state with another queue.
    pub open spec fn with_queue(self, queue: Seq<ExecutorEvent<T>>) -> TaskState<T> {
        TaskState { queue, ..self }
    }

    /// Performing effects, of which there is at least one, from the first one on.
    pub open spec fn performing(self, effects: Seq<Effect<T>>, for_events: bool) -> (
        TaskState<T>,
        Action<T>,
    ) {
        (
            self.in_phase(
                Phase::Running {
                    in_flight_can_fail: effects[0].can_fail(),
                    rest: effects.skip(1),
                    for_events,
                },
            ),
            Action::Perform(effects[0]),
        )
    }

    /// Going on with the events that are waiting, or waiting for one.
    pub open spec fn handling(self) -> (TaskState<T>, Action<T>) {
        if self.queue.len() > 0 {
            self.with_queue(
                self.queue.skip(handled_together(self.queue) as int),
            ).performing(planned_effects(self.queue), true)
        } else {
            (self.in_phase(Phase::Selecting), Action::Select)
        }
    }

    /// With one more event in the queue: filling it up first, then handling it.
    pub open spec fn receiving(self, event: ExecutorEvent<T>) -> (TaskState<T>, Action<T>) {
        let grown = self.with_queue(self.queue.push(event));
        if grown.queue.len() < self.max_queue_size {
            (grown.in_phase(Phase::Filling), Action::TryRecv)
        } else {
            grown.handling()
        }
    }

    /// Answering a request for a promotion.
    pub open spec fn refusing(
        self,
        confirm: T::TransitionResponder,
        error: PromoteError<T::Error>,
    ) -> (TaskState<T>, Action<T>) {
        self.performing(
            seq![Effect::ConfirmTransition { responder: confirm, outcome: Err(error) }],
            false,
        )
    }

    /// What the task does next, in the states and on the inputs that fit together.
    pub open spec fn next(self, input: TaskInput<T>) -> (TaskState<T>, Action<T>) {
        match (self.phase, input) {
            (
                Phase::Selecting,
                TaskInput::RoleTransition(RoleTransitionRequest::Promote { confirm }),
            ) => if self.postgres_configured {
                (self.in_phase(Phase::Connecting { confirm }), Action::ConnectBackend)
            } else {
                self.refusing(confirm, PromoteError::NoPostgresConfig)
            },
            (
                Phase::Selecting,
                TaskInput::RoleTransition(RoleTransitionRequest::Demote { confirm }),
            ) => self.performing(
                seq![
                    Effect::SetBackend(None),
                    Effect::DeactivateBlobSender,
                    Effect::ConfirmTransition { responder: confirm, outcome: Ok(()) },
                ],
                false,
            ),
            (Phase::Selecting, TaskInput::Received(None)) => (
                self.in_phase(Phase::Stopped),
                Action::Stop,
            ),
            (Phase::Selecting, TaskInput::Received(Some(event))) => self.receiving(event),
            (Phase::Filling, TaskInput::Polled(Some(event))) => self.receiving(event),
            (Phase::Filling, TaskInput::Polled(None)) => self.handling(),
            (Phase::Running { rest, for_events, .. }, TaskInput::Done) => if rest.len() > 0 {
                self.performing(rest, for_events)
            } else if for_events {
                self.handling()
            } else {
                (self.in_phase(Phase::Selecting), Action::Select)
            },
            (Phase::Running { .. }, TaskInput::Failed) => (
                self.in_phase(Phase::Selecting),
                Action::SignalShutdown,
            ),
            (Phase::Connecting { confirm }, TaskInput::Connected(Ok(backend))) => (
                self.in_phase(Phase::ReadingSnapshot { confirm, backend }),
                Action::ReadSnapshot,
            ),
            (Phase::Connecting { confirm }, TaskInput::Connected(Err(e))) => self.refusing(
                confirm,
                PromoteError::Connect(e),
            ),
            (Phase::ReadingSnapshot { confirm, backend }, TaskInput::SnapshotRead(Ok(blobs))) => (
                self.in_phase(Phase::Activating { confirm, backend }),
                Action::ActivateBlobSender(blobs@),
            ),
            (Phase::ReadingSnapshot { confirm, .. }, TaskInput::SnapshotRead(Err(e))) => {
                self.refusing(confirm, PromoteError::Snapshot(e))
            },
            (Phase::Activating { confirm, backend }, TaskInput::Activated(Ok(_))) => {
                self.performing(
                    seq![
                        Effect::SetBackend(Some(backend)),
                        Effect::ConfirmTransition { responder: confirm, outcome: Ok(()) },
                    ],
                    false,
                )
            },
            (Phase::Activating { confirm, .. }, TaskInput::Activated(Err(e))) => self.refusing(
                confirm,
                PromoteError::Activate(e),
            ),
            _ => (self, Action::Stop),
        }
    }
}

impl<T: SequencerTypes> SideEffectsTask<T> {
    /// A task that holds at most `max_queue_size` events, waiting for the first one.
    pub fn new(max_queue_size: usize, postgres_configured: bool) -> (task: Self)
        requires
            max_queue_size > 0,
        ensures
            task@.wf(),
            task@ == (TaskState::<T> {
                queue: seq![],
                max_queue_size: max_queue_size as nat,
                postgres_configured,
                phase: Phase::Selecting,
            }),
    {
        let task = SideEffectsTask {
            event_queue: VecDeque::new(),
            max_queue_size,
            postgres_configured,
            phase: TaskPhase::Selecting,
        };
        assert(task@.queue =~= seq![]);
        task
    }

    /// Whether the input tells how the last action went.
    pub fn accepts(&self, input: &TaskInput<T>) -> (r: bool)
        ensures
            r == self@.expects(*input),
    {
        match (&self.phase, input) {
            (TaskPhase::Selecting, TaskInput::RoleTransition(_)) => true,
            (TaskPhase::Selecting, TaskInput::Received(_)) => true,
            (TaskPhase::Filling, TaskInput::Polled(_)) => true,
            (TaskPhase::Running { .. }, TaskInput::Done) => true,
            (TaskPhase::Running { in_flight_can_fail, .. }, TaskInput::Failed) => {
                *in_flight_can_fail
            },
            (TaskPhase::Connecting { .. }, TaskInput::Connected(_)) => true,
            (TaskPhase::ReadingSnapshot { .. }, TaskInput::SnapshotRead(_)) => true,
            (TaskPhase::Activating { .. }, TaskInput::Activated(_)) => true,
            _ => false,
        }
    }

    /// The connection that a promotion has made and not yet taken into use.
    pub fn pending_backend(&self) -> (r: Option<&T::Backend>)
        ensures
            match self@.phase {
                Phase::ReadingSnapshot { backend, .. } => r == Some(&backend),
                Phase::Activating { backend, .. } => r == Some(&backend),
                _ => r is None,
            },
    {
        match &self.phase {
            TaskPhase::ReadingSnapshot { backend, .. } => Some(backend),
            TaskPhase::Activating { backend, .. } => Some(backend),
            _ => None,
        }
    }

    /// How many events are waiting.
    pub fn queue_len(&self) -> (n: usize)
        ensures
            n == self@.queue.len(),
    {
        self.event_queue.len()
    }
}

/// A task and what it does next, as a state and an action.
pub open spec fn step_view<T: SequencerTypes>(step: (SideEffectsTask<T>, TaskAction<T>)) -> (
    TaskState<T>,
    Action<T>,
) {
    (step.0@, step.1@)
}

impl<T: SequencerTypes> SideEffectsTask<T> {
    /// Starts the task, which then waits. Unless something fails it leaves no event behind,
    /// and a change of role never waits for more than one queue of events.
    pub fn spawn(self) -> (r: (Self, TaskAction<T>))
        requires
            self@.wf(),
            self@.phase is Selecting,
            self@.queue.len() == 0,
        ensures
            r.0@.wf(),
            (r.0@, r.1@) == (self@, Action::<T>::Select),
            leaves_nothing_behind((r.0@, r.1@)),
            lets_role_changes_in((r.0@, r.1@)),
    {
        proof {
            everything_is_handled_unless_something_fails((self@, Action::<T>::Select));
            role_change_waits_for_one_queue_at_most((self@, Action::<T>::Select));
        }
        (self, TaskAction::Select)
    }

    /// Performs effects from the first one on.
    fn performing(self, effects: VecDeque<SideEffect<T>>, for_events: bool) -> (r: (
        Self,
        TaskAction<T>,
    ))
        requires
            effects@.len() > 0,
        ensures
            step_view(r) == self@.performing(effects_of(effects@), for_events),
    {
        let mut rest = effects;
        let first = rest.pop_front().unwrap();
        let mut task = self;
        task.phase = TaskPhase::Running { in_flight_can_fail: first.can_fail(), rest, for_events };
        assert(effects_of(rest@) =~= effects_of(effects@).skip(1));
        (task, TaskAction::Perform(first))
    }

    /// Goes on with the events that are waiting, or waits for one.
    fn handling(self) -> (r: (Self, TaskAction<T>))
        ensures
            step_view(r) == self@.handling(),
    {
        let mut task = self;
        if task.event_queue.len() > 0 {
            let plan = handle_executor_event(&mut task.event_queue);
            assert(effects_of(plan@).len() > 0);
            task.performing(plan, true)
        } else {
            task.phase = TaskPhase::Selecting;
            (task, TaskAction::Select)
        }
    }

    /// Takes one more event into the queue.
    fn receiving(self, event: ExecutorEvent<T>) -> (r: (Self, TaskAction<T>))
        ensures
            step_view(r) == self@.receiving(event),
    {
        let mut task = self;
        task.event_queue.push_back(event);
        if task.event_queue.len() < task.max_queue_size {
            task.phase = TaskPhase::Filling;
            (task, TaskAction::TryRecv)
        } else {
            task.handling()
        }
    }

    /// Answers a request for a promotion that did not happen.
    fn refusing(self, confirm: T::TransitionResponder, error: PromoteError<T::Error>) -> (r: (
        Self,
        TaskAction<T>,
    ))
        ensures
            step_view(r) == self@.refusing(confirm, error),
    {
        let mut effects: VecDeque<SideEffect<T>> = VecDeque::new();
        effects.push_back(
            SideEffect::ConfirmTransition { responder: confirm, outcome: Err(error) },
        );
        assert(effects_of(effects@) =~= seq![
            Effect::<T>::ConfirmTransition { responder: confirm, outcome: Err(error) },
        ]);
        self.performing(effects, false)
    }

    /// Starts to build what only a leader has.
    pub fn do_promote(self, confirm: T::TransitionResponder) -> (r: (Self, TaskAction<T>))
        requires
            self@.phase is Selecting,
        ensures
            (r.0@, r.1@) == self@.next(
                TaskInput::RoleTransition(RoleTransitionRequest::Promote { confirm }),
            ),
    {
        if self.postgres_configured {
            let mut task = self;
            task.phase = TaskPhase::Connecting { confirm };
            (task, TaskAction::ConnectBackend)
        } else {
            self.refusing(confirm, PromoteError::NoPostgresConfig)
        }
    }

    /// Drops what only a leader has.
    pub fn do_demote(self, confirm: T::TransitionResponder) -> (r: (Self, TaskAction<T>))
        requires
            self@.phase is Selecting,
        ensures
            (r.0@, r.1@) == self@.next(
                TaskInput::RoleTransition(RoleTransitionRequest::Demote { confirm }),
            ),
    {
        let mut effects: VecDeque<SideEffect<T>> = VecDeque::new();
        effects.push_back(SideEffect::SetBackend(None));
        effects.push_back(SideEffect::DeactivateBlobSender);
        effects.push_back(SideEffect::ConfirmTransition { responder: confirm, outcome: Ok(()) });
        assert(effects_of(effects@) =~= seq![
            Effect::<T>::SetBackend(None),
            Effect::DeactivateBlobSender,
            Effect::ConfirmTransition { responder: confirm, outcome: Ok(()) },
        ]);
        self.performing(effects, false)
    }

    /// Starts on a change of role.
    pub fn handle_role_transition(self, req: RoleTransitionRequest<T>) -> (r: (Self, TaskAction<T>))
        requires
            self@.phase is Selecting,
        ensures
            (r.0@, r.1@) == self@.next(TaskInput::RoleTransition(req)),
    {
        match req {
            RoleTransitionRequest::Promote { confirm } => self.do_promote(confirm),
            RoleTransitionRequest::Demote { confirm } => self.do_demote(confirm),
        }
    }

    /// Takes a connection into use, now that the blob sender runs, and says so.
    fn promoted(self, confirm: T::TransitionResponder, backend: T::Backend) -> (r: (
        Self,
        TaskAction<T>,
    ))
        ensures
            step_view(r) == self@.performing(
                seq![
                    Effect::SetBackend(Some(backend)),
                    Effect::ConfirmTransition { responder: confirm, outcome: Ok(()) },
                ],
                false,
            ),
    {
        let mut effects: VecDeque<SideEffect<T>> = VecDeque::new();
        effects.push_back(SideEffect::SetBackend(Some(backend)));
        effects.push_back(SideEffect::ConfirmTransition { responder: confirm, outcome: Ok(()) });
        assert(effects_of(effects@) =~= seq![
            Effect::<T>::SetBackend(Some(backend)),
            Effect::ConfirmTransition { responder: confirm, outcome: Ok(()) },
        ]);
        self.performing(effects, false)
    }

    /// Takes in what has happened and says what to do next.
    pub fn step(self, input: TaskInput<T>) -> (r: (Self, TaskAction<T>))
        requires
            self@.wf(),
            self@.expects(input),
        ensures
            r.0@.wf(),
            r.0@.queue.len() < r.0@.max_queue_size,
            (r.0@, r.1@) == self@.next(input),
    {
        proof {
            next_keeps_room(self@, input);
        }
        let SideEffectsTask { event_queue, max_queue_size, postgres_configured, phase } = self;
        let task = SideEffectsTask {
            event_queue,
            max_queue_size,
            postgres_configured,
            phase: TaskPhase::Selecting,
        };
        match (phase, input) {
            (TaskPhase::Selecting, TaskInput::RoleTransition(req)) => {
                task.handle_role_transition(req)
            },
            (TaskPhase::Selecting, TaskInput::Received(None)) => {
                let mut task = task;
                task.phase = TaskPhase::Stopped;
                (task, TaskAction::Stop)
            },
            (TaskPhase::Selecting, TaskInput::Received(Some(event))) => task.receiving(event),
            (TaskPhase::Filling, TaskInput::Polled(Some(event))) => task.receiving(event),
            (TaskPhase::Filling, TaskInput::Polled(None)) => task.handling(),
            (TaskPhase::Running { rest, for_events, .. }, TaskInput::Done) => {
                if rest.len() > 0 {
                    task.performing(rest, for_events)
                } else if for_events {
                    task.handling()
                } else {
                    (task, TaskAction::Select)
                }
            },
            (TaskPhase::Running { .. }, TaskInput::Failed) => (task, TaskAction::SignalShutdown),
            (TaskPhase::Connecting { confirm }, TaskInput::Connected(Ok(backend))) => {
                let mut task = task;
                task.phase = TaskPhase::ReadingSnapshot { confirm, backend };
                (task, TaskAction::ReadSnapshot)
            },
            (TaskPhase::Connecting { confirm }, TaskInput::Connected(Err(e))) => {
                task.refusing(confirm, PromoteError::Connect(e))
            },
            (
                TaskPhase::ReadingSnapshot { confirm, backend },
                TaskInput::SnapshotRead(Ok(blobs)),
            ) => {
                let mut task = task;
                task.phase = TaskPhase::Activating { confirm, backend };
                (task, TaskAction::ActivateBlobSender(blobs))
            },
            (TaskPhase::ReadingSnapshot { confirm, .. }, TaskInput::SnapshotRead(Err(e))) => {
                task.refusing(confirm, PromoteError::Snapshot(e))
            },
            (TaskPhase::Activating { confirm, backend }, TaskInput::Activated(Ok(_))) => {
                task.promoted(confirm, backend)
            },
            (TaskPhase::Activating { confirm, .. }, TaskInput::Activated(Err(e))) => {
                task.refusing(confirm, PromoteError::Activate(e))
            },
            _ => (task, TaskAction::Stop),
        }
    }
}

// ---- Laws ------------------------------------------------------------------

/// An action shows everything that it was made of, and nothing else.
pub proof fn actions_show_what_they_hold<T: SequencerTypes>(action: TaskAction<T>)
    ensures
        match action {
            TaskAction::Select => action@ == Action::<T>::Select,
            TaskAction::TryRecv => action@ == Action::<T>::TryRecv,
            TaskAction::Perform(effect) => action@ == Action::<T>::Perform(effect@),
            TaskAction::SignalShutdown => action@ == Action::<T>::SignalShutdown,
            TaskAction::ConnectBackend => action@ == Action::<T>::ConnectBackend,
            TaskAction::ReadSnapshot => action@ == Action::<T>::ReadSnapshot,
            TaskAction::ActivateBlobSender(blobs) => action@ == Action::<T>::ActivateBlobSender(
                blobs@,
            ),
            TaskAction::Stop => action@ == Action::<T>::Stop,
        },
{
}

/// The queue never holds more than it may: whenever the task waits for something to
/// happen, there is room for one more event.
pub proof fn next_keeps_room<T: SequencerTypes>(state: TaskState<T>, input: TaskInput<T>)
    requires
        state.wf(),
        state.expects(input),
    ensures
        state.next(input).0.wf(),
        state.next(input).0.queue.len() < state.next(input).0.max_queue_size,
        state.next(input).0.max_queue_size == state.max_queue_size,
{
    if state.queue.len() > 0 {
        handled_together_bounds(state.queue);
    }
    match input {
        TaskInput::Received(Some(event)) => handled_together_bounds(state.queue.push(event)),
        TaskInput::Polled(Some(event)) => handled_together_bounds(state.queue.push(event)),
        _ => {},
    }
}

} // verus!
