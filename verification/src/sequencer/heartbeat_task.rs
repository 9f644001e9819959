//! Heartbeat and leadership of sequencer nodes.
//!
//! Every node with a database reports to it at regular intervals:
//!
//! - **Leaders** defend their leadership with each heartbeat. On loss they ask to be demoted
//!   in-process and go on as replicas.
//! - **Replicas that can be elected** compete for leadership with each heartbeat. On a win
//!   they ask to be promoted in-process and go on as leaders.
//! - **Static replicas** only register and never compete for leadership.
//!
//! The task is a state machine: it is told what has happened and says what to do next.

use vstd::prelude::*;

verus! {

/// What a sequencer node does at the moment.
#[derive(Debug, Clone, Copy, PartialEq, Eq, Structural)]
pub enum SequencerRole {
    /// It leads and produces batches.
    BatchProducer,
    /// It follows a leader through the database.
    PgSyncReplica,
    /// It follows through the DA layer alone.
    DaOnlyReplica,
}

/// What a node is configured to be.
#[derive(Debug, Clone, Copy, PartialEq, Eq, Structural)]
pub enum ConfiguredNodeRole {
    /// Always the leader.
    Leader,
    /// Always a replica.
    Replica,
    /// A leader or a replica, as the database decides.
    DbElected,
}

/// The loop that a node is in.
#[derive(Debug, Clone, Copy, PartialEq, Eq, Structural)]
pub enum HeartBeatLoop {
    /// It defends its leadership.
    Leader,
    /// It competes for leadership.
    Replica,
    /// It only registers.
    Registration,
}

/// What the task is waiting for.
#[derive(Debug, Clone, Copy, PartialEq, Eq, Structural)]
pub enum HeartBeatPhase {
    /// The next tick.
    Ticking(HeartBeatLoop),
    /// The answer of the database to a heartbeat.
    Beating(HeartBeatLoop),
    /// The outcome of a demotion.
    Demoting,
    /// The outcome of a promotion.
    Promoting,
    /// Nothing. The task is over.
    Stopped,
}

/// Why a loop ends.
#[derive(Debug, Clone, Copy, PartialEq, Eq, Structural)]
pub enum LoopOutcome {
    /// The node shuts down.
    Shutdown,
    /// The replica has won the lock, or the leader has lost it.
    TransitionRequested,
}

/// What one round of a loop has brought.
pub enum Round<T, E> {
    /// The node shuts down.
    Shutdown,
    /// A heartbeat has been sent and answered.
    Beat(Result<T, E>),
}

/// Something that has happened.
pub enum HeartBeatInput<E> {
    /// It is time for a heartbeat.
    Tick,
    /// The node shuts down.
    Shutdown,
    /// The database has answered a heartbeat that competes for leadership with the current
    /// leader, if there is one.
    Heartbeat(Result<Option<String>, E>),
    /// The database has answered a heartbeat that only registers.
    Registered(Result<(), E>),
    /// The change of role has been confirmed or rejected.
    Transitioned(Result<(), E>),
}

/// What to do next. Each but the last three calls for the input that tells how it went.
#[derive(Debug, Clone, Copy, PartialEq, Eq, Structural)]
pub enum HeartBeatAction {
    /// Wait for the next tick, or for the node to shut down. The first tick of a fresh
    /// interval comes at once.
    AwaitTick { fresh_interval: bool },
    /// Start the interval over without a tick at once, so that the next tick comes one whole
    /// interval from now, and wait for it, or for the node to shut down.
    BackOff,
    /// Send a heartbeat that competes for leadership.
    Compete,
    /// Send a heartbeat that only registers.
    Register,
    /// Ask to become a replica.
    RequestDemotion,
    /// Ask to become the leader.
    RequestPromotion,
    /// Exit the rollup and end the task.
    ExitRollup,
    /// Signal to the whole node that it has to shut down, and end the task.
    SignalShutdown,
    /// End the task.
    Stop,
}

/// The state of a heartbeat task.
pub struct HeartBeatState {
    /// The name under which the node competes.
    pub node_id: Seq<char>,
    /// What the node is configured to be.
    pub node_role: ConfiguredNodeRole,
    /// Changes of role can be asked for.
    pub has_transitioner: bool,
    pub phase: HeartBeatPhase,
}

/// Manages the heartbeat of a sequencer node, and its part in elections.
pub struct HeartBeatTask {
    node_id: String,
    node_role: ConfiguredNodeRole,
    has_transitioner: bool,
}

/// A heartbeat task that has been started.
pub struct RunningHeartBeat {
    task: HeartBeatTask,
    phase: HeartBeatPhase,
}

impl HeartBeatTask {
    /// The name under which the node competes.
    pub closed spec fn spec_node_id(self) -> Seq<char> {
        self.node_id@
    }

    /// What the node is configured to be.
    pub closed spec fn spec_node_role(self) -> ConfiguredNodeRole {
        self.node_role
    }

    /// Changes of role can be asked for.
    pub closed spec fn spec_has_transitioner(self) -> bool {
        self.has_transitioner
    }
}

impl View for RunningHeartBeat {
    type V = HeartBeatState;

    closed spec fn view(&self) -> HeartBeatState {
        HeartBeatState {
            node_id: self.task.node_id@,
            node_role: self.task.node_role,
            has_transitioner: self.task.has_transitioner,
            phase: self.phase,
        }
    }
}

/// The node is named as the leader by an answer of the database.
pub open spec fn is_named<E>(node_id: Seq<char>, reply: Result<Option<String>, E>) -> bool {
    reply matches Ok(Some(leader)) && leader@ == node_id
}

/// Why the leader's loop ends with a round, if it does: the node shuts down, leadership is
/// lost, or the database cannot say.
pub open spec fn leader_loop_outcome<E>(round: Round<bool, E>) -> Option<LoopOutcome> {
    match round {
        Round::Shutdown => Some(LoopOutcome::Shutdown),
        Round::Beat(Ok(true)) => None,
        Round::Beat(_) => Some(LoopOutcome::TransitionRequested),
    }
}

/// Why the replica's loop ends with a round, if it does: the node shuts down, or leadership
/// is won. An election that fails is tried again.
pub open spec fn replica_loop_outcome<E>(round: Round<bool, E>) -> Option<LoopOutcome> {
    match round {
        Round::Shutdown => Some(LoopOutcome::Shutdown),
        Round::Beat(Ok(true)) => Some(LoopOutcome::TransitionRequested),
        Round::Beat(_) => None,
    }
}

/// The loop that a node starts in.
pub open spec fn first_loop(
    seq_role: SequencerRole,
    node_role: ConfiguredNodeRole,
) -> HeartBeatLoop {
    match seq_role {
        SequencerRole::BatchProducer => HeartBeatLoop::Leader,
        SequencerRole::PgSyncReplica => if node_role == ConfiguredNodeRole::DbElected {
            HeartBeatLoop::Replica
        } else {
            HeartBeatLoop::Registration
        },
        SequencerRole::DaOnlyReplica => HeartBeatLoop::Registration,
    }
}

impl HeartBeatState {
    /// The input tells how the last action went.
    pub open spec fn expects<E>(self, input: HeartBeatInput<E>) -> bool {
        match (self.phase, input) {
            (HeartBeatPhase::Ticking(_), HeartBeatInput::Tick) => true,
            (HeartBeatPhase::Ticking(_), HeartBeatInput::Shutdown) => true,
            (
                HeartBeatPhase::Beating(HeartBeatLoop::Registration),
                HeartBeatInput::Registered(_),
            ) => true,
            (HeartBeatPhase::Beating(HeartBeatLoop::Leader), HeartBeatInput::Heartbeat(_)) => true,
            (HeartBeatPhase::Beating(HeartBeatLoop::Replica), HeartBeatInput::Heartbeat(_)) => true,
            (HeartBeatPhase::Demoting, HeartBeatInput::Transitioned(_)) => true,
            (HeartBeatPhase::Promoting, HeartBeatInput::Transitioned(_)) => true,
            _ => false,
        }
    }

    /// This state in another phase.
    pub open spec fn in_phase(self, phase: HeartBeatPhase) -> HeartBeatState {
        HeartBeatState { phase, ..self }
    }

    /// Entering a loop.
    pub open spec fn entering(self, which: HeartBeatLoop) -> (HeartBeatState, HeartBeatAction) {
        (
            self.in_phase(HeartBeatPhase::Ticking(which)),
            HeartBeatAction::AwaitTick { fresh_interval: true },
        )
    }

    /// Staying in a loop.
    pub open spec fn staying(self, which: HeartBeatLoop) -> (HeartBeatState, HeartBeatAction) {
        (
            self.in_phase(HeartBeatPhase::Ticking(which)),
            HeartBeatAction::AwaitTick { fresh_interval: false },
        )
    }

    /// Staying a replica whose promotion was rejected, and trying the lock again on the next
    /// tick, not before.
    pub open spec fn backing_off(self) -> (HeartBeatState, HeartBeatAction) {
        (self.in_phase(HeartBeatPhase::Ticking(HeartBeatLoop::Replica)), HeartBeatAction::BackOff)
    }

    /// Ending the task.
    pub open spec fn ending(self, action: HeartBeatAction) -> (HeartBeatState, HeartBeatAction) {
        (self.in_phase(HeartBeatPhase::Stopped), action)
    }

    /// A leader has lost the lock. If it cannot ask to be demoted, it exits.
    pub open spec fn losing(self) -> (HeartBeatState, HeartBeatAction) {
        if self.has_transitioner {
            (self.in_phase(HeartBeatPhase::Demoting), HeartBeatAction::RequestDemotion)
        } else {
            self.ending(HeartBeatAction::ExitRollup)
        }
    }

    /// A replica has won the lock. If it cannot ask to be promoted, it shuts the node down, to
    /// be restarted as the leader.
    pub open spec fn winning(self) -> (HeartBeatState, HeartBeatAction) {
        if self.has_transitioner {
            (self.in_phase(HeartBeatPhase::Promoting), HeartBeatAction::RequestPromotion)
        } else {
            self.ending(HeartBeatAction::SignalShutdown)
        }
    }

    /// What the task does next, in the states and on the inputs that fit together.
    pub open spec fn next<E>(self, input: HeartBeatInput<E>) -> (HeartBeatState, HeartBeatAction) {
        match (self.phase, input) {
            (HeartBeatPhase::Ticking(_), HeartBeatInput::Shutdown) => self.ending(
                HeartBeatAction::Stop,
            ),
            (HeartBeatPhase::Ticking(which), HeartBeatInput::Tick) => (
                self.in_phase(HeartBeatPhase::Beating(which)),
                if which == HeartBeatLoop::Registration {
                    HeartBeatAction::Register
                } else {
                    HeartBeatAction::Compete
                },
            ),
            (HeartBeatPhase::Beating(HeartBeatLoop::Leader), HeartBeatInput::Heartbeat(reply)) => {
                if is_named(self.node_id, reply) {
                    self.staying(HeartBeatLoop::Leader)
                } else {
                    self.losing()
                }
            },
            (HeartBeatPhase::Beating(HeartBeatLoop::Replica), HeartBeatInput::Heartbeat(reply)) => {
                if !is_named(self.node_id, reply) {
                    self.staying(HeartBeatLoop::Replica)
                } else {
                    self.winning()
                }
            },
            (
                HeartBeatPhase::Beating(HeartBeatLoop::Registration),
                HeartBeatInput::Registered(_),
            ) => self.staying(HeartBeatLoop::Registration),
            (HeartBeatPhase::Demoting, HeartBeatInput::Transitioned(Ok(_))) => self.entering(
                HeartBeatLoop::Replica,
            ),
            (HeartBeatPhase::Demoting, HeartBeatInput::Transitioned(Err(_))) => self.ending(
                HeartBeatAction::ExitRollup,
            ),
            (HeartBeatPhase::Promoting, HeartBeatInput::Transitioned(Ok(_))) => self.entering(
                HeartBeatLoop::Leader,
            ),
            (HeartBeatPhase::Promoting, HeartBeatInput::Transitioned(Err(_))) => self.backing_off(),
            _ => self.ending(HeartBeatAction::Stop),
        }
    }
}

impl HeartBeatTask {
    /// A task for the named node. `has_transitioner` says whether changes of role can be
    /// asked for.
    pub fn new(node_id: String, node_role: ConfiguredNodeRole, has_transitioner: bool) -> (task:
        Self)
        ensures
            task.spec_node_id() == node_id@,
            task.spec_node_role() == node_role,
            task.spec_has_transitioner() == has_transitioner,
    {
        HeartBeatTask { node_id, node_role, has_transitioner }
    }

    /// Starts the task in the role that the node has at that moment. Static replicas and
    /// replicas that follow the DA layer alone never compete for leadership.
    pub fn spawn(self, seq_role: SequencerRole) -> (r: (RunningHeartBeat, HeartBeatAction))
        requires
            seq_role == SequencerRole::PgSyncReplica ==> self.spec_node_role()
                != ConfiguredNodeRole::Leader,
        ensures
            (r.0@, r.1) == (HeartBeatState {
                node_id: self.spec_node_id(),
                node_role: self.spec_node_role(),
                has_transitioner: self.spec_has_transitioner(),
                phase: HeartBeatPhase::Stopped,
            }).entering(first_loop(seq_role, self.spec_node_role())),
            r.0@.node_id == self.spec_node_id(),
            r.0@.node_role == self.spec_node_role(),
            r.0@.has_transitioner == self.spec_has_transitioner(),
            r.0@.phase == HeartBeatPhase::Ticking(
                if seq_role is BatchProducer {
                    HeartBeatLoop::Leader
                } else if seq_role is PgSyncReplica && self.spec_node_role() is DbElected {
                    HeartBeatLoop::Replica
                } else {
                    HeartBeatLoop::Registration
                },
            ),
            r.1 == (HeartBeatAction::AwaitTick { fresh_interval: true }),
    {
        let is_db_elected = self.node_role == ConfiguredNodeRole::DbElected;
        let which = if seq_role == SequencerRole::DaOnlyReplica {
            HeartBeatLoop::Registration
        } else if seq_role == SequencerRole::PgSyncReplica && !is_db_elected {
            HeartBeatLoop::Registration
        } else if seq_role == SequencerRole::BatchProducer {
            HeartBeatLoop::Leader
        } else {
            HeartBeatLoop::Replica
        };
        (
            RunningHeartBeat { task: self, phase: HeartBeatPhase::Ticking(which) },
            HeartBeatAction::AwaitTick { fresh_interval: true },
        )
    }

    /// Whether the answer to a competing heartbeat names this node as the leader.
    pub fn try_acquire_leadership<E>(&self, reply: Result<Option<String>, E>) -> (r: Result<
        bool,
        E,
    >)
        ensures
            match reply {
                Ok(leader) => r == Ok::<bool, E>(is_named(self.spec_node_id(), reply)),
                Err(e) => r == Err::<bool, E>(e),
            },
            match reply {
                Ok(Some(leader)) => r == Ok::<bool, E>(leader@ == self.spec_node_id()),
                Ok(None) => r == Ok::<bool, E>(false),
                Err(e) => r == Err::<bool, E>(e),
            },
    {
        match reply {
            Ok(Some(leader)) => Ok(leader == self.node_id),
            Ok(None) => Ok(false),
            Err(e) => Err(e),
        }
    }
}

/// Whether and why the leader's loop ends with a round.
pub fn run_leader_loop<E>(round: Round<bool, E>) -> (outcome: Option<LoopOutcome>)
    ensures
        outcome == leader_loop_outcome(round),
        outcome is None <==> round == Round::<bool, E>::Beat(Ok(true)),
        outcome == Some(LoopOutcome::Shutdown) <==> round is Shutdown,
{
    match round {
        Round::Shutdown => Some(LoopOutcome::Shutdown),
        Round::Beat(Ok(true)) => None,
        Round::Beat(Ok(false)) => Some(LoopOutcome::TransitionRequested),
        Round::Beat(Err(_)) => Some(LoopOutcome::TransitionRequested),
    }
}

/// Whether and why the replica's loop ends with a round.
pub fn run_replica_loop<E>(round: Round<bool, E>) -> (outcome: Option<LoopOutcome>)
    ensures
        outcome == replica_loop_outcome(round),
        outcome == Some(LoopOutcome::TransitionRequested) <==> round == Round::<bool, E>::Beat(
            Ok(true),
        ),
        outcome == Some(LoopOutcome::Shutdown) <==> round is Shutdown,
{
    match round {
        Round::Shutdown => Some(LoopOutcome::Shutdown),
        Round::Beat(Ok(true)) => Some(LoopOutcome::TransitionRequested),
        Round::Beat(Ok(false)) => None,
        Round::Beat(Err(_)) => None,
    }
}

/// Whether and why the registration loop ends with a round. A registration that fails is
/// tried again.
pub fn run_registration_loop<E>(round: Round<(), E>) -> (outcome: Option<LoopOutcome>)
    ensures
        outcome == (match round {
            Round::Shutdown => Some(LoopOutcome::Shutdown),
            Round::Beat(_) => None,
        }),
{
    match round {
        Round::Shutdown => Some(LoopOutcome::Shutdown),
        Round::Beat(_) => None,
    }
}

impl RunningHeartBeat {
    /// Whether the input tells how the last action went.
    pub fn accepts<E>(&self, input: &HeartBeatInput<E>) -> (r: bool)
        ensures
            r == self@.expects(*input),
    {
        match (self.phase, input) {
            (HeartBeatPhase::Ticking(_), HeartBeatInput::Tick) => true,
            (HeartBeatPhase::Ticking(_), HeartBeatInput::Shutdown) => true,
            (
                HeartBeatPhase::Beating(HeartBeatLoop::Registration),
                HeartBeatInput::Registered(_),
            ) => true,
            (HeartBeatPhase::Beating(HeartBeatLoop::Leader), HeartBeatInput::Heartbeat(_)) => true,
            (HeartBeatPhase::Beating(HeartBeatLoop::Replica), HeartBeatInput::Heartbeat(_)) => true,
            (HeartBeatPhase::Demoting, HeartBeatInput::Transitioned(_)) => true,
            (HeartBeatPhase::Promoting, HeartBeatInput::Transitioned(_)) => true,
            _ => false,
        }
    }

    /// Stays in a loop that goes on, or does what follows from its end.
    fn react(&mut self, which: HeartBeatLoop, outcome: Option<LoopOutcome>) -> (action:
        HeartBeatAction)
        requires
            which == HeartBeatLoop::Registration ==> outcome != Some(
                LoopOutcome::TransitionRequested,
            ),
        ensures
            (final(self)@, action) == (match (which, outcome) {
                (_, None) => old(self)@.staying(which),
                (_, Some(LoopOutcome::Shutdown)) => old(self)@.ending(HeartBeatAction::Stop),
                (HeartBeatLoop::Leader, Some(LoopOutcome::TransitionRequested)) => old(
                    self,
                )@.losing(),
                (_, Some(LoopOutcome::TransitionRequested)) => old(self)@.winning(),
            }),
    {
        match outcome {
            None => {
                self.phase = HeartBeatPhase::Ticking(which);
                HeartBeatAction::AwaitTick { fresh_interval: false }
            },
            Some(LoopOutcome::Shutdown) => {
                self.phase = HeartBeatPhase::Stopped;
                HeartBeatAction::Stop
            },
            Some(LoopOutcome::TransitionRequested) => {
                if which == HeartBeatLoop::Leader {
                    if self.task.has_transitioner {
                        self.phase = HeartBeatPhase::Demoting;
                        HeartBeatAction::RequestDemotion
                    } else {
                        self.phase = HeartBeatPhase::Stopped;
                        HeartBeatAction::ExitRollup
                    }
                } else {
                    if self.task.has_transitioner {
                        self.phase = HeartBeatPhase::Promoting;
                        HeartBeatAction::RequestPromotion
                    } else {
                        self.phase = HeartBeatPhase::Stopped;
                        HeartBeatAction::SignalShutdown
                    }
                }
            },
        }
    }

    /// Takes in what has happened and says what to do next.
    pub fn step<E>(&mut self, input: HeartBeatInput<E>) -> (action: HeartBeatAction)
        requires
            old(self)@.expects(input),
        ensures
            (final(self)@, action) == old(self)@.next(input),
    {
        match (self.phase, input) {
            (HeartBeatPhase::Ticking(which), HeartBeatInput::Shutdown) => {
                let outcome = match which {
                    HeartBeatLoop::Leader => run_leader_loop::<E>(Round::Shutdown),
                    HeartBeatLoop::Replica => run_replica_loop::<E>(Round::Shutdown),
                    HeartBeatLoop::Registration => run_registration_loop::<E>(Round::Shutdown),
                };
                self.react(which, outcome)
            },
            (HeartBeatPhase::Ticking(which), HeartBeatInput::Tick) => {
                self.phase = HeartBeatPhase::Beating(which);
                if which == HeartBeatLoop::Registration {
                    HeartBeatAction::Register
                } else {
                    HeartBeatAction::Compete
                }
            },
            (HeartBeatPhase::Beating(HeartBeatLoop::Leader), HeartBeatInput::Heartbeat(reply)) => {
                let leads = self.task.try_acquire_leadership(reply);
                self.react(HeartBeatLoop::Leader, run_leader_loop(Round::Beat(leads)))
            },
            (HeartBeatPhase::Beating(HeartBeatLoop::Replica), HeartBeatInput::Heartbeat(reply)) => {
                let leads = self.task.try_acquire_leadership(reply);
                self.react(HeartBeatLoop::Replica, run_replica_loop(Round::Beat(leads)))
            },
            (
                HeartBeatPhase::Beating(HeartBeatLoop::Registration),
                HeartBeatInput::Registered(reply),
            ) => {
                self.react(HeartBeatLoop::Registration, run_registration_loop(Round::Beat(reply)))
            },
            (HeartBeatPhase::Demoting, HeartBeatInput::Transitioned(Ok(_))) => {
                self.phase = HeartBeatPhase::Ticking(HeartBeatLoop::Replica);
                HeartBeatAction::AwaitTick { fresh_interval: true }
            },
            (HeartBeatPhase::Demoting, HeartBeatInput::Transitioned(Err(_))) => {
                self.phase = HeartBeatPhase::Stopped;
                HeartBeatAction::ExitRollup
            },
            (HeartBeatPhase::Promoting, HeartBeatInput::Transitioned(Ok(_))) => {
                self.phase = HeartBeatPhase::Ticking(HeartBeatLoop::Leader);
                HeartBeatAction::AwaitTick { fresh_interval: true }
            },
            (HeartBeatPhase::Promoting, HeartBeatInput::Transitioned(Err(_))) => {
                // The node still holds the lock, so it backs off until the next tick, competes
                // on and asks again.
                self.phase = HeartBeatPhase::Ticking(HeartBeatLoop::Replica);
                HeartBeatAction::BackOff
            },
            _ => {
                self.phase = HeartBeatPhase::Stopped;
                HeartBeatAction::Stop
            },
        }
    }
}

// ---- Laws ------------------------------------------------------------------

/// An answer names a node if and only if it gives that node's id, character for character.
pub proof fn answer_names_the_node_with_its_id<E>(
    node_id: Seq<char>,
    reply: Result<Option<String>, E>,
)
    ensures
        is_named(node_id, reply) <==> match reply {
            Ok(Some(leader)) => leader@ == node_id,
            Ok(None) => false,
            Err(_) => false,
        },
{
}

/// No answer names two nodes, so no two nodes with different ids take themselves for the
/// leader on the same answer.
pub proof fn answer_names_one_node_at_most<E>(
    first: HeartBeatState,
    second: HeartBeatState,
    reply: Result<Option<String>, E>,
)
    requires
        first.node_id != second.node_id,
        first.phase == HeartBeatPhase::Beating(HeartBeatLoop::Leader) || first.phase
            == HeartBeatPhase::Beating(HeartBeatLoop::Replica),
        second.phase == HeartBeatPhase::Beating(HeartBeatLoop::Leader) || second.phase
            == HeartBeatPhase::Beating(HeartBeatLoop::Replica),
    ensures
        !(is_named(first.node_id, reply) && is_named(second.node_id, reply)),
        ({
            let one = first.next(HeartBeatInput::Heartbeat(reply));
            let other = second.next(HeartBeatInput::Heartbeat(reply));
            let one_leads = one.0.phase == HeartBeatPhase::Ticking(HeartBeatLoop::Leader)
                || one.1 == HeartBeatAction::RequestPromotion;
            let other_leads = other.0.phase == HeartBeatPhase::Ticking(HeartBeatLoop::Leader)
                || other.1 == HeartBeatAction::RequestPromotion;
            !(one_leads && other_leads)
        }),
{
}

/// A leader whose own id is the answer to its heartbeat stays leader until the next tick.
/// Any other answer, and none, makes it ask to be demoted, or exit if it cannot ask.
pub proof fn leader_acts_on_the_answer<E>(state: HeartBeatState, reply: Result<Option<String>, E>)
    requires
        state.phase == HeartBeatPhase::Beating(HeartBeatLoop::Leader),
    ensures
        ({
            let (after, action) = state.next(HeartBeatInput::Heartbeat(reply));
            let leads = match reply {
                Ok(Some(leader)) => leader@ == state.node_id,
                _ => false,
            };
            if leads {
                &&& after.phase == HeartBeatPhase::Ticking(HeartBeatLoop::Leader)
                &&& action == (HeartBeatAction::AwaitTick { fresh_interval: false })
            } else if state.has_transitioner {
                &&& after.phase is Demoting
                &&& action == HeartBeatAction::RequestDemotion
            } else {
                &&& after.phase is Stopped
                &&& action == HeartBeatAction::ExitRollup
            }
        }),
{
}

/// A replica whose own id is the answer to its heartbeat asks to be promoted, or has the node
/// shut down if it cannot ask. Any other answer, and none, makes it wait for the next tick.
pub proof fn replica_acts_on_the_answer<E>(state: HeartBeatState, reply: Result<Option<String>, E>)
    requires
        state.phase == HeartBeatPhase::Beating(HeartBeatLoop::Replica),
    ensures
        ({
            let (after, action) = state.next(HeartBeatInput::Heartbeat(reply));
            let leads = match reply {
                Ok(Some(leader)) => leader@ == state.node_id,
                _ => false,
            };
            if !leads {
                &&& after.phase == HeartBeatPhase::Ticking(HeartBeatLoop::Replica)
                &&& action == (HeartBeatAction::AwaitTick { fresh_interval: false })
            } else if state.has_transitioner {
                &&& after.phase is Promoting
                &&& action == HeartBeatAction::RequestPromotion
            } else {
                &&& after.phase is Stopped
                &&& action == HeartBeatAction::SignalShutdown
            }
        }),
{
}

/// A node that only registers does so on every tick and goes on whatever the answer is.
pub proof fn registration_goes_on<E>(state: HeartBeatState, reply: Result<(), E>)
    requires
        state.phase == HeartBeatPhase::Beating(HeartBeatLoop::Registration),
    ensures
        state.next(HeartBeatInput::Registered(reply)).0.phase == HeartBeatPhase::Ticking(
            HeartBeatLoop::Registration,
        ),
        state.next(HeartBeatInput::Registered(reply)).1 == (HeartBeatAction::AwaitTick {
            fresh_interval: false,
        }),
{
}

/// Every tick sends one heartbeat, which competes for leadership unless the node only
/// registers. A shutdown ends the task instead, in every loop.
pub proof fn ticks_send_heartbeats<E>(state: HeartBeatState, which: HeartBeatLoop)
    requires
        state.phase == HeartBeatPhase::Ticking(which),
    ensures
        state.next(HeartBeatInput::<E>::Tick).0.phase == HeartBeatPhase::Beating(which),
        which is Registration ==> state.next(HeartBeatInput::<E>::Tick).1
            == HeartBeatAction::Register,
        which is Leader || which is Replica ==> state.next(HeartBeatInput::<E>::Tick).1
            == HeartBeatAction::Compete,
        state.next(HeartBeatInput::<E>::Shutdown).0.phase is Stopped,
        state.next(HeartBeatInput::<E>::Shutdown).1 == HeartBeatAction::Stop,
{
}

/// A change of role that is confirmed is acted on at once, with a fresh interval. A promotion
/// that is rejected leaves a replica that backs off. A demotion that is rejected makes the
/// rollup exit.
pub proof fn outcome_of_a_transition_is_acted_on<E>(state: HeartBeatState, outcome: Result<(), E>)
    requires
        state.phase is Demoting || state.phase is Promoting,
    ensures
        ({
            let (after, action) = state.next(HeartBeatInput::Transitioned(outcome));
            match outcome {
                Ok(_) => {
                    &&& action == (HeartBeatAction::AwaitTick { fresh_interval: true })
                    &&& state.phase is Demoting ==> after.phase == HeartBeatPhase::Ticking(
                        HeartBeatLoop::Replica,
                    )
                    &&& state.phase is Promoting ==> after.phase == HeartBeatPhase::Ticking(
                        HeartBeatLoop::Leader,
                    )
                },
                Err(_) => {
                    &&& state.phase is Promoting ==> after.phase == HeartBeatPhase::Ticking(
                        HeartBeatLoop::Replica,
                    ) && action == HeartBeatAction::BackOff
                    &&& state.phase is Demoting ==> after.phase is Stopped && action
                        == HeartBeatAction::ExitRollup
                },
            }
        }),
{
}

/// Nothing that happens changes who the node is.
pub proof fn identity_never_changes<E>(state: HeartBeatState, input: HeartBeatInput<E>)
    ensures
        state.next(input).0.node_id == state.node_id,
        state.next(input).0.node_role == state.node_role,
        state.next(input).0.has_transitioner == state.has_transitioner,
{
}

/// Each action calls for the input that tells how it went, and for no other. After the last
/// one nothing is expected.
pub proof fn every_heartbeat_action_calls_for_its_answer<E>(
    state: HeartBeatState,
    input: HeartBeatInput<E>,
    answer: HeartBeatInput<E>,
)
    requires
        state.expects(input),
    ensures
        state.next(input).0.expects(answer) <==> match state.next(input).1 {
            HeartBeatAction::AwaitTick { .. } => answer is Tick || answer is Shutdown,
            HeartBeatAction::BackOff => answer is Tick || answer is Shutdown,
            HeartBeatAction::Compete => answer is Heartbeat,
            HeartBeatAction::Register => answer is Registered,
            HeartBeatAction::RequestDemotion => answer is Transitioned,
            HeartBeatAction::RequestPromotion => answer is Transitioned,
            HeartBeatAction::ExitRollup => false,
            HeartBeatAction::SignalShutdown => false,
            HeartBeatAction::Stop => false,
        },
{
}

/// A task that waits for its next heartbeat takes a tick or a shutdown, and nothing else.
pub proof fn waiting_heartbeat_takes_ticks<E>(
    state: HeartBeatState,
    which: HeartBeatLoop,
    input: HeartBeatInput<E>,
)
    requires
        state.phase == HeartBeatPhase::Ticking(which),
    ensures
        state.expects(input) <==> input is Tick || input is Shutdown,
{
}

/// A node starts as a leader if and only if it produces batches, and competes from the start
/// if and only if it follows the database and can be elected. Every other node only registers.
pub proof fn nodes_start_in_the_loop_of_their_role(
    seq_role: SequencerRole,
    node_role: ConfiguredNodeRole,
)
    ensures
        first_loop(seq_role, node_role) is Leader <==> seq_role is BatchProducer,
        first_loop(seq_role, node_role) is Replica <==> seq_role is PgSyncReplica
            && node_role is DbElected,
        first_loop(seq_role, node_role) is Registration <==> seq_role is DaOnlyReplica
            || seq_role is PgSyncReplica && !(node_role is DbElected),
{
}

/// The state after a run of inputs, and the last action.
pub open spec fn run<E>(
    start: (HeartBeatState, HeartBeatAction),
    inputs: Seq<HeartBeatInput<E>>,
) -> (HeartBeatState, HeartBeatAction)
    decreases inputs.len(),
{
    if inputs.len() == 0 {
        start
    } else {
        run(start, inputs.drop_last()).0.next(inputs.last())
    }
}

/// Every input of a run tells how the action before it went.
pub open spec fn fits<E>(
    start: (HeartBeatState, HeartBeatAction),
    inputs: Seq<HeartBeatInput<E>>,
) -> bool
    decreases inputs.len(),
{
    inputs.len() == 0 || {
        &&& fits(start, inputs.drop_last())
        &&& run(start, inputs.drop_last()).0.expects(inputs.last())
    }
}

/// A node that started out to register only never competes for leadership and never asks
/// for a change of role, and it ends only when it is told to shut down.
pub proof fn static_replicas_never_compete<E>(
    state: HeartBeatState,
    inputs: Seq<HeartBeatInput<E>>,
)
    requires
        fits(state.entering(HeartBeatLoop::Registration), inputs),
    ensures
        ({
            let (last, action) = run(state.entering(HeartBeatLoop::Registration), inputs);
            ||| last.phase == HeartBeatPhase::Ticking(HeartBeatLoop::Registration)
                && action is AwaitTick
            ||| last.phase == HeartBeatPhase::Beating(HeartBeatLoop::Registration)
                && action is Register
            ||| last.phase is Stopped && action is Stop && inputs.last() is Shutdown
        }),
    decreases inputs.len(),
{
    if inputs.len() > 0 {
        static_replicas_never_compete(state, inputs.drop_last());
    }
}

/// The role that a task acts in.
pub open spec fn acting_loop(phase: HeartBeatPhase) -> Option<HeartBeatLoop> {
    match phase {
        HeartBeatPhase::Ticking(which) => Some(which),
        HeartBeatPhase::Beating(which) => Some(which),
        HeartBeatPhase::Demoting => Some(HeartBeatLoop::Leader),
        HeartBeatPhase::Promoting => Some(HeartBeatLoop::Replica),
        HeartBeatPhase::Stopped => None,
    }
}

/// A task acts in another role only after the change of role that it asked for has been
/// confirmed.
pub proof fn role_changes_only_when_confirmed<E>(state: HeartBeatState, input: HeartBeatInput<E>)
    requires
        state.expects(input),
        !(state.next(input).0.phase is Stopped),
        acting_loop(state.next(input).0.phase) != acting_loop(state.phase),
    ensures
        input matches HeartBeatInput::Transitioned(Ok(_)),
        state.phase is Demoting && acting_loop(state.next(input).0.phase) == Some(
            HeartBeatLoop::Replica,
        ) || state.phase is Promoting && acting_loop(state.next(input).0.phase) == Some(
            HeartBeatLoop::Leader,
        ),
{
}

/// A leader stays leader after a heartbeat if and only if the database names it. An answer
/// that names another node, or nobody, or no answer at all makes it step back.
pub proof fn leader_needs_to_be_named<E>(state: HeartBeatState, reply: Result<Option<String>, E>)
    requires
        state.phase == HeartBeatPhase::Beating(HeartBeatLoop::Leader),
    ensures
        state.next(HeartBeatInput::Heartbeat(reply)).0.phase == HeartBeatPhase::Ticking(
            HeartBeatLoop::Leader,
        ) <==> is_named(state.node_id, reply),
{
}

/// A replica competes on, whatever goes wrong: after a failed election, after an election
/// that another node won, and after a promotion that was rejected. It waits for the next
/// tick, after a rejection for a whole interval, so it never retries at once.
pub proof fn replica_competes_on<E>(state: HeartBeatState, input: HeartBeatInput<E>)
    requires
        state.expects(input),
        acting_loop(state.phase) == Some(HeartBeatLoop::Replica),
        match input {
            HeartBeatInput::Heartbeat(reply) => !is_named(state.node_id, reply),
            HeartBeatInput::Transitioned(outcome) => outcome is Err,
            _ => false,
        },
    ensures
        state.next(input).0.phase == HeartBeatPhase::Ticking(HeartBeatLoop::Replica),
        state.next(input).1 == (if input is Transitioned {
            HeartBeatAction::BackOff
        } else {
            HeartBeatAction::AwaitTick { fresh_interval: false }
        }),
        state.next(input).0.next(HeartBeatInput::<E>::Tick).1 == HeartBeatAction::Compete,
{
}

/// A replica whose promotion was rejected asks again when the next heartbeat still names it,
/// and no sooner.
pub proof fn rejected_promotion_is_retried_on_the_next_tick<E>(
    state: HeartBeatState,
    error: E,
    reply: Result<Option<String>, E>,
)
    requires
        state.phase is Promoting,
        state.has_transitioner,
        is_named(state.node_id, reply),
    ensures
        ({
            let rejected = state.next(HeartBeatInput::Transitioned(Err(error)));
            let ticked = rejected.0.next(HeartBeatInput::<E>::Tick);
            let named = ticked.0.next(HeartBeatInput::Heartbeat(reply));
            &&& rejected.1 == HeartBeatAction::BackOff
            &&& ticked.1 == HeartBeatAction::Compete
            &&& named.1 == HeartBeatAction::RequestPromotion
            &&& forall|input: HeartBeatInput<E>|
                rejected.0.expects(input) ==> input is Tick || input is Shutdown
        }),
{
}

/// A leader whose heartbeat was answered has lost the lock, or has not heard.
pub open spec fn lock_is_lost<E>(state: HeartBeatState, input: HeartBeatInput<E>) -> bool {
    state.phase == HeartBeatPhase::Beating(HeartBeatLoop::Leader) && (input matches
        HeartBeatInput::Heartbeat(reply) && !is_named(state.node_id, reply))
}

/// A replica whose heartbeat was answered has won the lock.
pub open spec fn lock_is_won<E>(state: HeartBeatState, input: HeartBeatInput<E>) -> bool {
    state.phase == HeartBeatPhase::Beating(HeartBeatLoop::Replica) && (input matches
        HeartBeatInput::Heartbeat(reply) && is_named(state.node_id, reply))
}

/// A task ends for one of three reasons and for no other. The node shuts down, and the task
/// just stops. A leader has lost the lock and either cannot ask to be demoted or has been
/// refused, and the rollup exits. A replica has won the lock and cannot ask to be promoted,
/// and the whole node is told to shut down.
pub proof fn task_ends_for_three_reasons<E>(state: HeartBeatState, input: HeartBeatInput<E>)
    requires
        state.expects(input),
    ensures
        state.next(input).1 == HeartBeatAction::Stop <==> input is Shutdown,
        state.next(input).1 == HeartBeatAction::ExitRollup <==> {
            ||| lock_is_lost(state, input) && !state.has_transitioner
            ||| state.phase is Demoting && (input matches HeartBeatInput::Transitioned(Err(_)))
        },
        state.next(input).1 == HeartBeatAction::SignalShutdown <==> lock_is_won(state, input)
            && !state.has_transitioner,
        state.next(input).0.phase is Stopped <==> {
            ||| state.next(input).1 == HeartBeatAction::Stop
            ||| state.next(input).1 == HeartBeatAction::ExitRollup
            ||| state.next(input).1 == HeartBeatAction::SignalShutdown
        },
{
}

/// A node that can ask for changes of role asks for one if and only if the lock is lost or
/// won.
pub proof fn transitions_are_asked_for_when_the_lock_moves<E>(
    state: HeartBeatState,
    input: HeartBeatInput<E>,
)
    requires
        state.expects(input),
    ensures
        state.next(input).1 == HeartBeatAction::RequestDemotion <==> lock_is_lost(state, input)
            && state.has_transitioner,
        state.next(input).1 == HeartBeatAction::RequestPromotion <==> lock_is_won(state, input)
            && state.has_transitioner,
{
}

/// The role that an input grants.
pub open spec fn granted_by<E>(state: HeartBeatState, input: HeartBeatInput<E>) -> Seq<
    HeartBeatLoop,
> {
    match (state.phase, input) {
        (HeartBeatPhase::Demoting, HeartBeatInput::Transitioned(Ok(_))) => seq![
            HeartBeatLoop::Replica,
        ],
        (HeartBeatPhase::Promoting, HeartBeatInput::Transitioned(Ok(_))) => seq![
            HeartBeatLoop::Leader,
        ],
        _ => seq![],
    }
}

/// All the roles that were granted during a run, in their order.
pub open spec fn granted<E>(
    start: (HeartBeatState, HeartBeatAction),
    inputs: Seq<HeartBeatInput<E>>,
) -> Seq<HeartBeatLoop>
    decreases inputs.len(),
{
    if inputs.len() == 0 {
        seq![]
    } else {
        granted(start, inputs.drop_last()) + granted_by(
            run(start, inputs.drop_last()).0,
            inputs.last(),
        )
    }
}

/// Granted changes of role alternate: each grants the other role than the one before it, the
/// first one another role than the task started in, and as long as the task runs it acts in
/// the role that was granted last.
pub proof fn granted_roles_alternate<E>(
    start: (HeartBeatState, HeartBeatAction),
    inputs: Seq<HeartBeatInput<E>>,
)
    requires
        fits(start, inputs),
    ensures
        ({
            let roles = granted(start, inputs);
            &&& roles.len() > 0 ==> acting_loop(start.0.phase) != Some(roles[0])
            &&& forall|i: int|
                0 <= i < roles.len() ==> #[trigger] roles[i] != HeartBeatLoop::Registration
            &&& forall|i: int, j: int|
                0 <= i && j == i + 1 && j < roles.len() ==> #[trigger] roles[i] != #[trigger] roles[j]
            &&& !(run(start, inputs).0.phase is Stopped) ==> acting_loop(
                run(start, inputs).0.phase,
            ) == (if roles.len() > 0 {
                Some(roles.last())
            } else {
                acting_loop(start.0.phase)
            })
        }),
    decreases inputs.len(),
{
    if inputs.len() > 0 {
        granted_roles_alternate(start, inputs.drop_last());
        let before = granted(start, inputs.drop_last());
        let roles = granted(start, inputs);
        assert forall|i: int, j: int|
            0 <= i && j == i + 1 && j < roles.len() implies #[trigger] roles[i]
            != #[trigger] roles[j] by {
            if j < before.len() {
                assert(before[i] != before[j]);
            }
        }
    }
}

} // verus!
