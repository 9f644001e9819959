use ligate_node::sequencer::heartbeat_task::{
    run_leader_loop, run_registration_loop, run_replica_loop, ConfiguredNodeRole, HeartBeatAction,
    HeartBeatInput, HeartBeatTask, LoopOutcome, Round, RunningHeartBeat, SequencerRole,
};

const FRESH: HeartBeatAction = HeartBeatAction::AwaitTick { fresh_interval: true };
const WAIT: HeartBeatAction = HeartBeatAction::AwaitTick { fresh_interval: false };

fn start(
    role: SequencerRole,
    configured: ConfiguredNodeRole,
    has_transitioner: bool,
) -> RunningHeartBeat {
    let task = HeartBeatTask::new("node-1".to_string(), configured, has_transitioner);
    let (running, action) = task.spawn(role);
    assert_eq!(action, FRESH);
    running
}

fn step(task: &mut RunningHeartBeat, input: HeartBeatInput<&'static str>) -> HeartBeatAction {
    assert!(task.accepts(&input));
    task.step(input)
}

fn names(leader: &str) -> HeartBeatInput<&'static str> {
    HeartBeatInput::Heartbeat(Ok(Some(leader.to_string())))
}

#[test]
fn leadership_goes_by_the_node_id() {
    let task = HeartBeatTask::new("node-1".to_string(), ConfiguredNodeRole::DbElected, true);
    assert_eq!(
        task.try_acquire_leadership::<u8>(Ok(Some("node-1".to_string()))),
        Ok(true)
    );
    assert_eq!(
        task.try_acquire_leadership::<u8>(Ok(Some("node-2".to_string()))),
        Ok(false)
    );
    assert_eq!(task.try_acquire_leadership::<u8>(Ok(None)), Ok(false));
    assert_eq!(task.try_acquire_leadership::<u8>(Err(7)), Err(7));
}

#[test]
fn loops_end_for_their_reasons() {
    assert_eq!(run_leader_loop::<u8>(Round::Beat(Ok(true))), None);
    assert_eq!(
        run_leader_loop::<u8>(Round::Beat(Ok(false))),
        Some(LoopOutcome::TransitionRequested)
    );
    assert_eq!(
        run_leader_loop::<u8>(Round::Beat(Err(1))),
        Some(LoopOutcome::TransitionRequested)
    );
    assert_eq!(run_leader_loop::<u8>(Round::Shutdown), Some(LoopOutcome::Shutdown));
    assert_eq!(
        run_replica_loop::<u8>(Round::Beat(Ok(true))),
        Some(LoopOutcome::TransitionRequested)
    );
    assert_eq!(run_replica_loop::<u8>(Round::Beat(Ok(false))), None);
    assert_eq!(run_replica_loop::<u8>(Round::Beat(Err(1))), None);
    assert_eq!(run_replica_loop::<u8>(Round::Shutdown), Some(LoopOutcome::Shutdown));
    assert_eq!(run_registration_loop::<u8>(Round::Beat(Err(1))), None);
    assert_eq!(
        run_registration_loop::<u8>(Round::Shutdown),
        Some(LoopOutcome::Shutdown)
    );
}

#[test]
fn static_replica_only_registers() {
    for (role, configured) in [
        (SequencerRole::PgSyncReplica, ConfiguredNodeRole::Replica),
        (SequencerRole::DaOnlyReplica, ConfiguredNodeRole::DbElected),
        (SequencerRole::DaOnlyReplica, ConfiguredNodeRole::Leader),
    ] {
        let mut task = start(role, configured, true);
        for reply in [Ok(()), Err("no database")] {
            assert_eq!(step(&mut task, HeartBeatInput::Tick), HeartBeatAction::Register);
            assert_eq!(step(&mut task, HeartBeatInput::Registered(reply)), WAIT);
        }
        assert_eq!(step(&mut task, HeartBeatInput::Shutdown), HeartBeatAction::Stop);
        assert!(!task.accepts::<u8>(&HeartBeatInput::Tick));
    }
}

#[test]
fn replica_becomes_leader_and_steps_back() {
    let mut task = start(SequencerRole::PgSyncReplica, ConfiguredNodeRole::DbElected, true);
    assert_eq!(step(&mut task, HeartBeatInput::Tick), HeartBeatAction::Compete);
    assert_eq!(step(&mut task, names("node-2")), WAIT);
    assert_eq!(step(&mut task, HeartBeatInput::Tick), HeartBeatAction::Compete);
    assert_eq!(step(&mut task, HeartBeatInput::Heartbeat(Ok(None))), WAIT);
    assert_eq!(step(&mut task, HeartBeatInput::Tick), HeartBeatAction::Compete);
    assert_eq!(step(&mut task, HeartBeatInput::Heartbeat(Err("down"))), WAIT);
    assert_eq!(step(&mut task, HeartBeatInput::Tick), HeartBeatAction::Compete);
    assert_eq!(step(&mut task, names("node-1")), HeartBeatAction::RequestPromotion);
    assert_eq!(step(&mut task, HeartBeatInput::Transitioned(Ok(()))), FRESH);
    assert_eq!(step(&mut task, HeartBeatInput::Tick), HeartBeatAction::Compete);
    assert_eq!(step(&mut task, names("node-1")), WAIT);
    assert_eq!(step(&mut task, HeartBeatInput::Tick), HeartBeatAction::Compete);
    assert_eq!(step(&mut task, names("node-2")), HeartBeatAction::RequestDemotion);
    assert_eq!(step(&mut task, HeartBeatInput::Transitioned(Ok(()))), FRESH);
    assert_eq!(step(&mut task, HeartBeatInput::Tick), HeartBeatAction::Compete);
    assert_eq!(step(&mut task, names("node-2")), WAIT);
    assert_eq!(step(&mut task, HeartBeatInput::Shutdown), HeartBeatAction::Stop);
}

#[test]
fn rejected_promotion_is_tried_again() {
    let mut task = start(SequencerRole::PgSyncReplica, ConfiguredNodeRole::DbElected, true);
    for _ in 0..3 {
        assert_eq!(step(&mut task, HeartBeatInput::Tick), HeartBeatAction::Compete);
        assert_eq!(step(&mut task, names("node-1")), HeartBeatAction::RequestPromotion);
        // It backs off until the next tick.
        assert_eq!(
            step(&mut task, HeartBeatInput::Transitioned(Err("busy"))),
            HeartBeatAction::BackOff
        );
        assert!(!task.accepts::<u8>(&HeartBeatInput::Heartbeat(Ok(None))));
    }
}

#[test]
fn failed_demotion_exits() {
    let mut task = start(SequencerRole::BatchProducer, ConfiguredNodeRole::Leader, true);
    assert_eq!(step(&mut task, HeartBeatInput::Tick), HeartBeatAction::Compete);
    assert_eq!(
        step(&mut task, HeartBeatInput::Heartbeat(Err("down"))),
        HeartBeatAction::RequestDemotion
    );
    assert_eq!(
        step(&mut task, HeartBeatInput::Transitioned(Err("stuck"))),
        HeartBeatAction::ExitRollup
    );
    assert!(!task.accepts::<u8>(&HeartBeatInput::Tick));
}

#[test]
fn without_transitioner_the_process_ends() {
    let mut leader = start(SequencerRole::BatchProducer, ConfiguredNodeRole::DbElected, false);
    assert_eq!(step(&mut leader, HeartBeatInput::Tick), HeartBeatAction::Compete);
    assert_eq!(step(&mut leader, names("node-2")), HeartBeatAction::ExitRollup);

    let mut replica = start(SequencerRole::PgSyncReplica, ConfiguredNodeRole::DbElected, false);
    assert_eq!(step(&mut replica, HeartBeatInput::Tick), HeartBeatAction::Compete);
    assert_eq!(step(&mut replica, names("node-1")), HeartBeatAction::SignalShutdown);
}
