//! The preferred sequencer: what it does with the events of its executor, and how it keeps
//! and hands over leadership.

pub mod event_plan;
pub mod event_plan_laws;
pub mod executor_events;
pub mod heartbeat_task;
pub mod side_effect;
pub mod side_effects_laws;
pub mod side_effects_task;
pub mod test_delay;
