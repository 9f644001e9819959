//! Types and traits that distinguish "native" (full node) from "zk" execution.
//!
//! A sealed marker trait, unit structs and an enum together stand in for an enum as a
//! const generic.

use vstd::prelude::*;

use crate::state_machine::sealed::Sealed;

verus! {

/// Execution modes for the rollup.
#[derive(Debug, Clone, Copy, PartialEq, Eq, Hash, Structural)]
pub enum RuntimeExecutionMode {
    /// Execution inside of a zkVM.
    Zk,
    /// Execution on a full node.
    Native,
    /// Execution on a full node with the ability to generate proofs. This adds some overhead
    /// on top of the [`RuntimeExecutionMode::Native`] mode.
    WitnessGeneration,
}

/// Marker trait for execution modes.
pub trait ExecutionMode: Sealed + Send + Sync + 'static + Default {
    /// An enum variant equivalent to the implementing type.
    const EXECUTION_MODE: RuntimeExecutionMode;
}

/// A unit struct marking that execution occurs inside of a zkVM.
#[derive(Debug, Clone, Copy, PartialEq, Eq, Default)]
pub struct Zk;

impl ExecutionMode for Zk {
    const EXECUTION_MODE: RuntimeExecutionMode = RuntimeExecutionMode::Zk;
}

/// A unit struct marking that execution occurs on a full node.
#[derive(Debug, Clone, Copy, PartialEq, Eq, Default)]
pub struct Native;

impl ExecutionMode for Native {
    const EXECUTION_MODE: RuntimeExecutionMode = RuntimeExecutionMode::Native;
}

/// A unit struct marking that execution generates a witness, adding additional overhead on
/// top of [`Native`] execution.
#[derive(Debug, Clone, Copy, PartialEq, Eq, Default)]
pub struct WitnessGeneration;

impl ExecutionMode for WitnessGeneration {
    const EXECUTION_MODE: RuntimeExecutionMode = RuntimeExecutionMode::WitnessGeneration;
}

/// Each marker type stands for the mode of its own name, so no two stand for the same one.
pub proof fn markers_stand_for_their_modes()
    ensures
        <Zk as ExecutionMode>::EXECUTION_MODE == RuntimeExecutionMode::Zk,
        <Native as ExecutionMode>::EXECUTION_MODE == RuntimeExecutionMode::Native,
        <WitnessGeneration as ExecutionMode>::EXECUTION_MODE
            == RuntimeExecutionMode::WitnessGeneration,
{
}

} // verus!
