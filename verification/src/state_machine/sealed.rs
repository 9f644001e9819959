use vstd::prelude::*;

use crate::state_machine::execution_mode::{Native, WitnessGeneration, Zk};

verus! {

/// Keeps the execution modes to the ones that are listed here.
pub trait Sealed {

}

impl Sealed for Zk {

}

impl Sealed for Native {

}

impl Sealed for WitnessGeneration {

}

} // verus!
