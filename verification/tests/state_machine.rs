use ligate_node::common::SlotNumber;
use ligate_node::state_machine::execution_mode::{
    ExecutionMode, Native, RuntimeExecutionMode, WitnessGeneration, Zk,
};
use ligate_node::state_machine::{
    BatchHash, BlobHash, BlockHash, ChainHash, MaybeArbitrary, ProvableHeightTracker,
    StateRootHash, TxHash,
};

#[test]
fn markers_stand_for_modes() {
    assert_eq!(Zk::EXECUTION_MODE, RuntimeExecutionMode::Zk);
    assert_eq!(Native::EXECUTION_MODE, RuntimeExecutionMode::Native);
    assert_eq!(
        WitnessGeneration::EXECUTION_MODE,
        RuntimeExecutionMode::WitnessGeneration
    );
}

#[test]
fn aliases_print_their_hrp() {
    assert!(TxHash::new([1; 32]).to_string().starts_with("ltx1"));
    assert!(BlockHash::new([1; 32]).to_string().starts_with("lblk1"));
    assert!(StateRootHash::new([1; 64]).to_string().starts_with("lsr1"));
    assert!(BatchHash::new([1; 32]).to_string().starts_with("lba1"));
    assert!(ChainHash::new([1; 32]).to_string().starts_with("lsch1"));
    assert!(BlobHash::new([1; 32]).to_string().starts_with("lbz1"));
}

struct FixedHeight(u64);

impl ProvableHeightTracker for FixedHeight {
    fn max_provable_slot_number(&self) -> SlotNumber {
        SlotNumber(self.0)
    }
}

fn takes_any<T: MaybeArbitrary>(value: T) -> T {
    value
}

#[test]
fn trackers_report_a_height() {
    let tracker = takes_any(FixedHeight(12));
    assert_eq!(tracker.max_provable_slot_number(), SlotNumber(12));
}
