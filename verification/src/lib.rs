//! The core of a Ligate rollup node: the Bech32m identifiers of the chain, the modes in
//! which the state machine runs, and the decisions of the preferred sequencer about side
//! effects and leadership. What touches the network, the database or the clock is left to
//! the program around it, which is told by the state machines here what to do next.

pub mod bech32m_encoded;
mod borsh_codec;
pub mod common;
pub mod sequencer;
pub mod state_machine;
pub mod text_codec;
