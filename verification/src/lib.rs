//! Proof orchestration for a small guessing game: the puzzle rules, the byte
//! layouts that a prover consumes and produces, and the request, proving and
//! submission state machines that sit between a caller and the outside
//! proving and verification services.

pub mod commitment;
pub mod coordinator;
pub mod grid;
pub mod handlers;
pub mod hash;
pub mod layout;
pub mod orchestrator;
pub mod puzzle;
pub mod record;
pub mod state;
pub mod store;
pub mod submission;
pub mod text;
pub mod types;
pub mod uint;
pub mod wire;
