//! The core of a Byzantine fault tolerant consensus engine in the PBFT family: the
//! replica state machine that goes through PRE-PREPARE, PREPARE and COMMIT, with round
//! changes when a proposer fails, validator sets with proposer election, and the locking
//! discipline that keeps replicas from committing different blocks at one height.

pub mod types;
pub mod validator;
pub mod round_state;
pub mod timer;
pub mod engine;
pub mod preprepare;
pub mod votes;
pub mod round_change;
pub mod gossip;
pub mod laws;
