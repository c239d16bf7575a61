//! A Byzantine-fault-tolerant state machine replication engine.
//!
//! A fixed set of `n >= 3f + 1` replicas accepts client requests, totally
//! orders them through a three-phase consensus protocol, executes them
//! against a user supplied deterministic service, and returns matching
//! replies. A collaborative state transfer sub-protocol lets a lagging or
//! recovering replica catch up by fetching a checkpoint and the decided
//! tail of the log.

pub mod collections;
pub mod communication;
pub mod consensus;
pub mod crypto;
pub mod cst;
pub mod executable;
pub mod log;
pub mod message;
pub mod view;
pub mod error;
pub mod ordering;
