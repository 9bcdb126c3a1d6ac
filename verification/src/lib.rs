//! First-time publishing of a local repository to a remote hosting origin.
//!
//! The library holds the verified core of the tool: the origin-address
//! validator, the error taxonomy, and the orchestration state machine that
//! fixes the sequence of version-control commands, hands them out one at a
//! time, and interprets each command's outcome.  Spawning the external tool
//! itself is left to the surrounding binary, which feeds every outcome back
//! into the state machine.

pub mod errors;
pub mod origin;
pub mod session;
