//! Operations on groups.

pub mod create;
pub mod verify_proof;
