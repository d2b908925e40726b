//! Operations on dapps.

pub mod create;
