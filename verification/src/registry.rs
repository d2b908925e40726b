//! The components that own the records: each keeps its records under their
//! derived addresses and applies the operations to them.

pub mod dapps;
pub mod epochs;
pub mod groups;
