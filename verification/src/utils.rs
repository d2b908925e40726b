//! Helpers shared by the records and the operations: hashing, witness
//! addresses and signatures, and the addresses under which records are stored.

pub mod address;
pub mod ethereum;
pub mod hashing;
