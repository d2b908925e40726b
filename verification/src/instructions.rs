//! The operations on single records, each from the signers and addresses of
//! a request and its arguments to the record it makes or changes.

pub mod dapp;
pub mod epoch;
pub mod group;
