//! The records: groups, epochs, epoch configurations and dapps.

pub mod dapp;
pub mod epoch;
pub mod epoch_config;
pub mod group;
