//! Operations on epoch configurations and epochs.

pub mod add_epoch;
pub mod change_epoch_index;
pub mod initialize;
