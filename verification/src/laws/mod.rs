//! What holds of a coordinator whatever is done with it.
pub mod calls;
pub mod dispatch;
pub mod heartbeats;
pub mod invariants;
pub mod numerals;
pub mod options;
pub mod tasks;
pub mod totals;
pub mod zones;
