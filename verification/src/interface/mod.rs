pub mod contract;
pub mod invariants;
pub mod laws;
