pub mod edge_validation;
pub mod latency;
pub mod ledger;
pub mod validation;
