//! The reconciliation of entries: what is observed, what is planned, and how a
//! run proceeds from one request to the next.

pub mod agent;
pub mod model;
pub mod operation;
pub mod plan;
pub mod report;
pub mod runner;
pub mod trace;
