//! Reconciles declared link entries against what is observed on the filesystem.

pub mod agent;
pub mod parser;
pub mod paths;
