//! Verified core of a scanner for the legacy web certificate-enrollment
//! endpoint: classification of one host's probe, and the bookkeeping of a
//! whole scan. All network and console work is left to the caller, which
//! reports what it observed and is told what to do next.

pub mod classify;
pub mod config;
pub mod coordinator;
pub mod outcome;
pub mod probe;
pub mod report;
pub mod run;
pub mod text;
