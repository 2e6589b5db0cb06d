//! Admission control for relayed calls: each account may have a bounded
//! number of calls forwarded per fixed-length session of a monotonic counter.
//! Calls within quota are forwarded with their fee waived; calls beyond it are
//! rejected at a reduced fixed fee.

pub mod ledger;
pub mod policy;
pub mod relay;
pub mod session;
