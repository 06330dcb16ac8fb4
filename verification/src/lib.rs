//! Watches a token address for burn events: deduplicates newly seen
//! transaction signatures against a watermark, and scans a transaction's
//! instruction tree (top-level and inner instruction groups) for the first
//! burn instruction.

pub mod clock;
pub mod detector;
pub mod json;
pub mod model;
pub mod rpc;
pub mod strings;
pub mod tracker;
