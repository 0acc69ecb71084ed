//! Byte accounting for streaming HTTP bodies, and the decisions of the
//! middleware built on it: which polls count, how large a header block is,
//! how a response is classified, and what a wrapped completion yields.

pub mod metrics;
pub mod tracker;
