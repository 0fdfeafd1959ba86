//! Latency measurement core of a concurrent load generator: the decisions of
//! each connection worker, the merge of their sample buffers, and the
//! reduction of all samples into latency statistics, a histogram and rates.

pub mod histogram;
pub mod report;
pub mod sample;
pub mod sort;
pub mod stats;
pub mod worker;
