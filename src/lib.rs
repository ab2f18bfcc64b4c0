//! Line search over text, the bookkeeping of a fixed-size worker pool, and the
//! shared job queue that its workers drain.

pub mod search;
pub mod config;
pub mod queue;
pub mod worker;
pub mod pool;
