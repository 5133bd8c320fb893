//! Single-pass, multi-output transcoding pipeline: one decode loop fans its
//! frames out to one encode worker per task, and notification hooks fire once
//! every worker has finished.

pub mod context;
pub mod error;
pub mod frame;
pub mod hook;
pub mod input;
pub mod worker;
