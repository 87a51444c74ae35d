pub mod candidate;
pub mod control;
pub mod error;
pub mod execution;
pub mod lookup;
pub mod reissue;
pub mod semantic_bundle;
pub mod start;
pub mod support;
pub mod task_change;
