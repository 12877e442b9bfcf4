pub mod commit;
pub mod common;
pub mod create;
pub mod fetch;
pub mod topic_set;
