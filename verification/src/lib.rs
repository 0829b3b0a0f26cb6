pub mod handler;
pub mod json;
pub mod json_laws;
pub mod laws;
pub mod pending;
pub mod protocol;
pub mod task;
pub mod topic;
