pub mod host;
pub mod job;
