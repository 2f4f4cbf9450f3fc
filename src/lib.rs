pub mod laws;
pub mod session;
pub mod tool;
pub mod version;
pub mod workflow;
