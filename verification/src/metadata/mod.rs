pub mod cache;
pub mod cluster;
pub mod session;
pub mod user;
pub mod laws;
