pub mod command;
pub mod config;
pub mod payload;
pub mod session;
