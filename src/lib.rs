pub mod capture;
pub mod config;
pub mod errors;
pub mod keep_alive;
pub mod merge;
pub mod naming;
pub mod session;
