pub mod config;
pub mod control;
pub mod errors;
pub mod state;
