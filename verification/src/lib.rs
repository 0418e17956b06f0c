pub mod cleanup;
pub mod cli;
pub mod display;
pub mod error;
pub mod ids;
pub mod lock;
pub mod manager;
pub mod paths;
pub mod platform;
pub mod runner;
pub mod state;
pub mod text;
