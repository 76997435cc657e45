pub mod cli;
pub mod config;
pub mod executor;
pub mod package_manager;
pub mod report;
pub mod tracker;
