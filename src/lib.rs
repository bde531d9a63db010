pub mod bindings;
pub mod channel;
pub mod command;
pub mod config;
pub mod example_plugin;
pub mod runner;
pub mod server;
pub mod task;
pub mod version;
