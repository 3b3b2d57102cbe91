pub mod text;
pub mod sanitize;
pub mod models;
pub mod ui;
pub mod docker_host;
pub mod shell_output;
pub mod power;
pub mod daemon;
pub mod engine;
pub mod engine_wsl_cli;
pub mod engine_bollard;
pub mod compose;
pub mod config;
pub mod view_logs;
pub mod app;
pub mod layout;
pub mod keymap;
pub mod bootstrap;
