pub mod app;
pub mod components;
pub mod config;
pub mod database;
pub mod key;
