//! Core logic of a two-pane, vi-style terminal file manager.

pub mod edit;
pub mod error;
pub mod event;
pub mod fs;
pub mod mode;
pub mod order;
pub mod paths;
pub mod text;
pub mod ui;
pub mod utils;
pub mod width;
pub mod app;
pub mod command;
pub mod config;
