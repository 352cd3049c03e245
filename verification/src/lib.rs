//! Verified core of a terminal dashboard for n8n workflow automation.
pub mod action;
pub mod app;
pub mod canvas;
pub mod cli;
pub mod cli_worker;
pub mod client;
pub mod clock;
pub mod config;
pub mod domain;
pub mod figures;
pub mod properties;
pub mod scroll_state;
pub mod sort;
pub mod text;
