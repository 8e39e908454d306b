//! Verified core of a keyboard-driven terminal front end for NetworkManager.
pub mod action;
pub mod app;
pub mod config;
pub mod events;
pub mod logger;
pub mod network;
pub mod text;
pub mod timer;
pub mod tui;
pub mod ui;
