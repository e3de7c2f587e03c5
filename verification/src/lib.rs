//! The controller of a desktop application shell.
//!
//! A shell hosts web content in native windows and keeps a tray icon alive
//! behind them. This crate holds the part of such a shell that decides: the
//! window registry, the configuration store, the static menu and tray
//! definitions, the router that turns tray, menu and window events into
//! lifecycle transitions, and the dispatcher behind the fixed command surface
//! that hosted content may invoke. Everything that touches the operating
//! system is described as an [`effect::Effect`] for the embedding program to
//! perform; its outcome is handed back to the controller as a plain value.

pub mod address;
pub mod clock;
pub mod command;
pub mod config;
pub mod effect;
pub mod envelope;
pub mod laws;
pub mod menu;
pub mod model;
pub mod shell;
pub mod text;
pub mod window;
