//! Remote control of pending decisions: bot selection, commands and decision queues.
pub mod api;
pub mod bots;
pub mod commands;
pub mod control_files;
pub mod decision;
pub mod input;
pub mod laws;
pub mod notifier;
pub mod paths;
pub mod polling;
pub mod sending;
pub mod snapshot;
pub mod text;
pub mod token;
