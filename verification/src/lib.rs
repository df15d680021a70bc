//! Relay of editor yank events to a remote clipboard service: command
//! decoding, connection bookkeeping and the bridge's reply decisions.

pub mod command;
pub mod connection;
pub mod dispatch;
pub mod locator;
pub mod notification;
pub mod service;
pub mod text;
