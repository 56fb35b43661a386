//! Decoding and interpretation of Turn Touch remote button reports.
//!
//! `protocol` decodes the raw bytes of the button-status characteristic,
//! `event` turns a stream of decoded reports into gestures (press, double
//! tap, hold, multi-button press), `config` maps gestures to the shell
//! commands and environment that the user configured, and `session` decides
//! what the listening loop does with each thing that happens to a connection.
pub mod protocol;
pub mod event;
pub mod config;
pub mod session;
