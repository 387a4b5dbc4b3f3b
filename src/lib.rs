//! Host-side client logic for the ChromeOS embedded-controller host-command
//! protocol: frame codec, status classification, chunked bulk transfers,
//! asynchronous commands and event decoding.
//!
//! Every function here is pure: it prepares the bytes of a request, or takes
//! the outcome of an exchange with the device and decides what comes next.
//! Performing the exchange (the control call, waiting, reading) is left to
//! the caller.

pub mod bytes;
pub mod charge_control;
pub mod chunks;
pub mod cli;
pub mod commands;
pub mod download;
pub mod event;
pub mod fingerprint;
pub mod fp_context;
pub mod fp_info;
pub mod fp_mode;
pub mod frame;
pub mod protocol_info;
pub mod requests;
pub mod responses;
pub mod status;
pub mod upload;
pub mod versions;
pub mod wait;

pub use status::{ContractViolation, DecodeError, EcCmdResult, EcError, EcResponseStatus};
