//! Event bridge between an editor's cooperative loop and a background
//! worker that reports cursor movements to a typing-sound server.
//!
//! The crate holds the records that cross the bridge ([`event`]), the
//! configuration and address rules ([`config`], [`address`]), the worker's
//! connection state machine ([`driver`]), and what is proved of whole
//! sessions ([`trace`]) and of the wake-up protocol ([`bridge`]).
//!
//! Everything here is pure. The embedding program owns the channels, the
//! wake-up handle, the worker thread and the network client; it tells the
//! driver what happened and carries out what the driver calls for.

pub mod address;
pub mod bridge;
pub mod config;
pub mod driver;
pub mod event;
pub mod trace;
