//! Client-side bridge to the Jami daemon: typed events decoded from bus
//! signals, the listening state machine, and the requests that the daemon
//! serves.
//!
//! The library performs no I/O. Signal payloads and replies reach it as
//! [`Value`]s, requests leave it through a function that the caller
//! supplies, and the listening loop is a state machine that the caller
//! drives.

pub mod account;
pub mod bus;
pub mod dict;
pub mod dispatch;
pub mod event;
pub mod jami;
pub mod text;
pub mod transfer;
pub mod wire;

pub use account::{Account, ImportType};
pub use bus::{BusError, Call, Reply};
pub use dict::Dict;
pub use dispatch::{Action, Dispatch, Failure, Fatal, Input, Policy, Reaction};
pub use event::{DecodeError, Event, Signal};
pub use jami::Jami;
pub use transfer::DataTransferInfo;
pub use wire::{Kind, Value};
