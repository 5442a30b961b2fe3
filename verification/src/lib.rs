//! Ingest of state snapshots and their ordered dispatch to registered
//! listeners.
//!
//! A sender pushes snapshots of its state over HTTP. Each decoded snapshot
//! is pushed onto one event channel ([`ingest`], [`channel`]); a dispatch
//! loop takes the snapshots off the channel in their order of arrival and
//! hands each to every registered listener, the synchronous ones first
//! ([`dispatch`], [`delivery_order`]). A server collects the listeners
//! before it is started ([`server`]) and is ended through its handle
//! ([`shutdown`]).
//!
//! The library decides; it reads and writes no file, opens no socket and
//! starts no task. Its owner does that, led by the values the library
//! returns.

pub mod channel;
pub mod delivery_order;
pub mod dispatch;
pub mod ingest;
pub mod server;
pub mod shutdown;

pub use dispatch::{Delivery, Dispatcher, Listener, Phase, Round};
pub use ingest::{acknowledge, handle_update, Reply, Status};
pub use server::{
    DefaultFolder, GSIServer, InstallError, InstallStep, Launch, ListenAddr, RunStep,
};
pub use shutdown::ServerHandle;
