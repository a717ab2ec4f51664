//! Decision logic of an activation-gated reverse proxy.
//!
//! For every inbound request the proxy first asks an activation authority for
//! the live address of the backend that serves the request's host, and then
//! forwards the request there. This crate holds the part of that pipeline
//! that decides: which outbound call comes next, and which response the
//! client gets for every way in which a call can end. It performs no I/O.
//! A driver feeds a [`Handler`] with [`Event`]s and carries out the
//! [`Action`]s it answers with.

pub mod activation;
pub mod failure;
pub mod forward;
pub mod handler;
pub mod host;
pub mod isolation;
pub mod settings;
pub mod text;
pub mod trace;

pub use activation::{activation_query, check_status, decode_upstream, ActivationQuery};
pub use failure::{Degradation, Failure, Reply, Synthesized};
pub use forward::{conclude, ForwardOutcome};
pub use handler::{Action, Event, Handler, Phase};
pub use host::extract_host;
pub use settings::{Settings, SettingsError};
