//! The settings of a proxy process: fixed once at startup, read-only
//! afterwards, and handed to every handler when it is made.

use crate::handler::{Handler, Phase};
use vstd::prelude::*;

verus! {

/// What a proxy process is started with.
#[derive(Clone, Debug, PartialEq, Eq)]
pub struct Settings {
    /// The `host:port` on which the proxy listens.
    pub bind_addr: String,
    /// The address of the activation authority.
    pub activation_server: String,
}

/// Why a proxy process cannot start.
#[derive(Clone, Copy, Debug, PartialEq, Eq, Structural)]
pub enum SettingsError {
    /// No activation authority was named.
    MissingActivationServer,
}

/// Where the proxy listens unless it is told otherwise.
pub open spec fn default_bind_addr() -> Seq<char> {
    "0.0.0.0:8000"@
}

impl Settings {
    /// Settles the settings from what the process was given. The address
    /// to listen on is optional and has a default; without an activation
    /// authority the process cannot start.
    pub fn from_values(bind_addr: Option<String>, activation_server: Option<String>) -> (settings:
        Result<Settings, SettingsError>)
        ensures
            activation_server is None ==> settings == Err::<Settings, SettingsError>(
                SettingsError::MissingActivationServer,
            ),
            activation_server matches Some(server) ==> ({
                &&& settings matches Ok(s)
                &&& s.activation_server@ == server@
                &&& s.bind_addr@ == match bind_addr {
                    Some(addr) => addr@,
                    None => default_bind_addr(),
                }
            }),
    {
        match activation_server {
            None => Err(SettingsError::MissingActivationServer),
            Some(activation_server) => {
                let bind_addr = match bind_addr {
                    Some(addr) => addr,
                    None => "0.0.0.0:8000".to_owned(),
                };
                Ok(Settings { bind_addr, activation_server })
            },
        }
    }

    /// A fresh handler for one inbound request, which will query the
    /// activation authority of these settings.
    pub fn handler(&self) -> (handler: Handler)
        ensures
            handler.server() == self.activation_server@,
            handler.current() == Phase::Start,
    {
        Handler::new(self.activation_server.clone())
    }
}

} // verus!
