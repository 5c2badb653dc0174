//! The lifecycle controller: the state the host's enable/disable hooks
//! drive.
//!
//! The host-facing hooks themselves (plugin registration, thread and
//! channel creation, the listener launch) belong to the embedding
//! process; what is decided at each hook — the poller role's state and
//! the plugin's self-description — is kept and proved here.

use vstd::prelude::*;
use crate::poller::PollerState;

verus! {

/// The error a failed plugin start would report. Start-up cannot in
/// fact fail, so no start ever returns it; its display text is the
/// fixed `()`.
#[derive(Clone, Copy, Debug, PartialEq, Eq, Structural)]
pub struct PluginError;

impl PluginError {
    /// The error's display text.
    pub fn message(&self) -> (r: String)
        ensures
            r@ == "()"@,
    {
        "()".to_owned()
    }
}

/// The plugin's self-description, as handed to the host on request.
pub struct PluginInfo {
    pub name: String,
    pub signature: String,
    pub description: String,
}

/// The plugin as the host's lifecycle hooks see it: it tracks whether the
/// poller role is currently meant to be running.
pub struct Plugin {
    pub poller: PollerState,
}

impl Plugin {
    /// The start hook's decision: starting always succeeds, and the
    /// poller role is not yet running — only the enable hook starts it.
    pub fn start() -> (r: Result<Plugin, PluginError>)
        ensures
            r is Ok,
            r matches Ok(p) ==> p.poller == PollerState::Stopped,
    {
        Ok(Plugin { poller: PollerState::Stopped })
    }

    /// The enable hook's decision: a fresh poller is brought up, running.
    pub fn enable(&mut self)
        ensures
            final(self).poller == PollerState::Running,
    {
        self.poller = PollerState::Running;
    }

    /// The disable hook's decision: nothing — no stop signal is sent,
    /// so the poller role is left exactly as it was and runs until
    /// process exit.
    pub fn disable(&mut self)
        ensures
            *final(self) == *old(self),
    {
    }

    /// The stop hook's decision: nothing.
    pub fn stop(&mut self)
        ensures
            *final(self) == *old(self),
    {
    }

    /// The plugin's self-description.
    pub fn info(&self) -> (i: PluginInfo)
        ensures
            i.name@ == "alteous-instruments"@,
            i.signature@ == "alteous"@,
            i.description@ == "A plugin written in Rust"@,
    {
        PluginInfo {
            name: "alteous-instruments".to_owned(),
            signature: "alteous".to_owned(),
            description: "A plugin written in Rust".to_owned(),
        }
    }
}

} // verus!
