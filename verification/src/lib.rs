//! The process execution and lifecycle core of a desktop launcher:
//! command normalization across Windows, POSIX and WSL environments,
//! working-directory resolution with WSL path translation, the
//! supervisor's registry and its launch and termination decisions, the
//! readiness poller, and the browser-launch dispatch.
//!
//! Everything here computes and decides; the spawning, signalling,
//! waiting and probing themselves are performed by the surrounding
//! runtime, which hands the observed outcomes back to these functions.

pub mod browser;
pub mod compose;
pub mod config_ops;
pub mod models;
pub mod outside;
pub mod paths;
pub mod poller;
pub mod registry;
pub mod supervisor;
pub mod terminal;
pub mod text;

use vstd::prelude::*;

verus! {

/// The host operating system family, decided once at startup by the caller
/// and passed into every platform-dependent computation.
#[derive(Clone, Copy, PartialEq, Eq, Structural, Debug)]
pub enum HostOs {
    Windows,
    MacOs,
    Linux,
}

impl HostOs {
    pub open spec fn is_windows_spec(self) -> bool {
        self is Windows
    }

    /// Whether this host uses Windows path and shell conventions.
    #[verifier::when_used_as_spec(is_windows_spec)]
    pub fn is_windows(self) -> (r: bool)
        ensures
            r == self.is_windows_spec(),
    {
        match self {
            HostOs::Windows => true,
            _ => false,
        }
    }
}

} // verus!
