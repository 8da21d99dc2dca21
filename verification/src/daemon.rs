//! Events that hotkeys send to the daemon.

use vstd::prelude::*;

use crate::transform::Transform;

verus! {

/// What a hotkey asks the daemon to do.
#[derive(Clone, Copy, Debug, PartialEq, Eq, Structural)]
pub enum DaemonEvent {
    /// Transform the selected text.
    Transform(Transform),
    /// Open the settings screen.
    OpenSettings,
}

/// The background service that listens for hotkeys; its event loop is run by
/// the application around this library.
pub struct Daemon;

} // verus!
