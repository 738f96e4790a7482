//! Backend connectivity watching.
//!
//! A timer task probes the backend link on a fixed interval and feeds each
//! observation to the monitor, which detects edges. Only the transition from
//! disconnected to connected matters: it signals the device task to force a
//! full state re-announcement, recovering from updates the backend may have
//! missed while away.

use vstd::prelude::*;

verus! {

/// Seconds between backend connectivity probes.
pub const BACKEND_PROBE_INTERVAL_SECS: u64 = 5;

/// Milliseconds a single connectivity probe may take before it counts as
/// disconnected.
pub const BACKEND_PROBE_TIMEOUT_MILLIS: u64 = 100;

/// Edge detector over backend connectivity observations.
#[derive(Clone, Copy, Debug, PartialEq, Eq, Structural)]
pub struct ConnectionMonitor {
    /// The previous observation. Starts `true`: the bridge connects to the
    /// backend before it starts watching, so the first probe is compared
    /// against an assumed-up link and cannot fire a spurious signal.
    pub was_connected: bool,
}

impl ConnectionMonitor {
    /// A monitor that assumes the link is up.
    pub fn new() -> (m: ConnectionMonitor)
        ensures
            m == (ConnectionMonitor { was_connected: true }),
    {
        ConnectionMonitor { was_connected: true }
    }

    /// Feeds one observation. Returns true exactly on a recovery edge: the
    /// previous observation was down and this one is up. The device task
    /// answers such a signal with a full state re-announcement.
    pub fn observe(&mut self, is_connected: bool) -> (signal: bool)
        ensures
            signal == (!old(self).was_connected && is_connected),
            final(self).was_connected == is_connected,
    {
        let signal = !self.was_connected && is_connected;
        self.was_connected = is_connected;
        signal
    }
}

} // verus!
