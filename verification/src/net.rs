//! What the control core sees of the network layer.
//!
//! The network stack itself — Ethernet, TCP, the settings and telemetry
//! transports — is an outside collaborator.  The core consumes only the
//! outcome of each network poll, and lends the stack its static socket
//! buffer storage.

use vstd::prelude::*;

verus! {

/// Outcome of one network poll: a new settings snapshot arrived, traffic
/// was processed, or nothing changed.
#[derive(Clone, Copy, PartialEq, Eq, Structural)]
pub enum NetworkState {
    SettingsChanged,
    Updated,
    NoChange,
}

/// Combine one network poll round's outcomes into the state the
/// orchestrator acts on.  A new settings snapshot outranks everything;
/// otherwise the round reports whether the stack made I/O progress (a
/// stack error counts as progress, so the caller keeps polling).
pub fn network_state(settings_changed: bool, poll_progressed: bool) -> (r: NetworkState)
    ensures
        settings_changed ==> r is SettingsChanged,
        !settings_changed && poll_progressed ==> r is Updated,
        !settings_changed && !poll_progressed ==> r is NoChange,
{
    if settings_changed {
        NetworkState::SettingsChanged
    } else if poll_progressed {
        NetworkState::Updated
    } else {
        NetworkState::NoChange
    }
}

/// Receive/transmit buffer storage for one TCP socket of the network
/// stack.
#[derive(Clone, Copy)]
pub struct TcpSocketStorage {
    pub rx_storage: [u8; 128],
    pub tx_storage: [u8; 128],
}

impl TcpSocketStorage {
    /// Fresh storage, zero-filled.
    pub fn new() -> (r: Self)
        ensures
            forall|i: int| 0 <= i < 128 ==> r.rx_storage[i] == 0,
            forall|i: int| 0 <= i < 128 ==> r.tx_storage[i] == 0,
    {
        TcpSocketStorage { rx_storage: [0; 128], tx_storage: [0; 128] }
    }
}

} // verus!
