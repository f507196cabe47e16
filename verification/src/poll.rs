//! Poll driver decisions: scan and send while a peer is connected, idle
//! at a longer cadence while none is.

use vstd::prelude::*;

verus! {

/// How long the driver sleeps between connection checks while no peer is
/// connected, in milliseconds.
pub const IDLE_DELAY_MS: u32 = 200;

/// What the control loop does this tick.
#[derive(Clone, Copy, PartialEq, Eq, Structural, Debug)]
pub enum PollAction {
    /// Perform a full hardware scan, assemble the report and notify the
    /// peer.
    Scan,
    /// Touch no hardware; sleep `delay_ms` milliseconds, then re-check
    /// the connection state.
    Idle { delay_ms: u32 },
}

/// The action a tick takes, given the connected-peer count at its start.
pub open spec fn spec_poll_action(connected_peers: u32) -> PollAction {
    if connected_peers > 0 {
        PollAction::Scan
    } else {
        PollAction::Idle { delay_ms: IDLE_DELAY_MS }
    }
}

/// Decide this tick's action from the connected-peer count.
pub fn poll_action(connected_peers: u32) -> (action: PollAction)
    ensures
        action == spec_poll_action(connected_peers),
{
    if connected_peers > 0 {
        PollAction::Scan
    } else {
        PollAction::Idle { delay_ms: IDLE_DELAY_MS }
    }
}

/// A tick scans exactly when at least one peer is connected. The
/// decision depends on the count at the start of the tick alone, so the
/// first tick after the count rises from zero performs a full scan, and
/// no tick scans between the count dropping to zero and a peer
/// reconnecting.
pub proof fn lemma_poll_scans_iff_connected()
    ensures
        forall|connected_peers: u32|
            #[trigger] spec_poll_action(connected_peers) is Scan <==> connected_peers >= 1,
{
}

} // verus!
