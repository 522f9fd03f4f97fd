//! The deposit states of a peer.

use vstd::prelude::*;

verus! {

/// How far a peer has come in a deposit's exchange.
#[derive(Debug, Clone, Copy, PartialEq, Eq)]
pub enum PeerDepositState {
    /// State before sent setup for depostit.
    PreSetup,
    /// Peer sent setup for deposit.
    Setup,
    /// Peer sent nonces for deposit.
    Nonces,
    /// Peer sent signatures for deposit.
    Sigs,
}

/// The state a peer has reached, from what is stored for it: signatures
/// count over nonces, nonces over a setup.
pub open spec fn spec_deposit_state(
    has_partial_signatures: bool,
    has_pub_nonces: bool,
    has_deposit_setup: bool,
) -> PeerDepositState {
    if has_partial_signatures {
        PeerDepositState::Sigs
    } else if has_pub_nonces {
        PeerDepositState::Nonces
    } else if has_deposit_setup {
        PeerDepositState::Setup
    } else {
        PeerDepositState::PreSetup
    }
}

/// The state a peer has reached in a deposit, given whether partial
/// signatures, public nonces and a deposit setup are stored for it.
pub fn peer_deposit_status(
    has_partial_signatures: bool,
    has_pub_nonces: bool,
    has_deposit_setup: bool,
) -> (s: PeerDepositState)
    ensures
        s == spec_deposit_state(has_partial_signatures, has_pub_nonces, has_deposit_setup),
{
    if has_partial_signatures {
        PeerDepositState::Sigs
    } else if has_pub_nonces {
        PeerDepositState::Nonces
    } else if has_deposit_setup {
        PeerDepositState::Setup
    } else {
        PeerDepositState::PreSetup
    }
}

} // verus!
