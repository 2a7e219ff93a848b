//! Why a donation did not go through.

use vstd::prelude::*;

verus! {

/// The ways a split donation fails. None is retried or hidden: each is
/// handed to the caller as it arises.
#[derive(Clone, Copy, Debug, PartialEq, Eq, Structural)]
pub enum TransferError {
    /// The caller is not the authenticated owner of the funds to be debited.
    Unauthorized,
    /// The payer's spendable balance is below the sum of both shares.
    InsufficientFunds,
    /// The host declined one of the two transfers.
    TransferRejected,
}

} // verus!
