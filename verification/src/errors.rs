use vstd::prelude::*;

verus! {

/// Why a settlement attempt was rejected or aborted. Every failure leaves
/// all settlement state exactly as it was.
#[derive(Clone, Copy, Debug, PartialEq, Eq)]
pub enum SettleError {
    /// The custody fee transfer could not complete: the escrow balance was
    /// insufficient, the authorization did not match the escrow's authority,
    /// or the fee recipient's balance would have overflowed.
    TransferFailure,
    /// The handoff of escrow authority to the custodian was rejected.
    AuthorityReassignmentFailure,
    /// The auction was not in a pre-settlement state. Settling twice would
    /// double-move funds, so a repeated attempt is rejected.
    AlreadySettled,
    /// The redeemer message was too long to be framed with a 32-bit length.
    /// Order preparation bounds the message upstream, so this marks a bug
    /// elsewhere in the system and is fatal to the settlement.
    InternalInvariantViolation,
}

} // verus!
