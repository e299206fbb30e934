use crate::errors::SettleError;
use crate::keys::Pubkey;
use vstd::prelude::*;

verus! {

/// Which delivery mechanism governs downstream execution of a fill.
#[derive(Clone, Copy, Debug, PartialEq, Eq)]
pub enum MessageProtocol {
    /// Direct same-chain delivery through the given program.
    Local { program_id: Pubkey },
    /// Cross-chain delivery through a burn/mint transfer to the given domain.
    Cctp { domain: u32 },
}

/// An order that has cleared validation and has funds escrowed, ready to be
/// consumed exactly once by settlement.
#[derive(Clone, Debug, PartialEq, Eq)]
pub struct PreparedOrderResponse {
    /// Signing authority over the order's escrow account, derived from the
    /// order's identity by the (out-of-scope) preparation stage.
    pub authority: Pubkey,
    /// Flat relayer compensation, in the smallest asset unit.
    pub base_fee: u64,
    /// Compensation that would otherwise have funded auction initiation.
    pub init_auction_fee: u64,
    /// Identifier of the chain the order originates from.
    pub source_chain: u16,
    /// 32-byte origin identity of the order's sender.
    pub sender: [u8; 32],
    /// 32-byte destination identity that may redeem the fill.
    pub redeemer: [u8; 32],
    /// Arbitrary payload for destination-side logic. Settlement takes
    /// ownership of it, leaving an empty buffer behind.
    pub redeemer_message: Vec<u8>,
}

/// Lifecycle status of an auction record.
#[derive(Clone, Copy, Debug, PartialEq, Eq)]
pub enum AuctionStatus {
    /// The auction record exists but bidding has not begun.
    Created,
    /// Bidding is under way.
    Active,
    /// Bidding ended with a winning offer; settlement of this state belongs
    /// to the competitive-auction path, not to this core.
    Completed { best_price: u64 },
    /// No competitive auction ran for this order.
    NoAuction,
    /// Terminal: the order was settled for `fee`. `total_penalty` records a
    /// liquidation penalty, which is absent on the no-auction path.
    Settled { fee: u64, total_penalty: Option<u64> },
}

impl AuctionStatus {
    /// The one state from which the no-auction settlement may run.
    pub open spec fn spec_pre_settlement(self) -> bool {
        self is NoAuction
    }

    pub fn is_pre_settlement(&self) -> (r: bool)
        ensures
            r == self.spec_pre_settlement(),
    {
        match self {
            AuctionStatus::NoAuction => true,
            _ => false,
        }
    }
}

/// The (possibly empty) auction record for an order.
#[derive(Clone, Debug, PartialEq, Eq)]
pub struct Auction {
    /// Hash linking the auction to its order.
    pub vaa_hash: [u8; 32],
    pub status: AuctionStatus,
    /// Delivery mechanism that governs downstream execution.
    pub target_protocol: MessageProtocol,
}

impl Auction {
    /// State machine transition `NoAuction -> Settled`. From every other
    /// state the transition is rejected and the auction is left untouched:
    /// applying it again from `Settled` would double-move funds.
    pub fn settle(&mut self, fee: u64) -> (r: Result<(), SettleError>)
        ensures
            r is Ok <==> old(self).status.spec_pre_settlement(),
            r is Ok ==> final(self).status == (AuctionStatus::Settled { fee, total_penalty: None })
                && final(self).vaa_hash == old(self).vaa_hash
                && final(self).target_protocol == old(self).target_protocol,
            r is Err ==> *final(self) == *old(self)
                && r == Err::<(), SettleError>(SettleError::AlreadySettled),
    {
        if self.status.is_pre_settlement() {
            self.status = AuctionStatus::Settled { fee, total_penalty: None };
            Ok(())
        } else {
            Err(SettleError::AlreadySettled)
        }
    }
}

/// Law: `Settled` is terminal. A settled auction is never in a
/// pre-settlement state, so a second settlement attempt on the same auction
/// is always rejected.
pub proof fn lemma_settled_is_terminal(fee: u64, total_penalty: Option<u64>)
    ensures
        !(AuctionStatus::Settled { fee, total_penalty }).spec_pre_settlement(),
{
}

} // verus!
