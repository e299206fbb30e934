use crate::arith::{sat_add64, sat_sub64};
use crate::errors::SettleError;
use crate::fee::{compute_fee, fee_of};
use crate::keys::Pubkey;
use crate::ledger::{reassign_authority, transfer, transfer_accepted, TokenAccount};
use crate::messages::{build_auction_settled, build_fill, AuctionSettled, Fill};
use crate::state::{Auction, AuctionStatus, PreparedOrderResponse};
use vstd::prelude::*;

verus! {

/// Everything one settlement produces: the amount left for the user, the
/// cross-chain delivery instruction, and the audit event.
#[derive(Clone, Debug, PartialEq, Eq)]
pub struct SettledNone {
    /// What remains in escrow for the user after the fee left it.
    pub user_amount: u64,
    pub fill: Fill,
    pub auction_settled_event: AuctionSettled,
}

/// The protocol fee one settlement of `order` pays out.
pub open spec fn settlement_fee(order: PreparedOrderResponse) -> u64 {
    fee_of(order.base_fee, order.init_auction_fee)
}

/// Whether the ledger accepts the fee transfer of a settlement: the escrow
/// is controlled by the order's authority, covers the fee, and the fee
/// recipient's balance cannot overflow.
pub open spec fn settle_permitted(
    order: PreparedOrderResponse,
    custody: TokenAccount,
    fee_recipient: TokenAccount,
) -> bool {
    transfer_accepted(custody, fee_recipient, settlement_fee(order), order.authority)
}

/// What remains for the user: the escrowed balance less the fee, floored at
/// zero.
pub fn compute_user_amount(custody_balance: u64, fee: u64) -> (r: u64)
    ensures
        r == sat_sub64(custody_balance, fee),
{
    custody_balance.saturating_sub(fee)
}

/// Law: fee accounting is exact. Whenever the escrowed balance covers the
/// fee, the user amount and the fee add back up to that balance; when it
/// does not, the user amount floors at zero.
pub proof fn lemma_user_amount_accounting(custody_balance: u64, fee: u64)
    ensures
        fee <= custody_balance ==> sat_sub64(custody_balance, fee) + fee == custody_balance,
        fee > custody_balance ==> sat_sub64(custody_balance, fee) == 0,
{
}

/// Settlement engine for the no-competitive-auction path.
///
/// In one atomic step it pays `fee = base_fee + init_auction_fee`
/// (saturating) out of the escrow to the fee recipient, hands control of the
/// escrow to `custodian`, transitions the auction to its terminal `Settled`
/// state, and builds the `Fill` instruction and `AuctionSettled` event. The
/// order's redeemer message is moved into the fill, leaving an empty buffer
/// behind, so the order cannot be settled into a second fill.
///
/// Every rejection comes before any mutation, so a failed settlement leaves
/// the order, both accounts, and the auction exactly as they were:
/// `AlreadySettled` when the auction is not in its pre-settlement state,
/// `InternalInvariantViolation` when the redeemer message cannot be framed
/// with a 32-bit length (order preparation bounds it upstream, so this marks
/// a bug elsewhere), and `TransferFailure` when the ledger rejects the fee
/// transfer. The authority handoff can never fail after the fee transfer
/// succeeded, since both are authorized by the same order authority.
pub fn settle_none(
    order: &mut PreparedOrderResponse,
    custody: &mut TokenAccount,
    fee_recipient: &mut TokenAccount,
    auction: &mut Auction,
    custodian: Pubkey,
) -> (r: Result<SettledNone, SettleError>)
    ensures
        r is Ok <==> (old(auction).status.spec_pre_settlement()
            && old(order).redeemer_message@.len() <= u32::MAX
            && settle_permitted(*old(order), *old(custody), *old(fee_recipient))),
        (r matches Err(e) && e == SettleError::AlreadySettled)
            <==> !old(auction).status.spec_pre_settlement(),
        (r matches Err(e) && e == SettleError::InternalInvariantViolation)
            <==> (old(auction).status.spec_pre_settlement()
                && old(order).redeemer_message@.len() > u32::MAX),
        (r matches Err(e) && e == SettleError::TransferFailure)
            <==> (old(auction).status.spec_pre_settlement()
                && old(order).redeemer_message@.len() <= u32::MAX
                && !settle_permitted(*old(order), *old(custody), *old(fee_recipient))),
        r is Err ==> *final(order) == *old(order)
            && *final(custody) == *old(custody)
            && *final(fee_recipient) == *old(fee_recipient)
            && *final(auction) == *old(auction),
        r matches Ok(s) ==> ({
            let fee = settlement_fee(*old(order));
            &&& final(custody).balance == old(custody).balance - fee
            &&& final(custody).authority == custodian
            &&& final(custody).key == old(custody).key
            &&& final(fee_recipient).balance == old(fee_recipient).balance + fee
            &&& final(fee_recipient).key == old(fee_recipient).key
            &&& final(fee_recipient).authority == old(fee_recipient).authority
            &&& final(auction).status == (AuctionStatus::Settled { fee, total_penalty: None })
            &&& final(auction).vaa_hash == old(auction).vaa_hash
            &&& final(auction).target_protocol == old(auction).target_protocol
            &&& final(order).redeemer_message@ == Seq::<u8>::empty()
            &&& final(order).authority == old(order).authority
            &&& final(order).base_fee == old(order).base_fee
            &&& final(order).init_auction_fee == old(order).init_auction_fee
            &&& final(order).source_chain == old(order).source_chain
            &&& final(order).sender == old(order).sender
            &&& final(order).redeemer == old(order).redeemer
            &&& s.user_amount == sat_sub64(old(custody).balance, fee)
            &&& s.user_amount + fee == old(custody).balance
            &&& s.fill.source_chain == old(order).source_chain
            &&& s.fill.order_sender == old(order).sender
            &&& s.fill.redeemer == old(order).redeemer
            &&& s.fill.redeemer_message.bytes@ == old(order).redeemer_message@
            &&& s.fill.redeemer_message.well_formed()
            &&& s.auction_settled_event.fast_vaa_hash == old(auction).vaa_hash
            &&& s.auction_settled_event.best_offer_token is None
            &&& s.auction_settled_event.base_fee_token matches Some(info)
                && info.key == old(fee_recipient).key
                && info.balance_after == sat_add64(old(fee_recipient).balance, fee)
            &&& s.auction_settled_event.with_execute == old(auction).target_protocol
        }),
{
    if !auction.status.is_pre_settlement() {
        return Err(SettleError::AlreadySettled);
    }
    if order.redeemer_message.len() as u64 > u32::MAX as u64 {
        return Err(SettleError::InternalInvariantViolation);
    }

    let fee: u64 = compute_fee(order.base_fee, order.init_auction_fee);
    let custody_balance_before: u64 = custody.balance;
    let fee_recipient_balance_before: u64 = fee_recipient.balance;

    match transfer(custody, fee_recipient, fee, &order.authority) {
        Ok(()) => {}
        Err(_) => {
            return Err(SettleError::TransferFailure);
        }
    }

    match reassign_authority(custody, custodian, &order.authority) {
        Ok(()) => {}
        Err(_) => {
            return Err(SettleError::AuthorityReassignmentFailure);
        }
    }

    match auction.settle(fee) {
        Ok(()) => {}
        Err(e) => {
            return Err(e);
        }
    }

    let user_amount: u64 = compute_user_amount(custody_balance_before, fee);

    let auction_settled_event = build_auction_settled(
        auction.vaa_hash,
        fee_recipient.key,
        fee_recipient_balance_before,
        fee,
        auction.target_protocol,
    );

    let mut redeemer_message_bytes: Vec<u8> = Vec::new();
    core::mem::swap(&mut order.redeemer_message, &mut redeemer_message_bytes);

    let fill = match build_fill(
        order.source_chain,
        order.sender,
        order.redeemer,
        redeemer_message_bytes,
    ) {
        Some(f) => f,
        None => {
            return Err(SettleError::InternalInvariantViolation);
        }
    };

    Ok(SettledNone { user_amount, fill, auction_settled_event })
}

} // verus!
