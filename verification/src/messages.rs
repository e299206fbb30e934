use crate::arith::sat_add64;
use crate::keys::Pubkey;
use crate::state::MessageProtocol;
use vstd::prelude::*;

verus! {

/// A redeemer payload ready for length-prefixed framing: its length is known
/// to fit in the 32-bit length field of the wire format.
#[derive(Clone, Debug, PartialEq, Eq)]
pub struct RedeemerMessage {
    pub bytes: Vec<u8>,
}

impl RedeemerMessage {
    /// The framing invariant: the payload length fits in 32 bits.
    pub open spec fn well_formed(self) -> bool {
        self.bytes@.len() <= u32::MAX
    }

    /// Frames a raw payload, rejecting one whose length cannot be carried by
    /// a 32-bit length prefix.
    pub fn try_new(bytes: Vec<u8>) -> (r: Option<RedeemerMessage>)
        ensures
            r is Some <==> bytes@.len() <= u32::MAX,
            r matches Some(m) ==> m.bytes@ == bytes@ && m.well_formed(),
    {
        if bytes.len() as u64 <= u32::MAX as u64 {
            Some(RedeemerMessage { bytes })
        } else {
            None
        }
    }

    /// The 32-bit length that prefixes the payload on the wire.
    pub fn framed_len(&self) -> (r: u32)
        requires
            self.well_formed(),
        ensures
            r == self.bytes@.len(),
    {
        self.bytes.len() as u32
    }
}

/// The cross-chain delivery instruction produced by settlement: it tells the
/// destination chain how to deliver funds to the final recipient.
#[derive(Clone, Debug, PartialEq, Eq)]
pub struct Fill {
    /// Chain the order originated from, echoed from the order.
    pub source_chain: u16,
    /// 32-byte origin identity of the order's sender.
    pub order_sender: [u8; 32],
    /// 32-byte destination identity that may redeem the fill.
    pub redeemer: [u8; 32],
    /// The order's payload, now length-framed.
    pub redeemer_message: RedeemerMessage,
}

/// Fill message builder: frames the payload and assembles the delivery
/// instruction. Returns nothing when the payload cannot be framed.
pub fn build_fill(
    source_chain: u16,
    order_sender: [u8; 32],
    redeemer: [u8; 32],
    redeemer_message: Vec<u8>,
) -> (r: Option<Fill>)
    ensures
        r is Some <==> redeemer_message@.len() <= u32::MAX,
        r matches Some(f) ==> f.source_chain == source_chain
            && f.order_sender == order_sender
            && f.redeemer == redeemer
            && f.redeemer_message.bytes@ == redeemer_message@
            && f.redeemer_message.well_formed(),
{
    match RedeemerMessage::try_new(redeemer_message) {
        Some(framed) => Some(Fill { source_chain, order_sender, redeemer, redeemer_message: framed }),
        None => None,
    }
}

/// Identity and resulting balance of a token account named by the settlement
/// event.
#[derive(Clone, Copy, Debug, PartialEq, Eq)]
pub struct SettledTokenAccountInfo {
    pub key: Pubkey,
    pub balance_after: u64,
}

/// Audit record of one settlement.
#[derive(Clone, Copy, Debug, PartialEq, Eq)]
pub struct AuctionSettled {
    /// Hash of the order the auction belonged to.
    pub fast_vaa_hash: [u8; 32],
    /// The winning bidder's token account; absent on the no-auction path,
    /// where no winner exists.
    pub best_offer_token: Option<SettledTokenAccountInfo>,
    /// The fee recipient's token account and its balance after the fee
    /// landed.
    pub base_fee_token: Option<SettledTokenAccountInfo>,
    /// Delivery mechanism that governs downstream execution.
    pub with_execute: MessageProtocol,
}

/// Settlement event builder for the no-auction path: no best offer, and the
/// fee recipient's balance reported after receiving `fee` (saturating).
pub fn build_auction_settled(
    fast_vaa_hash: [u8; 32],
    fee_recipient_key: Pubkey,
    fee_recipient_balance_before: u64,
    fee: u64,
    with_execute: MessageProtocol,
) -> (e: AuctionSettled)
    ensures
        e.fast_vaa_hash == fast_vaa_hash,
        e.best_offer_token is None,
        e.base_fee_token matches Some(info) && info.key == fee_recipient_key
            && info.balance_after == sat_add64(fee_recipient_balance_before, fee),
        e.with_execute == with_execute,
{
    AuctionSettled {
        fast_vaa_hash,
        best_offer_token: None,
        base_fee_token: Some(SettledTokenAccountInfo {
            key: fee_recipient_key,
            balance_after: fee_recipient_balance_before.saturating_add(fee),
        }),
        with_execute,
    }
}

} // verus!
