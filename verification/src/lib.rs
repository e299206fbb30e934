//! Settlement core for the no-competitive-auction path of a cross-chain
//! fast-transfer matching engine.
//!
//! After an order has been prepared and escrowed but no price auction ran,
//! settlement computes the protocol fee, moves it out of escrow to the fee
//! recipient, hands control of the remaining escrowed funds to the custodian,
//! transitions the auction record to its terminal `Settled` state exactly
//! once, and builds the two output artifacts a downstream relayer needs: the
//! cross-chain `Fill` instruction and the `AuctionSettled` audit event.
//!
//! Every failure leaves all settlement state exactly as it was, so a
//! settlement either fully succeeds or has no visible effect.

pub mod arith;
pub mod errors;
pub mod fee;
pub mod keys;
pub mod ledger;
pub mod messages;
pub mod settle;
pub mod state;
