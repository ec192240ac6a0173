//! A minimal token-sale ledger.
//!
//! One configuration record per sale: an initializer records the sale's
//! identifier and per-token cost, a purchase moves lamports from a buyer to
//! the sale treasury and credits a token balance, and a withdrawal lets the
//! designated owner drain the accumulated treasury.
//!
//! Account lookup, signature verification and the physical movement of funds
//! are the host runtime's business. This crate holds the ledger arithmetic
//! and the decisions, stated and proved over plain values: the host hands in
//! the balances it validated and applies the balances handed back.

use vstd::prelude::*;

pub mod error;
pub mod instructions;
pub mod state;

pub use crate::instructions::buy_tokens;
pub use crate::instructions::withdraw;

verus! {

use crate::state::Address;
use crate::state::Crowdsale;
use crate::state::lemma_price_bounds;
use crate::state::price_of;

/// Creates the sale configuration record for a new sale: it carries the
/// supplied identifier and per-token cost, names the supplied owner, and
/// starts with an empty treasury and nothing sold.
pub fn initialize(id: Address, cost: u32, owner: Address) -> (sale: Crowdsale)
    ensures
        sale.id == id,
        sale.owner == owner,
        sale.cost == cost,
        sale.lamports == 0,
        sale.tokens_sold == 0,
{
    Crowdsale { id, owner, cost, lamports: 0, tokens_sold: 0 }
}

/// The lamport price of `amount` tokens at `cost` lamports per token.
pub fn price_lamports(cost: u32, amount: u32) -> (price: u64)
    ensures
        price == price_of(cost, amount),
{
    proof {
        lemma_price_bounds(cost, amount);
    }
    (cost as u64) * (amount as u64)
}

} // verus!
