use vstd::prelude::*;

verus! {

/// A 32-byte account address, held as four 64-bit words.
///
/// The host runtime issues addresses and checks signatures against them; the
/// ledger only stores them and compares them for equality.
#[derive(Clone, Copy, Debug, PartialEq, Eq, Structural)]
pub struct Address {
    pub w0: u64,
    pub w1: u64,
    pub w2: u64,
    pub w3: u64,
}

/// The sale configuration record: the sale's identifier, its designated
/// owner, the per-token cost in lamports, the lamports accumulated in the
/// sale treasury, and the number of tokens sold so far.
#[derive(Clone, Copy, Debug, PartialEq, Eq, Structural)]
pub struct Crowdsale {
    pub id: Address,
    pub owner: Address,
    pub cost: u32,
    pub lamports: u64,
    pub tokens_sold: u64,
}

/// A participant's account as the ledger sees it: its address, its lamport
/// balance, and the tokens credited to it.
#[derive(Clone, Copy, Debug, PartialEq, Eq, Structural)]
pub struct Wallet {
    pub key: Address,
    pub lamports: u64,
    pub tokens: u64,
}

/// The lamport price of `amount` tokens at `cost` lamports per token.
pub open spec fn price_of(cost: u32, amount: u32) -> int {
    cost * amount
}

/// The price of any purchase is non-negative and fits in a `u64`.
pub proof fn lemma_price_bounds(cost: u32, amount: u32)
    ensures
        0 <= price_of(cost, amount) <= u64::MAX,
{
    assert(0 <= cost * amount <= 0xffff_ffff * 0xffff_ffff) by (nonlinear_arith)
        requires
            cost <= 0xffff_ffffu32,
            amount <= 0xffff_ffffu32,
    ;
}

/// A purchase of `amount` tokens goes through exactly when the buyer can pay
/// the price and no balance involved would leave `u64`.
pub open spec fn purchase_fits(sale: Crowdsale, buyer: Wallet, amount: u32) -> bool {
    &&& price_of(sale.cost, amount) <= buyer.lamports
    &&& sale.lamports + price_of(sale.cost, amount) <= u64::MAX
    &&& sale.tokens_sold + amount <= u64::MAX
    &&& buyer.tokens + amount <= u64::MAX
}

/// The sale record after a successful purchase of `amount` tokens: the
/// treasury has received the price and the tally of sold tokens has grown.
pub open spec fn sale_after_purchase(sale: Crowdsale, amount: u32) -> Crowdsale {
    Crowdsale {
        id: sale.id,
        owner: sale.owner,
        cost: sale.cost,
        lamports: (sale.lamports + price_of(sale.cost, amount)) as u64,
        tokens_sold: (sale.tokens_sold + amount) as u64,
    }
}

/// The buyer's account after a successful purchase of `amount` tokens: it has
/// paid the price and been credited the tokens.
pub open spec fn buyer_after_purchase(buyer: Wallet, cost: u32, amount: u32) -> Wallet {
    Wallet {
        key: buyer.key,
        lamports: (buyer.lamports - price_of(cost, amount)) as u64,
        tokens: (buyer.tokens + amount) as u64,
    }
}

/// A withdrawal goes through exactly when the caller is the designated owner
/// and the caller's balance can absorb the whole treasury.
pub open spec fn withdraw_fits(sale: Crowdsale, caller: Wallet) -> bool {
    &&& caller.key == sale.owner
    &&& caller.lamports + sale.lamports <= u64::MAX
}

/// The sale record after a withdrawal: the treasury is empty, all else stays.
pub open spec fn sale_after_withdraw(sale: Crowdsale) -> Crowdsale {
    Crowdsale {
        id: sale.id,
        owner: sale.owner,
        cost: sale.cost,
        lamports: 0,
        tokens_sold: sale.tokens_sold,
    }
}

/// The owner's account after a withdrawal: it has absorbed the treasury.
pub open spec fn owner_after_withdraw(caller: Wallet, sale: Crowdsale) -> Wallet {
    Wallet {
        key: caller.key,
        lamports: (caller.lamports + sale.lamports) as u64,
        tokens: caller.tokens,
    }
}

/// A purchase moves lamports from the buyer to the treasury and neither
/// creates nor destroys any: the two balances hold the same total before and
/// after.
pub proof fn lemma_purchase_conserves_lamports(sale: Crowdsale, buyer: Wallet, amount: u32)
    requires
        purchase_fits(sale, buyer, amount),
    ensures
        sale_after_purchase(sale, amount).lamports + buyer_after_purchase(
            buyer,
            sale.cost,
            amount,
        ).lamports == sale.lamports + buyer.lamports,
{
    lemma_price_bounds(sale.cost, amount);
}

/// A purchase credits the buyer with exactly as many tokens as it adds to the
/// sale's tally of sold tokens.
pub proof fn lemma_purchase_credits_tokens(sale: Crowdsale, buyer: Wallet, amount: u32)
    requires
        purchase_fits(sale, buyer, amount),
    ensures
        sale_after_purchase(sale, amount).tokens_sold == sale.tokens_sold + amount,
        buyer_after_purchase(buyer, sale.cost, amount).tokens == buyer.tokens + amount,
{
}

/// A withdrawal moves the whole treasury to the owner and neither creates nor
/// destroys lamports: the two balances hold the same total before and after.
pub proof fn lemma_withdraw_conserves_lamports(sale: Crowdsale, caller: Wallet)
    requires
        withdraw_fits(sale, caller),
    ensures
        sale_after_withdraw(sale).lamports + owner_after_withdraw(caller, sale).lamports
            == sale.lamports + caller.lamports,
{
}

} // verus!
