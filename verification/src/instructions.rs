use vstd::prelude::*;

verus! {

use crate::error::CrowdsaleError;
use crate::price_lamports;
use crate::state::Crowdsale;
use crate::state::Wallet;
use crate::state::buyer_after_purchase;
use crate::state::owner_after_withdraw;
use crate::state::price_of;
use crate::state::purchase_fits;
use crate::state::sale_after_purchase;
use crate::state::sale_after_withdraw;
use crate::state::withdraw_fits;

/// Buys `amount` tokens: the buyer pays `amount` times the sale's per-token
/// cost into the treasury and is credited `amount` tokens. The purchase
/// succeeds exactly when the buyer can pay and no balance overflows; on any
/// failure both records are left untouched.
pub fn buy_tokens(sale: &mut Crowdsale, buyer: &mut Wallet, amount: u32) -> (r: Result<
    (),
    CrowdsaleError,
>)
    ensures
        r is Ok <==> purchase_fits(*old(sale), *old(buyer), amount),
        r is Ok ==> *final(sale) == sale_after_purchase(*old(sale), amount),
        r is Ok ==> *final(buyer) == buyer_after_purchase(*old(buyer), old(sale).cost, amount),
        r is Err ==> *final(sale) == *old(sale) && *final(buyer) == *old(buyer),
        r == Err::<(), CrowdsaleError>(CrowdsaleError::InsufficientFunds) <==> old(buyer).lamports
            < price_of(old(sale).cost, amount),
        r == Err::<(), CrowdsaleError>(CrowdsaleError::BalanceOverflow) <==> (old(buyer).lamports
            >= price_of(old(sale).cost, amount) && !purchase_fits(*old(sale), *old(buyer), amount)),
{
    let price: u64 = price_lamports(sale.cost, amount);
    if buyer.lamports < price {
        return Err(CrowdsaleError::InsufficientFunds);
    }
    if price > u64::MAX - sale.lamports || amount as u64 > u64::MAX - sale.tokens_sold
        || amount as u64 > u64::MAX - buyer.tokens {
        return Err(CrowdsaleError::BalanceOverflow);
    }
    buyer.lamports = buyer.lamports - price;
    buyer.tokens = buyer.tokens + amount as u64;
    sale.lamports = sale.lamports + price;
    sale.tokens_sold = sale.tokens_sold + amount as u64;
    Ok(())
}

/// Drains the treasury to the caller: the caller receives every lamport the
/// sale has accumulated and the recorded balance returns to zero. Only the
/// designated owner may invoke it; on any failure both records are left
/// untouched. Returns the number of lamports withdrawn.
pub fn withdraw(sale: &mut Crowdsale, caller: &mut Wallet) -> (r: Result<u64, CrowdsaleError>)
    ensures
        r is Ok <==> withdraw_fits(*old(sale), *old(caller)),
        r is Ok ==> r == Ok::<u64, CrowdsaleError>(old(sale).lamports),
        r is Ok ==> *final(sale) == sale_after_withdraw(*old(sale)),
        r is Ok ==> *final(caller) == owner_after_withdraw(*old(caller), *old(sale)),
        r is Err ==> *final(sale) == *old(sale) && *final(caller) == *old(caller),
        r == Err::<u64, CrowdsaleError>(CrowdsaleError::InvalidOwner) <==> old(caller).key != old(
            sale,
        ).owner,
        r == Err::<u64, CrowdsaleError>(CrowdsaleError::BalanceOverflow) <==> (old(caller).key
            == old(sale).owner && old(caller).lamports + old(sale).lamports > u64::MAX),
{
    if caller.key != sale.owner {
        return Err(CrowdsaleError::InvalidOwner);
    }
    if sale.lamports > u64::MAX - caller.lamports {
        return Err(CrowdsaleError::BalanceOverflow);
    }
    let amount: u64 = sale.lamports;
    caller.lamports = caller.lamports + amount;
    sale.lamports = 0;
    Ok(amount)
}

} // verus!
