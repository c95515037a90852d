//! Multi-token support: reentrancy guard, bridged (non-Stellar) tokens,
//! token swaps on repayment, and yield bonuses by token liquidity tier.
//!
//! Each operation takes the stored values it reads and returns what to store.
use vstd::prelude::*;
use crate::arith::tdiv;
use crate::errors::ContractError;
use crate::types::Address;

verus! {

/// Yield bonus of each liquidity tier (0 = most liquid), in basis points,
/// used until bonuses are configured.
pub open spec fn default_tier_bonus(tier: int) -> i128 {
    if tier == 0 { 0 } else if tier == 1 { 100 } else if tier == 2 { 200 } else { 350 }
}

/// Metadata of a token bridged from another chain.
#[derive(Clone, Copy, Debug, PartialEq, Eq, Structural)]
pub struct TokenBridgeMetadata {
    pub token_address: Address,
    pub bridge_contract: Address,
    pub source_token_address: Address,
    pub source_chain_id: u32,
    pub price_bps: i128,
    pub price_updated_at: u64,
    pub enabled: bool,
    /// 0 = unlimited.
    pub max_balance_cap: i128,
}

/// Swap configuration of a loan: repayments may use the primary token or
/// any allowed swap token.
pub struct TokenSwapConfig {
    pub loan_id: u64,
    pub primary_token: Address,
    pub allowed_swap_tokens: Vec<Address>,
    pub dex_contract: Address,
    pub max_slippage_bps: i128,
    pub swaps_enabled: bool,
    pub created_at: u64,
}

/// Check that the reentrancy guard (`stored`, 0 when absent) is not held.
pub fn assert_not_reentered(stored: Option<u32>) -> (r: Result<(), ContractError>)
    ensures
        r is Ok <==> stored.unwrap_or(0) == 0,
        r is Err ==> r matches Err(ContractError::Reentrancy),
{
    let guard = match stored {
        Some(g) => g,
        None => 0,
    };
    if guard != 0 {
        return Err(ContractError::Reentrancy);
    }
    Ok(())
}

/// Acquire the reentrancy guard: the guard value to store (1), or
/// `Reentrancy` when it is already held.
pub fn acquire_reentrancy_guard(stored: Option<u32>) -> (r: Result<u32, ContractError>)
    ensures
        stored.unwrap_or(0) == 0 ==> r == Ok::<u32, ContractError>(1),
        stored.unwrap_or(0) != 0 ==> r matches Err(ContractError::Reentrancy),
{
    assert_not_reentered(stored)?;
    Ok(1)
}

/// The guard value that releases the reentrancy guard.
pub fn release_reentrancy_guard() -> (g: u32)
    ensures
        g == 0,
{
    0
}

/// Register a bridged token; its price must lie in `1..=1_000_000` bps.
pub fn register_bridge_token(
    token_address: Address,
    bridge_contract: Address,
    source_token_address: Address,
    source_chain_id: u32,
    price_bps: i128,
    now: u64,
) -> (r: Result<TokenBridgeMetadata, ContractError>)
    ensures
        (price_bps <= 0 || price_bps > 1_000_000) ==> r matches Err(ContractError::InvalidAmount),
        (0 < price_bps <= 1_000_000) ==> r == Ok::<TokenBridgeMetadata, ContractError>(TokenBridgeMetadata {
            token_address,
            bridge_contract,
            source_token_address,
            source_chain_id,
            price_bps,
            price_updated_at: now,
            enabled: true,
            max_balance_cap: 0,
        }),
{
    if price_bps <= 0 || price_bps > 1_000_000 {
        return Err(ContractError::InvalidAmount);
    }
    Ok(TokenBridgeMetadata {
        token_address,
        bridge_contract,
        source_token_address,
        source_chain_id,
        price_bps,
        price_updated_at: now,
        enabled: true,
        max_balance_cap: 0,
    })
}

/// Add `amount` (possibly negative) to a bridged token's tracked balance
/// (`stored`, 0 when absent); the balance may not overflow or go negative.
pub fn update_bridged_token_balance(stored: Option<i128>, amount: i128) -> (r: Result<i128, ContractError>)
    ensures
        ({
            let sum = stored.unwrap_or(0) + amount;
            &&& ((sum > i128::MAX || sum < i128::MIN) ==> r matches Err(ContractError::StakeOverflow))
            &&& ((i128::MIN <= sum < 0) ==> r matches Err(ContractError::InsufficientFunds))
            &&& (0 <= sum <= i128::MAX) ==> r == Ok::<i128, ContractError>(sum as i128)
        }),
{
    let current = match stored {
        Some(c) => c,
        None => 0,
    };
    let new_balance = match current.checked_add(amount) {
        Some(b) => b,
        None => {
            return Err(ContractError::StakeOverflow);
        },
    };
    if new_balance < 0 {
        return Err(ContractError::InsufficientFunds);
    }
    Ok(new_balance)
}

/// Update a bridged token's price (must lie in `1..=1_000_000` bps); the
/// token must be registered.
pub fn update_bridge_token_price(stored: Option<TokenBridgeMetadata>, new_price_bps: i128, now: u64) -> (r: Result<
    TokenBridgeMetadata,
    ContractError,
>)
    ensures
        (new_price_bps <= 0 || new_price_bps > 1_000_000) ==> r matches Err(ContractError::InvalidAmount),
        (0 < new_price_bps <= 1_000_000) && stored is None ==> r matches Err(ContractError::InvalidToken),
        (0 < new_price_bps <= 1_000_000) && stored is Some ==> r == Ok::<TokenBridgeMetadata, ContractError>(
            TokenBridgeMetadata { price_bps: new_price_bps, price_updated_at: now, ..stored->0 },
        ),
{
    if new_price_bps <= 0 || new_price_bps > 1_000_000 {
        return Err(ContractError::InvalidAmount);
    }
    match stored {
        Some(mut m) => {
            m.price_bps = new_price_bps;
            m.price_updated_at = now;
            Ok(m)
        },
        None => Err(ContractError::InvalidToken),
    }
}

/// Configure token swaps for a loan; slippage must lie in `0..=10_000` bps.
pub fn configure_loan_token_swap(
    loan_id: u64,
    primary_token: Address,
    allowed_swap_tokens: Vec<Address>,
    dex_contract: Address,
    max_slippage_bps: i128,
    now: u64,
) -> (r: Result<TokenSwapConfig, ContractError>)
    ensures
        (max_slippage_bps < 0 || max_slippage_bps > 10_000) ==> r matches Err(ContractError::InvalidBps),
        (0 <= max_slippage_bps <= 10_000) ==> (r matches Ok(c) && c.loan_id == loan_id && c.primary_token
            == primary_token && c.allowed_swap_tokens@ == allowed_swap_tokens@ && c.dex_contract == dex_contract
            && c.max_slippage_bps == max_slippage_bps && c.swaps_enabled && c.created_at == now),
{
    if max_slippage_bps < 0 || max_slippage_bps > 10_000 {
        return Err(ContractError::InvalidBps);
    }
    Ok(TokenSwapConfig {
        loan_id,
        primary_token,
        allowed_swap_tokens,
        dex_contract,
        max_slippage_bps,
        swaps_enabled: true,
        created_at: now,
    })
}

/// Whether a repayment in `payment_token` is allowed by the loan's swap
/// configuration: only with swaps enabled, and for the primary token or an
/// allowed swap token. Without a configuration nothing is allowed.
pub fn is_token_swap_allowed(stored: &Option<TokenSwapConfig>, payment_token: Address) -> (b: bool)
    ensures
        b == match stored {
            Some(c) => c.swaps_enabled && (c.primary_token == payment_token || c.allowed_swap_tokens@.contains(
                payment_token,
            )),
            None => false,
        },
{
    match stored {
        Some(c) => {
            if !c.swaps_enabled {
                return false;
            }
            if c.primary_token == payment_token {
                return true;
            }
            let mut i: usize = 0;
            while i < c.allowed_swap_tokens.len()
                invariant
                    i <= c.allowed_swap_tokens@.len(),
                    c.swaps_enabled,
                    stored is Some && stored->0 == *c,
                    forall|j: int| 0 <= j < i ==> c.allowed_swap_tokens@[j] != payment_token,
                decreases c.allowed_swap_tokens@.len() - i,
            {
                if c.allowed_swap_tokens[i] == payment_token {
                    assert(c.allowed_swap_tokens@[i as int] == payment_token);
                    return true;
                }
                i = i + 1;
            }
            assert(!c.allowed_swap_tokens@.contains(payment_token));
            false
        },
        None => false,
    }
}

/// Validate a token's liquidity tier (0..=3) for storing.
pub fn set_token_liquidity_tier(tier: u32) -> (r: Result<u32, ContractError>)
    ensures
        tier > 3 ==> r matches Err(ContractError::InvalidAmount),
        tier <= 3 ==> r == Ok::<u32, ContractError>(tier),
{
    if tier > 3 {
        return Err(ContractError::InvalidAmount);
    }
    Ok(tier)
}

/// Validate the per-tier yield bonuses for storing: exactly four, each in
/// `0..=10_000` bps.
pub fn set_liquidity_tier_yield_bonuses(bonuses: &Vec<i128>) -> (r: Result<(), ContractError>)
    ensures
        bonuses@.len() != 4 ==> r matches Err(ContractError::InvalidAmount),
        bonuses@.len() == 4 ==> (r is Ok <==> forall|i: int| 0 <= i < 4 ==> 0 <= #[trigger] bonuses@[i] <= 10_000),
        bonuses@.len() == 4 && r is Err ==> r matches Err(ContractError::InvalidBps),
{
    if bonuses.len() != 4 {
        return Err(ContractError::InvalidAmount);
    }
    let mut i: usize = 0;
    while i < 4
        invariant
            bonuses@.len() == 4,
            i <= 4,
            forall|j: int| 0 <= j < i ==> 0 <= #[trigger] bonuses@[j] <= 10_000,
        decreases 4 - i,
    {
        if bonuses[i] < 0 || bonuses[i] > 10_000 {
            return Err(ContractError::InvalidBps);
        }
        i = i + 1;
    }
    Ok(())
}

/// The configured tier bonuses, or the defaults.
pub fn get_liquidity_tier_yield_bonuses(stored: Option<Vec<i128>>) -> (r: Vec<i128>)
    ensures
        stored is Some ==> r@ == stored->0@,
        stored is None ==> r@ == seq![default_tier_bonus(0), default_tier_bonus(1), default_tier_bonus(2), default_tier_bonus(3)],
{
    match stored {
        Some(b) => b,
        None => {
            let mut b = Vec::new();
            b.push(0);
            b.push(100);
            b.push(200);
            b.push(350);
            b
        },
    }
}

/// Total yield in bps: the base yield plus the bonus of the token's
/// liquidity tier (`stored_tier`, 0 when unset), taken from `bonuses`
/// (0 when the list has no entry for the tier); tiers past 3 get no bonus.
pub fn calculate_dynamic_yield_bps(base_yield_bps: i128, stored_tier: Option<u32>, bonuses: &Vec<i128>) -> (r: i128)
    requires
        stored_tier.unwrap_or(0) < 4 && stored_tier.unwrap_or(0) < bonuses@.len() ==> i128::MIN <= base_yield_bps
            + bonuses@[stored_tier.unwrap_or(0) as int] <= i128::MAX,
    ensures
        ({
            let tier = stored_tier.unwrap_or(0);
            r == if tier < 4 && tier < bonuses@.len() { base_yield_bps + bonuses@[tier as int] } else {
                base_yield_bps as int
            }
        }),
{
    let tier = match stored_tier {
        Some(t) => t,
        None => 0,
    };
    if tier < 4 {
        let bonus = if (tier as usize) < bonuses.len() { bonuses[tier as usize] } else { 0 };
        base_yield_bps + bonus
    } else {
        base_yield_bps
    }
}

/// Yield on a stake: `stake * yield_bps / 10_000`, or `ArithmeticError`
/// when the product overflows.
pub fn calculate_yield_amount(stake: i128, yield_bps: i128) -> (r: Result<i128, ContractError>)
    ensures
        (stake * yield_bps > i128::MAX || stake * yield_bps < i128::MIN) ==> r matches Err(
            ContractError::ArithmeticError,
        ),
        (i128::MIN <= stake * yield_bps <= i128::MAX) ==> r == Ok::<i128, ContractError>(
            tdiv(stake * yield_bps, 10_000) as i128,
        ),
{
    let product = match stake.checked_mul(yield_bps) {
        Some(p) => p,
        None => {
            return Err(ContractError::ArithmeticError);
        },
    };
    Ok(product / 10_000)
}

} // verus!
