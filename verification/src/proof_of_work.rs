//! Proof of work for credential holders, against spam and denial of service.
//!
//! A nonce passes when it has at least `difficulty` leading zero bits. Each
//! holder may use a passing nonce once. The difficulty (1..=20) adapts to the
//! rate of operations: above 10000 per hour it rises, below 100 it falls.
//! The last 100 difficulty changes are kept.
use vstd::prelude::*;
use vstd::std_specs::bits::u64_leading_zeros;
use crate::errors::ContractError;

verus! {

pub const DEFAULT_POW_DIFFICULTY: u32 = 2;
pub const MIN_POW_DIFFICULTY: u32 = 1;
pub const MAX_POW_DIFFICULTY: u32 = 20;
/// Every this many operations the difficulty is reconsidered.
pub const POW_ADJUSTMENT_THRESHOLD: u32 = 1000;
/// Minimum time between two adjustments (one hour).
pub const POW_ADJUSTMENT_PERIOD_SECS: u64 = 3600;
pub const MAX_HASH_LEADING_ZEROS: u32 = 32;
/// Number of difficulty changes kept in the history.
pub const POW_HISTORY_LIMIT: usize = 100;

/// The leading zero bits a nonce counts for: a nonce with a bit set above
/// its low 32-bit word counts its 64-bit leading zeros; a smaller nonce
/// counts the leading zeros of its low word with the word's lowest bit not
/// counted (so 1 counts 32 and 0x80000000 counts 0); zero counts 64.
pub open spec fn pow_leading_zeros(value: u64) -> int {
    if value == 0 {
        64
    } else if value >= 0x1_0000_0000 {
        u64_leading_zeros(value)
    } else {
        let z = u64_leading_zeros((value - value % 2) as u64);
        if z >= 32 { z - 32 } else { 0 }
    }
}

/// Count the leading zero bits a nonce counts for.
pub fn count_leading_zeros(value: u64) -> (r: u32)
    ensures
        r as int == pow_leading_zeros(value),
{
    if value == 0 {
        return 64;
    }
    if value >= 0x1_0000_0000 {
        return value.leading_zeros();
    }
    let cleared = value - value % 2;
    let z = cleared.leading_zeros();
    if z >= 32 { z - 32 } else { 0 }
}

/// Whether `nonce` meets `difficulty`; the difficulty must lie in 1..=20.
pub fn verify_pow(nonce: u64, difficulty: u32) -> (r: Result<bool, ContractError>)
    ensures
        (difficulty < MIN_POW_DIFFICULTY || difficulty > MAX_POW_DIFFICULTY) ==> r matches Err(
            ContractError::InvalidDifficulty,
        ),
        (MIN_POW_DIFFICULTY <= difficulty <= MAX_POW_DIFFICULTY) ==> r == Ok::<bool, ContractError>(
            pow_leading_zeros(nonce) >= difficulty,
        ),
{
    if difficulty < MIN_POW_DIFFICULTY || difficulty > MAX_POW_DIFFICULTY {
        return Err(ContractError::InvalidDifficulty);
    }
    let zeros = count_leading_zeros(nonce);
    Ok(zeros >= difficulty)
}

/// The current difficulty: the stored one or the default.
pub fn get_pow_difficulty(stored: Option<u32>) -> (d: u32)
    ensures
        d == stored.unwrap_or(DEFAULT_POW_DIFFICULTY),
{
    match stored {
        Some(d) => d,
        None => DEFAULT_POW_DIFFICULTY,
    }
}

/// `history` with `entry` appended, dropping the oldest entry when 100 are kept.
pub open spec fn pushed_history(history: Seq<(u64, u32, u32)>, entry: (u64, u32, u32)) -> Seq<(u64, u32, u32)> {
    if history.len() >= POW_HISTORY_LIMIT {
        history.drop_first().push(entry)
    } else {
        history.push(entry)
    }
}

/// Set the difficulty (1..=20): returns the difficulty and the change
/// history `(time, old, new)` to store.
pub fn set_pow_difficulty(
    stored: Option<u32>,
    history: Vec<(u64, u32, u32)>,
    difficulty: u32,
    now: u64,
) -> (r: Result<(u32, Vec<(u64, u32, u32)>), ContractError>)
    ensures
        (difficulty < MIN_POW_DIFFICULTY || difficulty > MAX_POW_DIFFICULTY) ==> r matches Err(
            ContractError::InvalidDifficulty,
        ),
        (MIN_POW_DIFFICULTY <= difficulty <= MAX_POW_DIFFICULTY) ==> (r matches Ok(res) && res.0 == difficulty
            && res.1@ == pushed_history(history@, (now, stored.unwrap_or(DEFAULT_POW_DIFFICULTY), difficulty))),
{
    if difficulty < MIN_POW_DIFFICULTY || difficulty > MAX_POW_DIFFICULTY {
        return Err(ContractError::InvalidDifficulty);
    }
    let old = get_pow_difficulty(stored);
    let mut h = history;
    if h.len() >= POW_HISTORY_LIMIT {
        h.remove(0);
    }
    h.push((now, old, difficulty));
    Ok((difficulty, h))
}

/// Outcome of a proof-of-work check.
#[derive(Clone, Copy, Debug, PartialEq, Eq, Structural)]
pub struct PowCheck {
    /// Whether the nonce met the difficulty.
    pub valid: bool,
    /// The operation count to store when the nonce was accepted (the
    /// nonce is then marked used).
    pub new_count: Option<u32>,
    /// Whether the difficulty should now be reconsidered.
    pub adjust: bool,
}

/// Require proof of work from a holder: a nonce meeting the current
/// difficulty is accepted once (`nonce_used` tells whether it was), which
/// counts one operation; every 1000th count (from 0) triggers an adjustment.
pub fn require_pow_for_operation(
    stored_difficulty: Option<u32>,
    nonce_used: bool,
    stored_count: Option<u32>,
    nonce: u64,
) -> (r: Result<PowCheck, ContractError>)
    requires
        stored_count.unwrap_or(0) < u32::MAX,
    ensures
        ({
            let d = stored_difficulty.unwrap_or(DEFAULT_POW_DIFFICULTY);
            let count = stored_count.unwrap_or(0);
            &&& ((d < MIN_POW_DIFFICULTY || d > MAX_POW_DIFFICULTY) ==> r matches Err(ContractError::InvalidDifficulty))
            &&& (MIN_POW_DIFFICULTY <= d <= MAX_POW_DIFFICULTY && pow_leading_zeros(nonce) < d) ==> r
                == Ok::<PowCheck, ContractError>(PowCheck { valid: false, new_count: None, adjust: false })
            &&& ((MIN_POW_DIFFICULTY <= d <= MAX_POW_DIFFICULTY && pow_leading_zeros(nonce) >= d && nonce_used) ==> r
                matches Err(ContractError::NonceAlreadyUsed))
            &&& (MIN_POW_DIFFICULTY <= d <= MAX_POW_DIFFICULTY && pow_leading_zeros(nonce) >= d && !nonce_used) ==> r
                == Ok::<PowCheck, ContractError>(PowCheck {
                valid: true,
                new_count: Some((count + 1) as u32),
                adjust: count % POW_ADJUSTMENT_THRESHOLD == 0,
            })
        }),
{
    let difficulty = get_pow_difficulty(stored_difficulty);
    let valid = verify_pow(nonce, difficulty)?;
    if !valid {
        return Ok(PowCheck { valid: false, new_count: None, adjust: false });
    }
    if nonce_used {
        return Err(ContractError::NonceAlreadyUsed);
    }
    let count = match stored_count {
        Some(c) => c,
        None => 0,
    };
    Ok(PowCheck { valid: true, new_count: Some(count + 1), adjust: count % POW_ADJUSTMENT_THRESHOLD == 0 })
}

/// Operations per hour over `elapsed` seconds (`elapsed` as the 32-bit
/// count the rate is computed with).
pub open spec fn rate_per_hour(count: u32, now: u64, last: u64) -> int {
    let elapsed: u32 = if now > last { (now - last) as u32 } else { POW_ADJUSTMENT_PERIOD_SECS as u32 };
    if elapsed > 0 { (count * 3600) / (elapsed as int) } else { 0 }
}

/// The difficulty after an adjustment at the given rate.
pub open spec fn adjusted_difficulty(current: u32, rate: int) -> int {
    if rate > 10000 {
        if current + 1 < MAX_POW_DIFFICULTY { current + 1 } else { MAX_POW_DIFFICULTY as int }
    } else if rate < 100 && current > MIN_POW_DIFFICULTY {
        current - 1
    } else {
        current as int
    }
}

/// Outcome of a difficulty adjustment.
#[derive(Clone, Copy, Debug, PartialEq, Eq, Structural)]
pub struct PowAdjustment {
    /// The new difficulty to set, when it changes.
    pub new_difficulty: Option<u32>,
    /// Whether the operation count is reset and the adjustment time set to now.
    pub reset: bool,
}

/// Reconsider the difficulty: nothing happens within an hour of the last
/// adjustment (`stored_last`, 0 when none); otherwise the rate of the
/// `count` operations since then moves the difficulty up or down by one
/// within 1..=20, and the count is reset.
pub fn adjust_difficulty_if_needed(stored_last: Option<u64>, count: u32, current_difficulty: u32, now: u64) -> (r:
    PowAdjustment)
    requires
        now >= stored_last.unwrap_or(0),
        current_difficulty < u32::MAX,
    ensures
        ({
            let last = stored_last.unwrap_or(0);
            let nd = adjusted_difficulty(current_difficulty, rate_per_hour(count, now, last));
            &&& now - last < POW_ADJUSTMENT_PERIOD_SECS ==> r == (PowAdjustment { new_difficulty: None, reset: false })
            &&& now - last >= POW_ADJUSTMENT_PERIOD_SECS ==> r == (PowAdjustment {
                new_difficulty: if nd != current_difficulty { Some(nd as u32) } else { None },
                reset: true,
            })
        }),
{
    let last = match stored_last {
        Some(t) => t,
        None => 0,
    };
    if now - last < POW_ADJUSTMENT_PERIOD_SECS {
        return PowAdjustment { new_difficulty: None, reset: false };
    }
    let elapsed: u32 = if now > last {
        #[verifier::truncate]
        let e = (now - last) as u32;
        e
    } else {
        POW_ADJUSTMENT_PERIOD_SECS as u32
    };
    let rate: u64 = if elapsed > 0 { ((count as u64) * 3600) / (elapsed as u64) } else { 0 };
    let new_difficulty = if rate > 10000 {
        if current_difficulty + 1 < MAX_POW_DIFFICULTY { current_difficulty + 1 } else { MAX_POW_DIFFICULTY }
    } else if rate < 100 && current_difficulty > MIN_POW_DIFFICULTY {
        current_difficulty - 1
    } else {
        current_difficulty
    };
    if new_difficulty != current_difficulty {
        PowAdjustment { new_difficulty: Some(new_difficulty), reset: true }
    } else {
        PowAdjustment { new_difficulty: None, reset: true }
    }
}

/// Whether a holder's nonce was used (`stored`, false when absent).
pub fn is_nonce_used(stored: Option<bool>) -> (b: bool)
    ensures
        b == stored.unwrap_or(false),
{
    match stored {
        Some(b) => b,
        None => false,
    }
}

/// An adjustment keeps a difficulty that lies in 1..=20 within 1..=20.
pub proof fn lemma_adjustment_stays_in_range(current: u32, rate: int)
    requires
        MIN_POW_DIFFICULTY <= current <= MAX_POW_DIFFICULTY,
    ensures
        MIN_POW_DIFFICULTY <= adjusted_difficulty(current, rate) <= MAX_POW_DIFFICULTY,
{
}

} // verus!
