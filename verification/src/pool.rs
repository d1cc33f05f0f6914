use vstd::prelude::*;

use crate::errors::ErrorCode;
use crate::events::DonationMade;
use crate::events::PoolWithdrawal;

verus! {

/// Amount moved by a one-tap donation: one currency unit at six
/// decimal places.
pub const ONE_TAP_AMOUNT: u64 = 1_000_000;

/// Donation kind recorded for a one-tap donation.
pub const DONATION_KIND_ONE_TAP: u8 = 0;

/// Donation kind recorded for a caller-chosen amount.
pub const DONATION_KIND_CUSTOM: u8 = 1;

/// Donation kind reserved for tips.
pub const DONATION_KIND_TIP: u8 = 2;

/// Character bound on a pool's display name.
pub const MAX_POOL_NAME_LEN: usize = 50;

/// Character bound on a pool's description.
pub const MAX_POOL_DESCRIPTION_LEN: usize = 200;

/// Character bound on a pool's emoji string.
pub const MAX_POOL_EMOJI_LEN: usize = 10;

/// A named custody bucket accepting donations toward a cause.
///
/// `total_donated` is the lifetime amount raised: it only ever grows, by
/// exactly the amount of each successful donation, and never reflects
/// withdrawals — the vault balance, not this counter, is what drains.
#[derive(Clone, Debug, PartialEq)]
pub struct Pool {
    /// Identity that controls withdrawals from this pool.
    pub authority: u64,
    pub name: String,
    pub description: String,
    pub emoji: String,
    /// Category code for display grouping.
    pub pool_type: u8,
    /// Lifetime sum of all successful donations.
    pub total_donated: u64,
    /// Number of successful donations received.
    pub donor_count: u64,
    pub is_active: bool,
}

impl Pool {
    /// The display metadata stays within its documented bounds.
    pub open spec fn wf(self) -> bool {
        self.name@.len() <= MAX_POOL_NAME_LEN
            && self.description@.len() <= MAX_POOL_DESCRIPTION_LEN
            && self.emoji@.len() <= MAX_POOL_EMOJI_LEN
    }
}

/// Creates a donation pool owned by `authority`: all counters start at
/// zero and the pool is active. Display metadata over its length bound
/// is rejected and nothing is created.
pub fn initialize_pool(
    authority: u64,
    name: String,
    description: String,
    emoji: String,
    pool_type: u8,
) -> (r: Result<Pool, ErrorCode>)
    ensures
        name@.len() <= MAX_POOL_NAME_LEN && description@.len() <= MAX_POOL_DESCRIPTION_LEN
            && emoji@.len() <= MAX_POOL_EMOJI_LEN ==> r == Ok::<Pool, ErrorCode>(
            (Pool {
                authority,
                name,
                description,
                emoji,
                pool_type,
                total_donated: 0,
                donor_count: 0,
                is_active: true,
            }),
        ),
        name@.len() > MAX_POOL_NAME_LEN || description@.len() > MAX_POOL_DESCRIPTION_LEN
            || emoji@.len() > MAX_POOL_EMOJI_LEN ==> r == Err::<Pool, ErrorCode>(
            ErrorCode::DescriptionTooLong,
        ),
        r matches Ok(p) ==> p.wf(),
{
    if name.as_str().unicode_len() > MAX_POOL_NAME_LEN
        || description.as_str().unicode_len() > MAX_POOL_DESCRIPTION_LEN
        || emoji.as_str().unicode_len() > MAX_POOL_EMOJI_LEN {
        return Err(ErrorCode::DescriptionTooLong);
    }
    Ok(
        Pool {
            authority,
            name,
            description,
            emoji,
            pool_type,
            total_donated: 0,
            donor_count: 0,
            is_active: true,
        },
    )
}

/// An immutable receipt of one donation: a historical fact that is
/// never updated or removed by any later operation, and is read again
/// only by refund computation.
#[derive(Clone, Copy, Debug, PartialEq, Eq, Structural)]
pub struct DonationRecord {
    pub donor: u64,
    pub pool: u64,
    pub amount: u64,
    pub timestamp: i64,
    /// Kind tag: one-tap, custom amount, or tip.
    pub donation_type: u8,
}

/// Full outcome of one donation, relating the pool, the vault balance
/// and the donor's funds before and after the call to its result.
///
/// A zero amount is refused outright; a donor who cannot cover the
/// amount has the whole operation fail with nothing moved (the ledger's
/// own refusal, surfaced as `InsufficientFunds`); otherwise the amount
/// moves from the donor to the vault, the pool's lifetime counters grow
/// by exactly the amount and one donor, and a receipt and an event are
/// produced.
pub open spec fn donate_result_spec(
    pool_pre: Pool,
    pool_post: Pool,
    vault_pre: u64,
    vault_post: u64,
    donor_funds_pre: u64,
    donor_funds_post: u64,
    donor: u64,
    pool_key: u64,
    amount: u64,
    now: i64,
    kind: u8,
    r: Result<(DonationRecord, DonationMade), ErrorCode>,
) -> bool {
    if amount == 0 {
        r == Err::<(DonationRecord, DonationMade), ErrorCode>(ErrorCode::InvalidAmount)
            && pool_post == pool_pre && vault_post == vault_pre
            && donor_funds_post == donor_funds_pre
    } else if donor_funds_pre < amount {
        r == Err::<(DonationRecord, DonationMade), ErrorCode>(ErrorCode::InsufficientFunds)
            && pool_post == pool_pre && vault_post == vault_pre
            && donor_funds_post == donor_funds_pre
    } else {
        donor_funds_post == donor_funds_pre - amount && vault_post == vault_pre + amount
            && pool_post.total_donated == pool_pre.total_donated + amount
            && pool_post.donor_count == pool_pre.donor_count + 1
            && pool_post.authority == pool_pre.authority && pool_post.name == pool_pre.name
            && pool_post.description == pool_pre.description && pool_post.emoji == pool_pre.emoji
            && pool_post.pool_type == pool_pre.pool_type && pool_post.is_active == pool_pre.is_active
            && r == Ok::<(DonationRecord, DonationMade), ErrorCode>(
            (
                (DonationRecord { donor, pool: pool_key, amount, timestamp: now, donation_type: kind }),
                (DonationMade { donor, pool: pool_key, amount, donation_type: kind }),
            ),
        )
    }
}

/// Donates `amount` from `donor` into the pool's vault.
///
/// The ledger moves the amount from the donor's funds to the vault,
/// failing the whole operation when the donor cannot cover it; on
/// success the pool's lifetime counters grow and an immutable receipt
/// is created. Counter or balance overflow would be fatal, so those
/// inputs are excluded up front.
pub fn donate(
    pool: &mut Pool,
    pool_key: u64,
    vault_balance: &mut u64,
    donor: u64,
    donor_funds: &mut u64,
    amount: u64,
    now: i64,
    kind: u8,
) -> (r: Result<(DonationRecord, DonationMade), ErrorCode>)
    requires
        amount > 0 && *old(donor_funds) >= amount ==> old(pool).total_donated + amount
            <= u64::MAX && old(pool).donor_count + 1 <= u64::MAX && *old(vault_balance) + amount
            <= u64::MAX,
    ensures
        donate_result_spec(
            *old(pool),
            *final(pool),
            *old(vault_balance),
            *final(vault_balance),
            *old(donor_funds),
            *final(donor_funds),
            donor,
            pool_key,
            amount,
            now,
            kind,
            r,
        ),
{
    if amount == 0 {
        return Err(ErrorCode::InvalidAmount);
    }
    if *donor_funds < amount {
        return Err(ErrorCode::InsufficientFunds);
    }
    *donor_funds = *donor_funds - amount;
    *vault_balance = *vault_balance + amount;
    pool.total_donated = pool.total_donated + amount;
    pool.donor_count = pool.donor_count + 1;
    let record = DonationRecord { donor, pool: pool_key, amount, timestamp: now, donation_type: kind };
    let event = DonationMade { donor, pool: pool_key, amount, donation_type: kind };
    Ok((record, event))
}

/// One-tap donation: a donation of the fixed one-tap amount, recorded
/// under the one-tap kind.
pub fn one_tap_donate(
    pool: &mut Pool,
    pool_key: u64,
    vault_balance: &mut u64,
    donor: u64,
    donor_funds: &mut u64,
    now: i64,
) -> (r: Result<(DonationRecord, DonationMade), ErrorCode>)
    requires
        *old(donor_funds) >= ONE_TAP_AMOUNT ==> old(pool).total_donated + ONE_TAP_AMOUNT
            <= u64::MAX && old(pool).donor_count + 1 <= u64::MAX && *old(vault_balance)
            + ONE_TAP_AMOUNT <= u64::MAX,
    ensures
        donate_result_spec(
            *old(pool),
            *final(pool),
            *old(vault_balance),
            *final(vault_balance),
            *old(donor_funds),
            *final(donor_funds),
            donor,
            pool_key,
            ONE_TAP_AMOUNT,
            now,
            DONATION_KIND_ONE_TAP,
            r,
        ),
{
    donate(pool, pool_key, vault_balance, donor, donor_funds, ONE_TAP_AMOUNT, now, DONATION_KIND_ONE_TAP)
}

/// Donation of a caller-chosen amount, recorded under the custom kind.
pub fn donate_to_pool(
    pool: &mut Pool,
    pool_key: u64,
    vault_balance: &mut u64,
    donor: u64,
    donor_funds: &mut u64,
    amount: u64,
    now: i64,
) -> (r: Result<(DonationRecord, DonationMade), ErrorCode>)
    requires
        amount > 0 && *old(donor_funds) >= amount ==> old(pool).total_donated + amount
            <= u64::MAX && old(pool).donor_count + 1 <= u64::MAX && *old(vault_balance) + amount
            <= u64::MAX,
    ensures
        donate_result_spec(
            *old(pool),
            *final(pool),
            *old(vault_balance),
            *final(vault_balance),
            *old(donor_funds),
            *final(donor_funds),
            donor,
            pool_key,
            amount,
            now,
            DONATION_KIND_CUSTOM,
            r,
        ),
{
    donate(pool, pool_key, vault_balance, donor, donor_funds, amount, now, DONATION_KIND_CUSTOM)
}

/// Withdraws `amount` from the pool's vault to `recipient`.
///
/// Only the pool's stored authority may call this — the hosting runtime
/// authenticates the caller, so the match is a precondition here. The
/// pool record itself is untouched: a withdrawal drains the vault, not
/// the lifetime `total_donated` counter.
pub fn withdraw_from_pool(
    pool: &Pool,
    pool_key: u64,
    vault_balance: &mut u64,
    authority: u64,
    recipient: u64,
    amount: u64,
) -> (r: Result<PoolWithdrawal, ErrorCode>)
    requires
        authority == pool.authority,
    ensures
        amount == 0 ==> r == Err::<PoolWithdrawal, ErrorCode>(ErrorCode::InvalidAmount)
            && *final(vault_balance) == *old(vault_balance),
        amount > 0 && *old(vault_balance) < amount ==> r == Err::<PoolWithdrawal, ErrorCode>(
            ErrorCode::InsufficientFunds,
        ) && *final(vault_balance) == *old(vault_balance),
        amount > 0 && *old(vault_balance) >= amount ==> *final(vault_balance) == *old(
            vault_balance,
        ) - amount && r == Ok::<PoolWithdrawal, ErrorCode>(
            (PoolWithdrawal { pool: pool_key, recipient, amount }),
        ),
{
    if amount == 0 {
        return Err(ErrorCode::InvalidAmount);
    }
    if *vault_balance < amount {
        return Err(ErrorCode::InsufficientFunds);
    }
    *vault_balance = *vault_balance - amount;
    Ok(PoolWithdrawal { pool: pool_key, recipient, amount })
}

} // verus!
