//! The two shares of a donation and what they cost the payer together.

use vstd::prelude::*;

verus! {

/// The platform receives one part in this many of the stated amount.
pub const FEE_DIVISOR: u64 = 100;

/// The recipient's share: the whole stated amount.
pub open spec fn spec_recipient_share(amount: nat) -> nat {
    amount
}

/// The platform's share: the amount divided by [`FEE_DIVISOR`], rounded down.
pub open spec fn spec_platform_share(amount: nat) -> nat {
    amount / (FEE_DIVISOR as nat)
}

/// What one donation debits from the payer: both shares together.
pub open spec fn spec_total_debit(amount: nat) -> nat {
    spec_recipient_share(amount) + spec_platform_share(amount)
}

/// The share of `amount` that goes to the recipient.
pub fn recipient_share(amount: u64) -> (share: u64)
    ensures
        share == spec_recipient_share(amount as nat),
{
    amount
}

/// The share of `amount` that goes to the platform.
pub fn platform_share(amount: u64) -> (share: u64)
    ensures
        share == spec_platform_share(amount as nat),
{
    amount / FEE_DIVISOR
}

/// The sum of both shares. It can exceed `u64::MAX`, so it is returned wide.
pub fn total_debit(amount: u64) -> (total: u128)
    ensures
        total == spec_total_debit(amount as nat),
{
    let base: u128 = recipient_share(amount) as u128;
    let fee: u128 = platform_share(amount) as u128;
    base + fee
}

/// The recipient's share is the whole amount. The platform's share is the
/// largest number whose hundredfold does not exceed the amount, so it is zero
/// for every amount below a hundred. The two together are the amount plus
/// that hundredth, which is what the payer is debited.
pub proof fn lemma_shares(amount: nat)
    ensures
        spec_recipient_share(amount) == amount,
        100 * spec_platform_share(amount) <= amount < 100 * (spec_platform_share(amount) + 1),
        spec_platform_share(amount) == 0 <==> amount < 100,
        spec_recipient_share(amount) + spec_platform_share(amount) == spec_total_debit(amount),
        spec_total_debit(amount) == amount + amount / 100,
{
}

} // verus!
