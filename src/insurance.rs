use vstd::prelude::*;

use crate::accounts::{Pubkey, Transfer};

verus! {

/// Seconds in a day.
pub const SECONDS_PER_DAY: i64 = 86400;

/// Where a policy stands: active until it is claimed, cancelled or runs out.
#[derive(Clone, Copy, Debug, PartialEq, Eq, Structural)]
pub enum PolicyStatus {
    Active,
    Claimed,
    Expired,
    Cancelled,
}

/// Why an insurance operation was refused.
#[derive(Clone, Copy, Debug, PartialEq, Eq, Structural)]
pub enum ErrorCode {
    Unauthorized,
    PolicyNotActive,
    PolicyExpired,
    ThresholdNotMet,
    /// A date or an amount falls outside the range it is stored in.
    MathOverflow,
}

/// Cover against a model's accuracy falling below a threshold before expiry.
#[derive(Clone, Copy, Debug)]
pub struct InsurancePolicy {
    pub owner: Pubkey,
    pub model: Pubkey,
    pub coverage_amount: u64,
    pub premium_paid: u64,
    /// Accuracy, in basis points, below which the cover pays.
    pub accuracy_threshold: u64,
    pub status: PolicyStatus,
    pub start_time: i64,
    pub expiry_time: i64,
    pub claim_paid: u64,
}

/// Accounts read when a policy is bought.
pub struct PurchasePolicy {
    pub policy_key: Pubkey,
    pub owner: Pubkey,
    pub user_token_account: Pubkey,
    pub insurance_vault: Pubkey,
}

/// Accounts read and written by a claim on a policy.
pub struct FileClaim {
    pub policy_key: Pubkey,
    pub policy: InsurancePolicy,
    pub owner: Pubkey,
    pub owner_token_account: Pubkey,
    pub insurance_vault: Pubkey,
}

/// Accounts read and written by a cancellation.
pub struct CancelPolicy {
    pub policy_key: Pubkey,
    pub policy: InsurancePolicy,
    pub owner: Pubkey,
    pub owner_token_account: Pubkey,
    pub insurance_vault: Pubkey,
}

#[derive(Clone, Copy, Debug)]
pub struct PolicyPurchased {
    pub policy_key: Pubkey,
    pub owner: Pubkey,
    pub model: Pubkey,
    pub coverage_amount: u64,
    pub premium: u64,
    pub timestamp: i64,
}

#[derive(Clone, Copy, Debug)]
pub struct ClaimPaid {
    pub policy_key: Pubkey,
    pub owner: Pubkey,
    pub payout: u64,
    pub accuracy_at_claim: u64,
    pub timestamp: i64,
}

#[derive(Clone, Copy, Debug)]
pub struct PolicyCancelled {
    pub policy_key: Pubkey,
    pub refund_amount: u64,
    pub timestamp: i64,
}

/// An accepted purchase: the premium to move into the vault, and the policy
/// to store once it has arrived.
#[derive(Clone, Copy, Debug)]
pub struct PurchasePlan {
    pub transfer: Transfer,
    pub policy: InsurancePolicy,
    pub event: PolicyPurchased,
}

/// An accepted claim or cancellation: the payment out of the vault (none for
/// a cancellation that refunds nothing) and the notification to send once the
/// policy has been updated.
#[derive(Clone, Copy, Debug)]
pub struct PayoutPlan<E> {
    pub transfer: Option<Transfer>,
    pub amount: u64,
    pub event: E,
}

/// When a policy bought at `now` for `duration_days` runs out.
pub open spec fn expiry_of(now: i64, duration_days: i64) -> int {
    now + duration_days * SECONDS_PER_DAY
}

/// The policy a successful purchase stores.
pub open spec fn purchase_step(
    owner: Pubkey,
    now: i64,
    model: Pubkey,
    coverage_amount: u64,
    premium: u64,
    accuracy_threshold: u64,
    duration_days: i64,
) -> Result<InsurancePolicy, ErrorCode> {
    let expiry = expiry_of(now, duration_days);
    if expiry < i64::MIN || expiry > i64::MAX {
        Err(ErrorCode::MathOverflow)
    } else {
        Ok(
            InsurancePolicy {
                owner,
                model,
                coverage_amount,
                premium_paid: premium,
                accuracy_threshold,
                status: PolicyStatus::Active,
                start_time: now,
                expiry_time: expiry as i64,
                claim_paid: 0,
            },
        )
    }
}

/// A claim pays the full coverage when the owner files it on an active,
/// unexpired policy and the reported accuracy is below the threshold.
pub open spec fn file_claim_step(
    policy: InsurancePolicy,
    owner: Pubkey,
    now: i64,
    current_accuracy: u64,
) -> Result<u64, ErrorCode> {
    if owner@ != policy.owner@ {
        Err(ErrorCode::Unauthorized)
    } else if policy.status != PolicyStatus::Active {
        Err(ErrorCode::PolicyNotActive)
    } else if now > policy.expiry_time {
        Err(ErrorCode::PolicyExpired)
    } else if current_accuracy >= policy.accuracy_threshold {
        Err(ErrorCode::ThresholdNotMet)
    } else {
        Ok(policy.coverage_amount)
    }
}

/// The premium refunded on cancellation at `now`: the share of the premium
/// for the time left, rounded down; nothing once the policy has run out.
pub open spec fn refund_of(policy: InsurancePolicy, now: i64) -> Result<u64, ErrorCode> {
    let remaining = policy.expiry_time - now;
    let duration = policy.expiry_time - policy.start_time;
    if remaining <= 0 {
        Ok(0)
    } else if duration <= 0 || policy.premium_paid * remaining / duration > u64::MAX {
        Err(ErrorCode::MathOverflow)
    } else {
        Ok((policy.premium_paid * remaining / duration) as u64)
    }
}

/// Cancellation: only the owner, only of an active policy; it refunds the
/// unused part of the premium.
pub open spec fn cancel_step(policy: InsurancePolicy, owner: Pubkey, now: i64) -> Result<
    u64,
    ErrorCode,
> {
    if owner@ != policy.owner@ {
        Err(ErrorCode::Unauthorized)
    } else if policy.status != PolicyStatus::Active {
        Err(ErrorCode::PolicyNotActive)
    } else {
        refund_of(policy, now)
    }
}

/// Checks a purchase. On success the caller moves the premium as the plan's
/// transfer says and then stores the plan's policy.
pub fn purchase_policy(
    ctx: &PurchasePolicy,
    now: i64,
    model_pubkey: Pubkey,
    coverage_amount: u64,
    premium: u64,
    accuracy_threshold: u64,
    duration_days: i64,
) -> (r: Result<PurchasePlan, ErrorCode>)
    ensures
        match r {
            Ok(plan) => {
                &&& purchase_step(
                    ctx.owner,
                    now,
                    model_pubkey,
                    coverage_amount,
                    premium,
                    accuracy_threshold,
                    duration_days,
                ) == Ok::<InsurancePolicy, ErrorCode>(plan.policy)
                &&& plan.transfer == (Transfer {
                    from: ctx.user_token_account,
                    to: ctx.insurance_vault,
                    authority: ctx.owner,
                    amount: premium,
                })
                &&& plan.event == (PolicyPurchased {
                    policy_key: ctx.policy_key,
                    owner: ctx.owner,
                    model: model_pubkey,
                    coverage_amount,
                    premium,
                    timestamp: now,
                })
            },
            Err(e) => purchase_step(
                ctx.owner,
                now,
                model_pubkey,
                coverage_amount,
                premium,
                accuracy_threshold,
                duration_days,
            ) == Err::<InsurancePolicy, ErrorCode>(e),
        },
{
    proof {
        assert(-0x8000_0000_0000_0000 * 86400 <= duration_days * 86400 <= 0x7fff_ffff_ffff_ffff
            * 86400) by (nonlinear_arith)
            requires
                i64::MIN <= duration_days <= i64::MAX,
        ;
    }
    let expiry = now as i128 + duration_days as i128 * SECONDS_PER_DAY as i128;
    if expiry < i64::MIN as i128 || expiry > i64::MAX as i128 {
        return Err(ErrorCode::MathOverflow);
    }
    let policy = InsurancePolicy {
        owner: ctx.owner,
        model: model_pubkey,
        coverage_amount,
        premium_paid: premium,
        accuracy_threshold,
        status: PolicyStatus::Active,
        start_time: now,
        expiry_time: expiry as i64,
        claim_paid: 0,
    };
    Ok(
        PurchasePlan {
            transfer: Transfer {
                from: ctx.user_token_account,
                to: ctx.insurance_vault,
                authority: ctx.owner,
                amount: premium,
            },
            policy,
            event: PolicyPurchased {
                policy_key: ctx.policy_key,
                owner: ctx.owner,
                model: model_pubkey,
                coverage_amount,
                premium,
                timestamp: now,
            },
        },
    )
}

/// Checks a claim. On success the caller pays out as the plan's transfer says
/// and then calls `record_claim_paid`.
pub fn file_claim(ctx: &FileClaim, now: i64, current_accuracy: u64) -> (r: Result<
    PayoutPlan<ClaimPaid>,
    ErrorCode,
>)
    ensures
        match r {
            Ok(plan) => {
                &&& file_claim_step(ctx.policy, ctx.owner, now, current_accuracy) == Ok::<
                    u64,
                    ErrorCode,
                >(plan.amount)
                &&& plan.transfer == Some(
                    Transfer {
                        from: ctx.insurance_vault,
                        to: ctx.owner_token_account,
                        authority: ctx.policy_key,
                        amount: plan.amount,
                    },
                )
                &&& plan.event == (ClaimPaid {
                    policy_key: ctx.policy_key,
                    owner: ctx.policy.owner,
                    payout: plan.amount,
                    accuracy_at_claim: current_accuracy,
                    timestamp: now,
                })
            },
            Err(e) => file_claim_step(ctx.policy, ctx.owner, now, current_accuracy) == Err::<
                u64,
                ErrorCode,
            >(e),
        },
{
    let policy = &ctx.policy;
    if ctx.owner != policy.owner {
        return Err(ErrorCode::Unauthorized);
    }
    if policy.status != PolicyStatus::Active {
        return Err(ErrorCode::PolicyNotActive);
    }
    if now > policy.expiry_time {
        return Err(ErrorCode::PolicyExpired);
    }
    if current_accuracy >= policy.accuracy_threshold {
        return Err(ErrorCode::ThresholdNotMet);
    }
    let payout = policy.coverage_amount;
    Ok(
        PayoutPlan {
            transfer: Some(
                Transfer {
                    from: ctx.insurance_vault,
                    to: ctx.owner_token_account,
                    authority: ctx.policy_key,
                    amount: payout,
                },
            ),
            amount: payout,
            event: ClaimPaid {
                policy_key: ctx.policy_key,
                owner: policy.owner,
                payout,
                accuracy_at_claim: current_accuracy,
                timestamp: now,
            },
        },
    )
}

/// Marks a policy as claimed once its payout has left the vault.
pub fn record_claim_paid(ctx: &mut FileClaim, payout: u64)
    ensures
        final(ctx).policy == (InsurancePolicy {
            status: PolicyStatus::Claimed,
            claim_paid: payout,
            ..old(ctx).policy
        }),
        final(ctx).policy_key == old(ctx).policy_key,
        final(ctx).owner == old(ctx).owner,
{
    ctx.policy.status = PolicyStatus::Claimed;
    ctx.policy.claim_paid = payout;
}

/// The refund for cancelling `policy` at `now`.
pub fn prorated_refund(policy: &InsurancePolicy, now: i64) -> (r: Result<u64, ErrorCode>)
    ensures
        r == refund_of(*policy, now),
{
    let remaining = policy.expiry_time as i128 - now as i128;
    if remaining <= 0 {
        return Ok(0);
    }
    let duration = policy.expiry_time as i128 - policy.start_time as i128;
    if duration <= 0 {
        return Err(ErrorCode::MathOverflow);
    }
    let premium = policy.premium_paid as u128;
    let left = remaining as u128;
    proof {
        assert(premium * left <= u64::MAX * u64::MAX) by (nonlinear_arith)
            requires
                premium <= u64::MAX,
                left <= u64::MAX,
        ;
    }
    let refund = premium * left / duration as u128;
    if refund > u64::MAX as u128 {
        return Err(ErrorCode::MathOverflow);
    }
    Ok(refund as u64)
}

/// Checks a cancellation and computes its refund. On success the caller pays
/// the refund, if any, as the plan's transfer says, and then calls
/// `record_cancellation`.
pub fn cancel_policy(ctx: &CancelPolicy, now: i64) -> (r: Result<
    PayoutPlan<PolicyCancelled>,
    ErrorCode,
>)
    ensures
        match r {
            Ok(plan) => {
                &&& cancel_step(ctx.policy, ctx.owner, now) == Ok::<u64, ErrorCode>(plan.amount)
                &&& plan.transfer == if plan.amount > 0 {
                    Some(
                        Transfer {
                            from: ctx.insurance_vault,
                            to: ctx.owner_token_account,
                            authority: ctx.policy_key,
                            amount: plan.amount,
                        },
                    )
                } else {
                    None
                }
                &&& plan.event == (PolicyCancelled {
                    policy_key: ctx.policy_key,
                    refund_amount: plan.amount,
                    timestamp: now,
                })
            },
            Err(e) => cancel_step(ctx.policy, ctx.owner, now) == Err::<u64, ErrorCode>(e),
        },
{
    if ctx.owner != ctx.policy.owner {
        return Err(ErrorCode::Unauthorized);
    }
    if ctx.policy.status != PolicyStatus::Active {
        return Err(ErrorCode::PolicyNotActive);
    }
    let refund = match prorated_refund(&ctx.policy, now) {
        Ok(x) => x,
        Err(e) => return Err(e),
    };
    let transfer = if refund > 0 {
        Some(
            Transfer {
                from: ctx.insurance_vault,
                to: ctx.owner_token_account,
                authority: ctx.policy_key,
                amount: refund,
            },
        )
    } else {
        None
    };
    Ok(
        PayoutPlan {
            transfer,
            amount: refund,
            event: PolicyCancelled { policy_key: ctx.policy_key, refund_amount: refund, timestamp: now },
        },
    )
}

/// Marks a policy as cancelled once any refund has left the vault.
pub fn record_cancellation(ctx: &mut CancelPolicy)
    ensures
        final(ctx).policy == (InsurancePolicy { status: PolicyStatus::Cancelled, ..old(ctx).policy }),
        final(ctx).policy_key == old(ctx).policy_key,
        final(ctx).owner == old(ctx).owner,
{
    ctx.policy.status = PolicyStatus::Cancelled;
}

} // verus!
