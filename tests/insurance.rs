use driftshield::accounts::Pubkey;
use driftshield::insurance::{
    cancel_policy, file_claim, prorated_refund, purchase_policy, record_cancellation,
    record_claim_paid, CancelPolicy, ErrorCode, FileClaim, InsurancePolicy, PolicyStatus,
    PurchasePolicy,
};

fn key(b: u8) -> Pubkey {
    Pubkey::new([b; 32])
}

const OWNER: u8 = 1;
const MODEL: u8 = 2;
const POLICY: u8 = 3;
const VAULT: u8 = 4;
const WALLET: u8 = 5;

fn buy(now: i64, days: i64) -> InsurancePolicy {
    let ctx = PurchasePolicy {
        policy_key: key(POLICY),
        owner: key(OWNER),
        user_token_account: key(WALLET),
        insurance_vault: key(VAULT),
    };
    purchase_policy(&ctx, now, key(MODEL), 50_000, 1_000, 9_000, days).unwrap().policy
}

fn claim_ctx(policy: InsurancePolicy, owner: u8) -> FileClaim {
    FileClaim {
        policy_key: key(POLICY),
        policy,
        owner: key(owner),
        owner_token_account: key(WALLET),
        insurance_vault: key(VAULT),
    }
}

fn cancel_ctx(policy: InsurancePolicy, owner: u8) -> CancelPolicy {
    CancelPolicy {
        policy_key: key(POLICY),
        policy,
        owner: key(owner),
        owner_token_account: key(WALLET),
        insurance_vault: key(VAULT),
    }
}

#[test]
fn purchase_sets_expiry_in_days() {
    let ctx = PurchasePolicy {
        policy_key: key(POLICY),
        owner: key(OWNER),
        user_token_account: key(WALLET),
        insurance_vault: key(VAULT),
    };
    let plan = purchase_policy(&ctx, 1_000, key(MODEL), 50_000, 1_000, 9_000, 30).unwrap();
    assert_eq!(plan.policy.start_time, 1_000);
    assert_eq!(plan.policy.expiry_time, 1_000 + 30 * 86_400);
    assert_eq!(plan.policy.status, PolicyStatus::Active);
    assert_eq!(plan.policy.premium_paid, 1_000);
    assert_eq!(plan.policy.claim_paid, 0);
    assert_eq!(plan.transfer.amount, 1_000);
    assert_eq!(plan.transfer.from, key(WALLET));
    assert_eq!(plan.transfer.to, key(VAULT));
    assert_eq!(plan.event.coverage_amount, 50_000);
}

#[test]
fn purchase_with_overflowing_expiry_fails() {
    let ctx = PurchasePolicy {
        policy_key: key(POLICY),
        owner: key(OWNER),
        user_token_account: key(WALLET),
        insurance_vault: key(VAULT),
    };
    let r = purchase_policy(&ctx, 1_000, key(MODEL), 1, 1, 1, i64::MAX / 1_000);
    assert_eq!(r.unwrap_err(), ErrorCode::MathOverflow);
}

#[test]
fn claim_pays_coverage_below_threshold() {
    let mut ctx = claim_ctx(buy(0, 10), OWNER);
    let plan = file_claim(&ctx, 100, 8_999).unwrap();
    assert_eq!(plan.amount, 50_000);
    let t = plan.transfer.unwrap();
    assert_eq!(t.from, key(VAULT));
    assert_eq!(t.to, key(WALLET));
    assert_eq!(t.authority, key(POLICY));
    assert_eq!(plan.event.accuracy_at_claim, 8_999);
    record_claim_paid(&mut ctx, plan.amount);
    assert_eq!(ctx.policy.status, PolicyStatus::Claimed);
    assert_eq!(ctx.policy.claim_paid, 50_000);
    assert_eq!(file_claim(&ctx, 100, 1).unwrap_err(), ErrorCode::PolicyNotActive);
}

#[test]
fn claim_at_threshold_fails() {
    let ctx = claim_ctx(buy(0, 10), OWNER);
    assert_eq!(file_claim(&ctx, 100, 9_000).unwrap_err(), ErrorCode::ThresholdNotMet);
}

#[test]
fn claim_after_expiry_fails() {
    let ctx = claim_ctx(buy(0, 1), OWNER);
    assert!(file_claim(&ctx, 86_400, 1).is_ok());
    assert_eq!(file_claim(&ctx, 86_401, 1).unwrap_err(), ErrorCode::PolicyExpired);
}

#[test]
fn claim_by_stranger_fails() {
    let ctx = claim_ctx(buy(0, 10), 9);
    assert_eq!(file_claim(&ctx, 100, 1).unwrap_err(), ErrorCode::Unauthorized);
}

#[test]
fn cancel_refunds_time_left() {
    // 10 days bought at 0, cancelled after 4: 6/10 of the premium comes back
    let mut ctx = cancel_ctx(buy(0, 10), OWNER);
    let plan = cancel_policy(&ctx, 4 * 86_400).unwrap();
    assert_eq!(plan.amount, 600);
    assert_eq!(plan.transfer.unwrap().amount, 600);
    assert_eq!(plan.event.refund_amount, 600);
    record_cancellation(&mut ctx);
    assert_eq!(ctx.policy.status, PolicyStatus::Cancelled);
    assert_eq!(cancel_policy(&ctx, 4 * 86_400).unwrap_err(), ErrorCode::PolicyNotActive);
}

#[test]
fn cancel_rounds_refund_down() {
    let ctx = cancel_ctx(buy(0, 3), OWNER);
    // 1_000 * (3 days - 1 s) / 3 days = 999.996...
    assert_eq!(cancel_policy(&ctx, 1).unwrap().amount, 999);
}

#[test]
fn cancel_after_expiry_refunds_nothing() {
    let ctx = cancel_ctx(buy(0, 1), OWNER);
    let plan = cancel_policy(&ctx, 86_400).unwrap();
    assert_eq!(plan.amount, 0);
    assert!(plan.transfer.is_none());
}

#[test]
fn cancel_by_stranger_fails() {
    let ctx = cancel_ctx(buy(0, 1), 7);
    assert_eq!(cancel_policy(&ctx, 10).unwrap_err(), ErrorCode::Unauthorized);
}

#[test]
fn refund_of_zero_length_policy_cannot_be_computed() {
    let mut p = buy(100, 1);
    p.expiry_time = 200;
    p.start_time = 200;
    assert_eq!(prorated_refund(&p, 50).unwrap_err(), ErrorCode::MathOverflow);
    assert_eq!(prorated_refund(&p, 200).unwrap(), 0);
}
