use vstd::prelude::*;

use crate::accounts::Pubkey;

verus! {

/// An accuracy drop from the baseline, in basis points, above which a report
/// raises a drift alert (five percentage points).
pub const DRIFT_ALERT_DROP: u64 = 500;

/// Where a model stands in its monitoring.
#[derive(Clone, Copy, Debug, PartialEq, Eq, Structural)]
pub enum ModelStatus {
    Active,
    DriftDetected,
    Paused,
}

/// Why a registry operation was refused.
#[derive(Clone, Copy, Debug, PartialEq, Eq, Structural)]
pub enum ErrorCode {
    Unauthorized,
    InvalidStatus,
    ModelIdTooLong,
}

/// A registered model and the running record of its monitoring.
#[derive(Clone, Debug)]
pub struct ModelAccount {
    pub owner: Pubkey,
    pub model_id: String,
    pub name: String,
    pub model_type: String,
    pub framework: String,
    /// Accuracy at registration, in basis points.
    pub baseline_accuracy: u64,
    /// Accuracy in the latest report, in basis points.
    pub current_accuracy: u64,
    pub total_checks: u64,
    pub drift_alerts: u64,
    pub status: ModelStatus,
    pub created_at: i64,
    pub last_check_at: i64,
    pub is_insured: bool,
    pub has_active_market: bool,
}

/// One monitoring report on a model.
#[derive(Clone, Debug)]
pub struct MonitoringReceipt {
    pub model: Pubkey,
    pub checker: Pubkey,
    pub accuracy: u64,
    pub precision: u64,
    pub recall: u64,
    pub f1_score: u64,
    pub drift_score: u64,
    pub metadata_uri: String,
    pub timestamp: i64,
}

/// Accounts read when a model is registered.
pub struct RegisterModel {
    pub model_key: Pubkey,
    pub owner: Pubkey,
}

/// Accounts read and written by a monitoring report.
pub struct SubmitReceipt {
    pub model_key: Pubkey,
    pub model: ModelAccount,
    pub receipt_key: Pubkey,
    pub owner: Pubkey,
}

/// Accounts read and written when the insurance flag changes.
pub struct UpdateInsuranceStatus {
    pub model: ModelAccount,
    pub owner: Pubkey,
    /// The insurance program, which may change the flag as well as the owner.
    pub insurance_program: Pubkey,
}

/// Accounts read and written when the market flag changes.
pub struct UpdateMarketStatus {
    pub model: ModelAccount,
    pub owner: Pubkey,
    /// The market program, which may change the flag as well as the owner.
    pub market_program: Pubkey,
}

#[derive(Clone, Debug)]
pub struct ModelRegistered {
    pub model_key: Pubkey,
    pub owner: Pubkey,
    pub model_id: String,
    pub name: String,
    pub timestamp: i64,
}

#[derive(Clone, Copy, Debug)]
pub struct ReceiptSubmitted {
    pub model_key: Pubkey,
    pub receipt_key: Pubkey,
    pub accuracy: u64,
    pub drift_score: u64,
    pub timestamp: i64,
}

#[derive(Clone, Copy, Debug)]
pub struct DriftAlert {
    pub model_key: Pubkey,
    pub accuracy_drop: u64,
    pub current_accuracy: u64,
    pub timestamp: i64,
}

/// The notifications of an accepted report: the receipt, and an alert when
/// the report shows drift.
#[derive(Clone, Copy, Debug)]
pub struct ReceiptEvents {
    pub submitted: ReceiptSubmitted,
    pub alert: Option<DriftAlert>,
}

/// How far `accuracy` lies below `baseline`; zero when it does not.
pub open spec fn accuracy_drop(baseline: u64, accuracy: u64) -> u64 {
    if baseline > accuracy {
        (baseline - accuracy) as u64
    } else {
        0
    }
}

/// Whether a report of `accuracy` against `baseline` shows drift.
pub open spec fn shows_drift(baseline: u64, accuracy: u64) -> bool {
    accuracy_drop(baseline, accuracy) > DRIFT_ALERT_DROP
}

/// The model after a report of `accuracy` at `now`.
pub open spec fn model_after_report(m: ModelAccount, accuracy: u64, now: i64) -> ModelAccount {
    ModelAccount {
        current_accuracy: accuracy,
        total_checks: (m.total_checks + 1) as u64,
        last_check_at: now,
        drift_alerts: if shows_drift(m.baseline_accuracy, accuracy) {
            (m.drift_alerts + 1) as u64
        } else {
            m.drift_alerts
        },
        status: if shows_drift(m.baseline_accuracy, accuracy) {
            ModelStatus::DriftDetected
        } else {
            m.status
        },
        ..m
    }
}

/// Registers a model with its baseline accuracy; it starts active, with no
/// checks, no alerts, no cover and no market.
pub fn register_model(
    ctx: &RegisterModel,
    now: i64,
    model_id: String,
    name: String,
    model_type: String,
    framework: String,
    baseline_accuracy: u64,
) -> (r: Result<(ModelAccount, ModelRegistered), ErrorCode>)
    ensures
        r matches Ok((m, ev)) && m == (ModelAccount {
            owner: ctx.owner,
            model_id,
            name,
            model_type,
            framework,
            baseline_accuracy,
            current_accuracy: baseline_accuracy,
            total_checks: 0,
            drift_alerts: 0,
            status: ModelStatus::Active,
            created_at: now,
            last_check_at: now,
            is_insured: false,
            has_active_market: false,
        }) && ev == (ModelRegistered {
            model_key: ctx.model_key,
            owner: ctx.owner,
            model_id,
            name,
            timestamp: now,
        }),
{
    let ev = ModelRegistered {
        model_key: ctx.model_key,
        owner: ctx.owner,
        model_id: model_id.clone(),
        name: name.clone(),
        timestamp: now,
    };
    let model = ModelAccount {
        owner: ctx.owner,
        model_id,
        name,
        model_type,
        framework,
        baseline_accuracy,
        current_accuracy: baseline_accuracy,
        total_checks: 0,
        drift_alerts: 0,
        status: ModelStatus::Active,
        created_at: now,
        last_check_at: now,
        is_insured: false,
        has_active_market: false,
    };
    Ok((model, ev))
}

/// Records a monitoring report by the model's owner: returns the receipt,
/// updates the model's latest accuracy and check count, and flags drift when
/// accuracy has dropped more than five points below the baseline. A refused
/// report leaves the model untouched.
pub fn submit_monitoring_receipt(
    ctx: &mut SubmitReceipt,
    now: i64,
    accuracy: u64,
    precision: u64,
    recall: u64,
    f1_score: u64,
    drift_score: u64,
    metadata_uri: String,
) -> (r: Result<(MonitoringReceipt, ReceiptEvents), ErrorCode>)
    requires
        old(ctx).model.total_checks < u64::MAX,
        old(ctx).model.drift_alerts < u64::MAX,
    ensures
        final(ctx).model_key == old(ctx).model_key,
        final(ctx).receipt_key == old(ctx).receipt_key,
        final(ctx).owner == old(ctx).owner,
        match r {
            Ok((receipt, events)) => {
                &&& old(ctx).owner@ == old(ctx).model.owner@
                &&& receipt == (MonitoringReceipt {
                    model: old(ctx).model_key,
                    checker: old(ctx).owner,
                    accuracy,
                    precision,
                    recall,
                    f1_score,
                    drift_score,
                    metadata_uri,
                    timestamp: now,
                })
                &&& final(ctx).model == model_after_report(old(ctx).model, accuracy, now)
                &&& events.submitted == (ReceiptSubmitted {
                    model_key: old(ctx).model_key,
                    receipt_key: old(ctx).receipt_key,
                    accuracy,
                    drift_score,
                    timestamp: now,
                })
                &&& events.alert == if shows_drift(old(ctx).model.baseline_accuracy, accuracy) {
                    Some(
                        DriftAlert {
                            model_key: old(ctx).model_key,
                            accuracy_drop: accuracy_drop(old(ctx).model.baseline_accuracy, accuracy),
                            current_accuracy: accuracy,
                            timestamp: now,
                        },
                    )
                } else {
                    None
                }
            },
            Err(e) => {
                &&& e == ErrorCode::Unauthorized
                &&& old(ctx).owner@ != old(ctx).model.owner@
                &&& final(ctx).model == old(ctx).model
            },
        },
{
    if ctx.owner != ctx.model.owner {
        return Err(ErrorCode::Unauthorized);
    }
    let receipt = MonitoringReceipt {
        model: ctx.model_key,
        checker: ctx.owner,
        accuracy,
        precision,
        recall,
        f1_score,
        drift_score,
        metadata_uri,
        timestamp: now,
    };
    ctx.model.current_accuracy = accuracy;
    ctx.model.total_checks = ctx.model.total_checks + 1;
    ctx.model.last_check_at = now;
    let drop = if ctx.model.baseline_accuracy > accuracy {
        ctx.model.baseline_accuracy - accuracy
    } else {
        0
    };
    let alert = if drop > DRIFT_ALERT_DROP {
        ctx.model.drift_alerts = ctx.model.drift_alerts + 1;
        ctx.model.status = ModelStatus::DriftDetected;
        Some(
            DriftAlert {
                model_key: ctx.model_key,
                accuracy_drop: drop,
                current_accuracy: accuracy,
                timestamp: now,
            },
        )
    } else {
        None
    };
    let submitted = ReceiptSubmitted {
        model_key: ctx.model_key,
        receipt_key: ctx.receipt_key,
        accuracy,
        drift_score,
        timestamp: now,
    };
    Ok((receipt, ReceiptEvents { submitted, alert }))
}

/// Sets whether the model is insured; the owner or the insurance program may.
pub fn update_insurance_status(ctx: &mut UpdateInsuranceStatus, is_insured: bool) -> (r: Result<
    (),
    ErrorCode,
>)
    ensures
        final(ctx).owner == old(ctx).owner,
        final(ctx).insurance_program == old(ctx).insurance_program,
        old(ctx).owner@ == old(ctx).model.owner@ || old(ctx).owner@ == old(ctx).insurance_program@
            ==> r is Ok && final(ctx).model == (ModelAccount { is_insured, ..old(ctx).model }),
        !(old(ctx).owner@ == old(ctx).model.owner@ || old(ctx).owner@
            == old(ctx).insurance_program@) ==> r == Err::<(), ErrorCode>(ErrorCode::Unauthorized)
            && final(ctx).model == old(ctx).model,
{
    if !(ctx.owner == ctx.model.owner || ctx.owner == ctx.insurance_program) {
        return Err(ErrorCode::Unauthorized);
    }
    ctx.model.is_insured = is_insured;
    Ok(())
}

/// Sets whether the model has an open market; the owner or the market program
/// may.
pub fn update_market_status(ctx: &mut UpdateMarketStatus, has_active_market: bool) -> (r: Result<
    (),
    ErrorCode,
>)
    ensures
        final(ctx).owner == old(ctx).owner,
        final(ctx).market_program == old(ctx).market_program,
        old(ctx).owner@ == old(ctx).model.owner@ || old(ctx).owner@ == old(ctx).market_program@
            ==> r is Ok && final(ctx).model == (ModelAccount { has_active_market, ..old(ctx).model }),
        !(old(ctx).owner@ == old(ctx).model.owner@ || old(ctx).owner@
            == old(ctx).market_program@) ==> r == Err::<(), ErrorCode>(ErrorCode::Unauthorized)
            && final(ctx).model == old(ctx).model,
{
    if !(ctx.owner == ctx.model.owner || ctx.owner == ctx.market_program) {
        return Err(ErrorCode::Unauthorized);
    }
    ctx.model.has_active_market = has_active_market;
    Ok(())
}

} // verus!
