use driftshield::accounts::Pubkey;
use driftshield::model_registry::{
    register_model, submit_monitoring_receipt, update_insurance_status, update_market_status,
    ErrorCode, ModelAccount, ModelStatus, RegisterModel, SubmitReceipt, UpdateInsuranceStatus,
    UpdateMarketStatus,
};

fn key(b: u8) -> Pubkey {
    Pubkey::new([b; 32])
}

fn model() -> ModelAccount {
    let ctx = RegisterModel { model_key: key(2), owner: key(1) };
    let (m, _) = register_model(
        &ctx,
        50,
        "fraud-v3".to_string(),
        "Fraud detector".to_string(),
        "classifier".to_string(),
        "pytorch".to_string(),
        9_420,
    )
    .unwrap();
    m
}

fn report(m: ModelAccount, owner: u8, accuracy: u64) -> (SubmitReceipt, Result<(), ErrorCode>, bool) {
    let mut ctx = SubmitReceipt { model_key: key(2), model: m, receipt_key: key(3), owner: key(owner) };
    let r = submit_monitoring_receipt(&mut ctx, 60, accuracy, 9_000, 8_000, 8_500, 120, "uri".to_string());
    match r {
        Ok((receipt, events)) => {
            assert_eq!(receipt.accuracy, accuracy);
            assert_eq!(receipt.checker, key(owner));
            assert_eq!(receipt.model, key(2));
            assert_eq!(events.submitted.receipt_key, key(3));
            let alerted = events.alert.is_some();
            (ctx, Ok(()), alerted)
        }
        Err(e) => (ctx, Err(e), false),
    }
}

#[test]
fn register_starts_active() {
    let ctx = RegisterModel { model_key: key(2), owner: key(1) };
    let (m, ev) = register_model(
        &ctx,
        50,
        "id".to_string(),
        "name".to_string(),
        "t".to_string(),
        "f".to_string(),
        9_420,
    )
    .unwrap();
    assert_eq!(m.status, ModelStatus::Active);
    assert_eq!(m.current_accuracy, 9_420);
    assert_eq!(m.total_checks, 0);
    assert_eq!(m.created_at, 50);
    assert!(!m.is_insured && !m.has_active_market);
    assert_eq!(ev.model_id, "id");
    assert_eq!(ev.name, "name");
}

#[test]
fn small_drop_raises_no_alert() {
    let (ctx, r, alerted) = report(model(), 1, 8_920);
    assert!(r.is_ok());
    assert!(!alerted);
    assert_eq!(ctx.model.status, ModelStatus::Active);
    assert_eq!(ctx.model.total_checks, 1);
    assert_eq!(ctx.model.current_accuracy, 8_920);
    assert_eq!(ctx.model.last_check_at, 60);
    assert_eq!(ctx.model.drift_alerts, 0);
}

#[test]
fn large_drop_raises_alert() {
    let (ctx, r, alerted) = report(model(), 1, 8_919);
    assert!(r.is_ok());
    assert!(alerted);
    assert_eq!(ctx.model.status, ModelStatus::DriftDetected);
    assert_eq!(ctx.model.drift_alerts, 1);
}

#[test]
fn improvement_raises_no_alert() {
    let (ctx, _, alerted) = report(model(), 1, 9_900);
    assert!(!alerted);
    assert_eq!(ctx.model.current_accuracy, 9_900);
}

#[test]
fn report_by_stranger_fails() {
    let (ctx, r, _) = report(model(), 9, 1);
    assert_eq!(r.unwrap_err(), ErrorCode::Unauthorized);
    assert_eq!(ctx.model.total_checks, 0);
}

#[test]
fn insurance_flag_by_owner_or_program() {
    let mut ctx = UpdateInsuranceStatus { model: model(), owner: key(1), insurance_program: key(7) };
    update_insurance_status(&mut ctx, true).unwrap();
    assert!(ctx.model.is_insured);
    ctx.owner = key(7);
    update_insurance_status(&mut ctx, false).unwrap();
    assert!(!ctx.model.is_insured);
    ctx.owner = key(8);
    assert_eq!(update_insurance_status(&mut ctx, true).unwrap_err(), ErrorCode::Unauthorized);
    assert!(!ctx.model.is_insured);
}

#[test]
fn market_flag_by_owner_or_program() {
    let mut ctx = UpdateMarketStatus { model: model(), owner: key(6), market_program: key(6) };
    update_market_status(&mut ctx, true).unwrap();
    assert!(ctx.model.has_active_market);
    ctx.owner = key(5);
    assert_eq!(update_market_status(&mut ctx, false).unwrap_err(), ErrorCode::Unauthorized);
    assert!(ctx.model.has_active_market);
}
