use exa_pay::amount::Amount;
use exa_pay::dispatch::{post_commit_actions, usd_string, PostCommit};
use exa_pay::intent::PaymentType;
use exa_pay::ledger::{Ledger, PaymentStatus, ReconcileError, ReconcileOutcome, Receipt};
use exa_pay::service::{handle_webhook, WebhookError};
use exa_pay::webhook::{NormalizeError, PaymentEvent, Provider};

fn topup_event(id: &str, intent: &str, units: u64, scale: u32) -> PaymentEvent {
    PaymentEvent {
        provider: Provider::CryptoBot,
        external_id: id.to_string(),
        amount_usd: Amount { units, scale },
        raw_intent: intent.to_string(),
    }
}

#[test]
fn topup_credits_balance() {
    let mut l = Ledger::new(10);
    assert!(l.add_user(42, None));
    let r = l.reconcile(&topup_event("x1", "42:bal:0", 2500, 2)).unwrap();
    assert_eq!(
        r,
        ReconcileOutcome::Committed(Receipt {
            payment_id: 1,
            user_id: 42,
            amount_minor: 2500,
            kind: PaymentType::BalanceTopup,
            referral: None,
        })
    );
    assert_eq!(l.balance_of(42), Some(2500));
    assert_eq!(l.payment_count(), 1);
    assert_eq!(l.payments[0].status, PaymentStatus::Paid);
    assert_eq!(l.payments[0].amount_minor, 2500);
    assert_eq!(l.payments[0].id, 1);
    assert_eq!(l.next_payment_id, 2);
}

#[test]
fn settled_order_is_refused() {
    let mut l = Ledger::new(10);
    l.add_user(42, None);
    l.add_order(7);
    let first = topup_event("o1", "42:ord:7", 500, 2);
    assert!(matches!(l.reconcile(&first), Ok(ReconcileOutcome::Committed(_))));
    assert_eq!(l.order_settled(7), Some(true));
    let count = l.payment_count();
    let second = topup_event("o2", "42:ord:7", 500, 2);
    assert_eq!(l.reconcile(&second), Err(ReconcileError::OrderInvalid));
    assert_eq!(l.payment_count(), count);
}

#[test]
fn unknown_order_is_refused() {
    let mut l = Ledger::new(10);
    l.add_user(42, None);
    assert_eq!(l.reconcile(&topup_event("o9", "42:ord:9", 500, 2)), Err(ReconcileError::OrderInvalid));
    assert_eq!(l.payment_count(), 0);
}

#[test]
fn redelivery_credits_once() {
    let mut l = Ledger::new(10);
    l.add_user(42, None);
    let e = topup_event("abc123", "42:bal:0", 2500, 2);
    assert!(matches!(l.reconcile(&e), Ok(ReconcileOutcome::Committed(_))));
    assert_eq!(l.reconcile(&e), Ok(ReconcileOutcome::AlreadyProcessed));
    assert_eq!(l.balance_of(42), Some(2500));
    assert_eq!(l.payment_count(), 1);
}

#[test]
fn same_id_other_provider_is_new() {
    let mut l = Ledger::new(0);
    l.add_user(42, None);
    let e = topup_event("abc123", "42:bal:0", 100, 2);
    let mut f = e.clone();
    f.provider = Provider::Stripe;
    l.reconcile(&e).unwrap();
    assert!(matches!(l.reconcile(&f), Ok(ReconcileOutcome::Committed(_))));
    assert_eq!(l.balance_of(42), Some(200));
}

#[test]
fn referral_bonus_with_topup() {
    let mut l = Ledger::new(10);
    l.add_user(1, None);
    l.add_user(42, Some(1));
    let r = l.reconcile(&topup_event("r1", "42:bal:0", 2500, 2)).unwrap();
    match r {
        ReconcileOutcome::Committed(rc) => assert_eq!(rc.referral, Some((1, 250))),
        _ => panic!("not committed"),
    }
    assert_eq!(l.balance_of(42), Some(2500));
    assert_eq!(l.balance_of(1), Some(250));
}

#[test]
fn failed_topup_grants_no_bonus() {
    let mut l = Ledger::new(10);
    l.add_user(1, None);
    l.add_user(42, Some(1));
    l.reconcile(&topup_event("big", "1:bal:0", i64::MAX as u64 - 100, 2)).unwrap();
    assert_eq!(
        l.reconcile(&topup_event("r2", "42:bal:0", 2500, 2)),
        Err(ReconcileError::StoreFailure)
    );
    assert_eq!(l.balance_of(42), Some(0));
    assert_eq!(l.balance_of(1), Some(i64::MAX - 100));
    assert_eq!(l.payment_count(), 1);
}

#[test]
fn errors_of_reconcile() {
    let mut l = Ledger::new(10);
    l.add_user(42, None);
    assert_eq!(l.reconcile(&topup_event("a", "0:bal:0", 1, 0)), Err(ReconcileError::InvalidIntent));
    assert_eq!(l.reconcile(&topup_event("b", "43:bal:0", 1, 0)), Err(ReconcileError::StoreFailure));
    assert_eq!(
        l.reconcile(&topup_event("c", "42:bal:0", u64::MAX, 0)),
        Err(ReconcileError::StoreFailure)
    );
    assert_eq!(l.payment_count(), 0);
    assert_eq!(l.balance_of(42), Some(0));
}

#[test]
fn duplicate_accounts_are_refused() {
    let mut l = Ledger::new(10);
    assert!(l.add_user(1, None));
    assert!(!l.add_user(1, Some(2)));
    assert!(l.add_order(3));
    assert!(!l.add_order(3));
    assert_eq!(l.order_settled(4), None);
    assert_eq!(l.balance_of(2), None);
}

#[test]
fn webhook_end_to_end() {
    let mut l = Ledger::new(10);
    l.add_user(42, None);
    let body = r#"{"update_type":"invoice_paid","update_payload":{"invoice_id":77,"status":"paid","amount":"25.00","payload":"42:bal:0"}}"#;
    assert!(matches!(handle_webhook(&mut l, "cryptobot", body), Ok(Some(ReconcileOutcome::Committed(_)))));
    assert_eq!(handle_webhook(&mut l, "cryptobot", body), Ok(Some(ReconcileOutcome::AlreadyProcessed)));
    assert_eq!(l.balance_of(42), Some(2500));
    assert_eq!(handle_webhook(&mut l, "unknown", body), Ok(None));
    assert_eq!(
        handle_webhook(&mut l, "unknown", "not json"),
        Err(WebhookError::Normalize(NormalizeError::Malformed))
    );
    assert_eq!(
        handle_webhook(&mut l, "stripe", "{"),
        Err(WebhookError::Normalize(NormalizeError::Malformed))
    );
}

#[test]
fn money_text() {
    assert_eq!(usd_string(2500), "25.00");
    assert_eq!(usd_string(5), "0.05");
    assert_eq!(usd_string(123456), "1234.56");
}

#[test]
fn actions_after_commit() {
    let rc = Receipt {
        payment_id: 1,
        user_id: 42,
        amount_minor: 2500,
        kind: PaymentType::BalanceTopup,
        referral: Some((1, 250)),
    };
    let a = post_commit_actions(&rc);
    assert_eq!(a.len(), 3);
    match &a[0] {
        PostCommit::Notify { user_id, message } => {
            assert_eq!(*user_id, 1);
            assert_eq!(message, "🎉 *Referral Bonus* from your invited user!\n+$2.50");
        }
        _ => panic!(),
    }
    match &a[1] {
        PostCommit::Notify { user_id, message } => {
            assert_eq!(*user_id, 42);
            assert_eq!(message, "✅ Balance topped up: +$25.00");
        }
        _ => panic!(),
    }
    assert!(matches!(a[2], PostCommit::TrackRevenue { amount_minor: 2500 }));
}
