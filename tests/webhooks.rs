use exa_pay::amount::Amount;
use exa_pay::invoice::{invoice_url, ProviderError};
use exa_pay::webhook::{normalize, NormalizeError, PaymentEvent, Provider};

fn event(p: Provider, body: &str) -> PaymentEvent {
    normalize(p, body).unwrap().unwrap()
}

#[test]
fn cryptobot_paid_invoice() {
    let body = r#"{"update_type":"invoice_paid","update_payload":{"invoice_id":123,"status":"paid","amount":"25.00","payload":"42:bal:0"}}"#;
    let e = event(Provider::CryptoBot, body);
    assert_eq!(e.provider, Provider::CryptoBot);
    assert_eq!(e.external_id, "123");
    assert_eq!(e.amount_usd, Amount { units: 2500, scale: 2 });
    assert_eq!(e.raw_intent, "42:bal:0");
}

#[test]
fn cryptobot_unpaid_is_not_an_event() {
    let body = r#"{"update_type":"invoice_paid","update_payload":{"invoice_id":1,"status":"active","amount":"25.00","payload":"42:bal:0"}}"#;
    assert!(matches!(normalize(Provider::CryptoBot, body), Ok(None)));
    let other = r#"{"update_type":"invoice_created"}"#;
    assert!(matches!(normalize(Provider::CryptoBot, other), Ok(None)));
}

#[test]
fn missing_amount_is_malformed() {
    let body = r#"{"update_type":"invoice_paid","update_payload":{"invoice_id":1,"status":"paid","payload":"42:bal:0"}}"#;
    assert!(matches!(normalize(Provider::CryptoBot, body), Err(NormalizeError::Malformed)));
    let bad = r#"{"update_type":"invoice_paid","update_payload":{"invoice_id":1,"status":"paid","amount":"abc","payload":"42:bal:0"}}"#;
    assert!(matches!(normalize(Provider::CryptoBot, bad), Err(NormalizeError::Malformed)));
    let no_intent = r#"{"update_type":"invoice_paid","update_payload":{"invoice_id":1,"status":"paid","amount":"1.00"}}"#;
    assert!(matches!(normalize(Provider::CryptoBot, no_intent), Err(NormalizeError::Malformed)));
}

#[test]
fn body_that_is_not_json() {
    assert!(matches!(normalize(Provider::Stripe, "not json"), Err(NormalizeError::Malformed)));
}

#[test]
fn nowpayments_finished() {
    let body = r#"{"payment_status":"finished","pay_amount":12.5,"order_id":"42:ord:7_1700000000","payment_id":5077125051}"#;
    let e = event(Provider::NowPayments, body);
    assert_eq!(e.external_id, "5077125051");
    assert_eq!(e.amount_usd, Amount { units: 125, scale: 1 });
    assert_eq!(e.raw_intent, "42:ord:7");
    let waiting = r#"{"payment_status":"waiting","pay_amount":12.5,"order_id":"42:ord:7_1","payment_id":1}"#;
    assert!(matches!(normalize(Provider::NowPayments, waiting), Ok(None)));
}

#[test]
fn crystalpay_payed() {
    let body = r#"{"type":"payment","state":"payed","amount":10,"extra":"42:bal:0","id":"cp_1"}"#;
    let e = event(Provider::CrystalPay, body);
    assert_eq!(e.external_id, "cp_1");
    assert_eq!(e.amount_usd, Amount { units: 10, scale: 0 });
    assert_eq!(e.raw_intent, "42:bal:0");
}

#[test]
fn stripe_completed_session() {
    let body = r#"{"type":"checkout.session.completed","data":{"object":{"id":"cs_9","amount_total":2500,"client_reference_id":"42:bal:0"}}}"#;
    let e = event(Provider::Stripe, body);
    assert_eq!(e.external_id, "cs_9");
    assert_eq!(e.amount_usd, Amount { units: 2500, scale: 2 });
    let fractional = r#"{"type":"checkout.session.completed","data":{"object":{"id":"cs_9","amount_total":25.5,"client_reference_id":"42:bal:0"}}}"#;
    assert!(matches!(normalize(Provider::Stripe, fractional), Err(NormalizeError::Malformed)));
}

#[test]
fn provider_routes() {
    assert_eq!(Provider::from_source("stripe"), Some(Provider::Stripe));
    assert_eq!(Provider::from_source("cryptobot"), Some(Provider::CryptoBot));
    assert_eq!(Provider::from_source("paypal"), None);
}

#[test]
fn invoice_answers() {
    let ok = r#"{"ok":true,"result":{"invoice_id":1,"bot_invoice_url":"https://t.me/pay?x"}}"#;
    assert_eq!(invoice_url(Provider::CryptoBot, ok).unwrap(), "https://t.me/pay?x");
    let refused = r#"{"ok":false,"error":{"code":400}}"#;
    match invoice_url(Provider::CryptoBot, refused) {
        Err(ProviderError::Rejected(d)) => assert_eq!(d, refused),
        other => panic!("{:?}", other),
    }
    let crystal = r#"{"error":false,"errors":[],"data":{"id":"x","url":"https://pay.crystalpay.io/?i=x"}}"#;
    assert_eq!(invoice_url(Provider::CrystalPay, crystal).unwrap(), "https://pay.crystalpay.io/?i=x");
    assert!(invoice_url(Provider::CrystalPay, r#"{"data":{"url":"u"}}"#).is_err());
    assert_eq!(invoice_url(Provider::Stripe, r#"{"url":"https://checkout"}"#).unwrap(), "https://checkout");
    assert!(invoice_url(Provider::NowPayments, r#"{"message":"bad"}"#).is_err());
}

#[test]
fn invoice_answers_without_url() {
    assert_eq!(invoice_url(Provider::CryptoBot, r#"{"ok":true,"result":{}}"#).unwrap(), "");
    assert_eq!(invoice_url(Provider::CrystalPay, r#"{"error":false}"#).unwrap(), "");
    assert_eq!(invoice_url(Provider::Stripe, r#"{"url":""}"#).unwrap(), "");
    assert_eq!(invoice_url(Provider::NowPayments, r#"{"invoice_url":""}"#).unwrap(), "");
    assert!(invoice_url(Provider::Stripe, r#"{"url":null}"#).is_err());
    assert!(invoice_url(Provider::CrystalPay, r#"{"error":true,"data":{"url":"u"}}"#).is_err());
    assert!(invoice_url(Provider::CryptoBot, "not json").is_err());
}

#[test]
fn provider_names_are_routes() {
    for p in [Provider::CryptoBot, Provider::NowPayments, Provider::CrystalPay, Provider::Stripe] {
        assert_eq!(Provider::from_source(p.name()), Some(p));
    }
}
