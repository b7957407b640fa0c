use exa_pay::amount::{parse_decimal, to_minor_units, Amount};
use exa_pay::intent::{decode, encode, DecodeError, PaymentIntent, PaymentType};
use exa_pay::text::{i64_text, parse_i64};

#[test]
fn legacy_intent_is_a_topup() {
    assert_eq!(
        decode("42"),
        Ok(PaymentIntent { user_id: 42, kind: PaymentType::BalanceTopup })
    );
}

#[test]
fn payload_strings() {
    assert_eq!(PaymentType::BalanceTopup.to_payload_string(42), "42:bal:0");
    assert_eq!(PaymentType::OrderPurchase(7).to_payload_string(42), "42:ord:7");
    assert_eq!(PaymentType::OrderPurchase(-3).to_payload_string(-1), "-1:ord:-3");
}

#[test]
fn round_trip_examples() {
    let cases = [
        PaymentIntent { user_id: 42, kind: PaymentType::BalanceTopup },
        PaymentIntent { user_id: 1, kind: PaymentType::OrderPurchase(7) },
        PaymentIntent { user_id: i64::MAX, kind: PaymentType::OrderPurchase(i64::MAX) },
    ];
    for intent in cases {
        assert_eq!(decode(&encode(&intent)), Ok(intent));
    }
}

#[test]
fn structured_decoding() {
    assert_eq!(
        decode("42:ord:7"),
        Ok(PaymentIntent { user_id: 42, kind: PaymentType::OrderPurchase(7) })
    );
    assert_eq!(
        decode("42:ord:7:extra:fields"),
        Ok(PaymentIntent { user_id: 42, kind: PaymentType::OrderPurchase(7) })
    );
    assert_eq!(
        decode("42:bal:99"),
        Ok(PaymentIntent { user_id: 42, kind: PaymentType::BalanceTopup })
    );
}

#[test]
fn invalid_intents() {
    for s in ["", "0", "-5", "abc", "42:bal", "x:bal:0", "0:bal:0", "42:xyz:0", "42:ord:x", "42:ord:0", "42:ord:-1", ":bal:0"] {
        assert_eq!(decode(s), Err(DecodeError::Invalid), "{}", s);
    }
}

#[test]
fn integer_text() {
    assert_eq!(i64_text(0), "0");
    assert_eq!(i64_text(-120), "-120");
    assert_eq!(i64_text(i64::MIN), "-9223372036854775808");
    assert_eq!(parse_i64("+7"), Some(7));
    assert_eq!(parse_i64("-9223372036854775808"), Some(i64::MIN));
    assert_eq!(parse_i64("9223372036854775808"), None);
    assert_eq!(parse_i64("99999999999999999999999"), None);
    assert_eq!(parse_i64("-"), None);
    assert_eq!(parse_i64("1a"), None);
}

#[test]
fn decimal_amounts() {
    assert_eq!(parse_decimal("25.00"), Some(Amount { units: 2500, scale: 2 }));
    assert_eq!(parse_decimal("7"), Some(Amount { units: 7, scale: 0 }));
    for s in ["", "1.", ".5", "-1", "1e5", "1.2.3", "18446744073709551616", "0.1234567890123456789"] {
        assert_eq!(parse_decimal(s), None, "{}", s);
    }
}

#[test]
fn minor_units_round_half_up() {
    assert_eq!(to_minor_units(&Amount { units: 2500, scale: 2 }), Some(2500));
    assert_eq!(to_minor_units(&Amount { units: 25, scale: 0 }), Some(2500));
    assert_eq!(to_minor_units(&Amount { units: 125, scale: 3 }), Some(13));
    assert_eq!(to_minor_units(&Amount { units: 124, scale: 3 }), Some(12));
    assert_eq!(to_minor_units(&Amount { units: 1999, scale: 4 }), Some(20));
    assert_eq!(to_minor_units(&Amount { units: u64::MAX, scale: 0 }), None);
}
