//! Provider callbacks: each provider's JSON notification turned into one
//! canonical payment event.

use vstd::prelude::*;
use crate::amount::{parse_decimal, parse_decimal_spec, Amount};
use crate::text::{char_index, find_char, text_is};

verus! {

/// The payment providers whose callbacks are understood.
#[derive(Debug, Clone, Copy, PartialEq, Eq, Structural)]
pub enum Provider {
    CryptoBot,
    NowPayments,
    CrystalPay,
    Stripe,
}

/// One value of a JSON document, as far as normalisation reads it.
#[derive(Debug, Clone, PartialEq, Eq)]
pub enum JsonField {
    /// Nothing stands at the requested place.
    Absent,
    Null,
    Bool(bool),
    /// A number, in its JSON text.
    Number(String),
    Text(String),
    /// An array or an object.
    Compound,
}

/// A completed payment as reported by a provider.
#[derive(Debug, Clone)]
pub struct PaymentEvent {
    pub provider: Provider,
    pub external_id: String,
    pub amount_usd: Amount,
    pub raw_intent: String,
}

/// Provider, external id, amount and intent text of an event.
pub type EventView = (Provider, Seq<char>, Amount, Seq<char>);

impl View for PaymentEvent {
    type V = EventView;

    open spec fn view(&self) -> EventView {
        (self.provider, self.external_id@, self.amount_usd, self.raw_intent@)
    }
}

#[derive(Debug, Clone, Copy, PartialEq, Eq, Structural)]
pub enum NormalizeError {
    /// The body is not JSON, or a field the event needs is missing or
    /// unreadable.
    Malformed,
}

/// How a provider states the amount it was paid.
#[derive(Debug, Clone, Copy, PartialEq, Eq, Structural)]
pub enum AmountForm {
    /// A JSON string holding a decimal.
    DecimalText,
    /// A JSON number in major units.
    DecimalNumber,
    /// A JSON integer in minor units (cents).
    MinorUnits,
}

/// The value at a JSON pointer of a JSON text; `None` where the text is not
/// JSON.
pub uninterp spec fn json_field_at(body: Seq<char>, pointer: Seq<char>) -> Option<JsonField>;

/// Relies on `serde_json::from_str` into a `serde_json::Value`, on
/// `Value::pointer`, which finds the value that `pointer` (RFC 6901)
/// addresses, and on the `Display` of `serde_json::Number` for a number's
/// text. The result depends on the two texts alone.
#[verifier::external_body]
pub(crate) fn json_field(body: &str, pointer: &str) -> (r: Option<JsonField>)
    ensures
        r == json_field_at(body@, pointer@),
{
    match serde_json::from_str::<serde_json::Value>(body) {
        Err(_) => None,
        Ok(v) => Some(match v.pointer(pointer) {
            None => JsonField::Absent,
            Some(serde_json::Value::Null) => JsonField::Null,
            Some(serde_json::Value::Bool(b)) => JsonField::Bool(*b),
            Some(serde_json::Value::Number(n)) => JsonField::Number(n.to_string()),
            Some(serde_json::Value::String(s)) => JsonField::Text(s.clone()),
            Some(_) => JsonField::Compound,
        }),
    }
}

pub open spec fn event_result_view(r: Result<Option<PaymentEvent>, NormalizeError>) -> Result<
    Option<EventView>,
    NormalizeError,
> {
    match r {
        Ok(Some(e)) => Ok(Some(e@)),
        Ok(None) => Ok(None),
        Err(x) => Err(x),
    }
}

/// The field is the JSON string `v`.
pub open spec fn is_text(f: Option<JsonField>, v: Seq<char>) -> bool {
    match f {
        Some(JsonField::Text(s)) => s@ == v,
        _ => false,
    }
}

/// A non-empty JSON string.
pub open spec fn nonempty_text(f: Option<JsonField>) -> Option<Seq<char>> {
    match f {
        Some(JsonField::Text(s)) => if s@.len() > 0 { Some(s@) } else { None },
        _ => None,
    }
}

/// An identifier: a non-empty string, or a number in its JSON text.
pub open spec fn id_text(f: Option<JsonField>) -> Option<Seq<char>> {
    match f {
        Some(JsonField::Text(s)) => if s@.len() > 0 { Some(s@) } else { None },
        Some(JsonField::Number(t)) => Some(t@),
        _ => None,
    }
}

pub open spec fn amount_of(f: Option<JsonField>, form: AmountForm) -> Option<Amount> {
    match (form, f) {
        (AmountForm::DecimalText, Some(JsonField::Text(s))) => parse_decimal_spec(s@),
        (AmountForm::DecimalNumber, Some(JsonField::Number(t))) => parse_decimal_spec(t@),
        (AmountForm::MinorUnits, Some(JsonField::Number(t))) => match parse_decimal_spec(t@) {
            Some(a) => if a.scale == 0 { Some(Amount { units: a.units, scale: 2 }) } else { None },
            None => None,
        },
        _ => None,
    }
}

/// The intent text that an order reference carries before its first `_`.
pub open spec fn before_underscore(s: Seq<char>) -> Seq<char> {
    if char_index(s, '_') < 0 { s } else { s.subrange(0, char_index(s, '_')) }
}

/// The event of a settled payment; a missing or unreadable amount, intent or
/// id makes the body malformed.
pub open spec fn event_spec(
    p: Provider,
    amount: Option<JsonField>,
    form: AmountForm,
    intent: Option<Seq<char>>,
    id: Option<JsonField>,
) -> Result<Option<EventView>, NormalizeError> {
    match (amount_of(amount, form), intent, id_text(id)) {
        (Some(a), Some(i), Some(x)) => if i.len() > 0 {
            Ok(Some((p, x, a, i)))
        } else {
            Err(NormalizeError::Malformed)
        },
        _ => Err(NormalizeError::Malformed),
    }
}

pub open spec fn cryptobot_spec(
    update_type: Option<JsonField>,
    status: Option<JsonField>,
    amount: Option<JsonField>,
    payload: Option<JsonField>,
    invoice_id: Option<JsonField>,
) -> Result<Option<EventView>, NormalizeError> {
    if is_text(update_type, seq!['i', 'n', 'v', 'o', 'i', 'c', 'e', '_', 'p', 'a', 'i', 'd'])
        && is_text(status, seq!['p', 'a', 'i', 'd']) {
        event_spec(Provider::CryptoBot, amount, AmountForm::DecimalText, nonempty_text(payload), invoice_id)
    } else {
        Ok(None)
    }
}

pub open spec fn nowpayments_spec(
    status: Option<JsonField>,
    amount: Option<JsonField>,
    order_id: Option<JsonField>,
    payment_id: Option<JsonField>,
) -> Result<Option<EventView>, NormalizeError> {
    if is_text(status, seq!['f', 'i', 'n', 'i', 's', 'h', 'e', 'd']) {
        let intent = match nonempty_text(order_id) {
            Some(o) => Some(before_underscore(o)),
            None => None,
        };
        event_spec(Provider::NowPayments, amount, AmountForm::DecimalNumber, intent, payment_id)
    } else {
        Ok(None)
    }
}

pub open spec fn crystalpay_spec(
    kind: Option<JsonField>,
    state: Option<JsonField>,
    amount: Option<JsonField>,
    extra: Option<JsonField>,
    id: Option<JsonField>,
) -> Result<Option<EventView>, NormalizeError> {
    if is_text(kind, seq!['p', 'a', 'y', 'm', 'e', 'n', 't']) && is_text(state, seq!['p', 'a', 'y', 'e', 'd']) {
        event_spec(Provider::CrystalPay, amount, AmountForm::DecimalNumber, nonempty_text(extra), id)
    } else {
        Ok(None)
    }
}

pub open spec fn stripe_event_type() -> Seq<char> {
    seq![
        'c', 'h', 'e', 'c', 'k', 'o', 'u', 't', '.', 's', 'e', 's', 's', 'i', 'o', 'n', '.',
        'c', 'o', 'm', 'p', 'l', 'e', 't', 'e', 'd',
    ]
}

pub open spec fn stripe_spec(
    kind: Option<JsonField>,
    amount_total: Option<JsonField>,
    reference: Option<JsonField>,
    id: Option<JsonField>,
) -> Result<Option<EventView>, NormalizeError> {
    if is_text(kind, stripe_event_type()) {
        event_spec(Provider::Stripe, amount_total, AmountForm::MinorUnits, nonempty_text(reference), id)
    } else {
        Ok(None)
    }
}

/// What a provider's callback body means.
pub open spec fn normalize_spec(p: Provider, body: Seq<char>) -> Result<Option<EventView>, NormalizeError> {
    if json_field_at(body, Seq::empty()) is None {
        Err(NormalizeError::Malformed)
    } else {
        match p {
            Provider::CryptoBot => cryptobot_spec(
                json_field_at(body, "/update_type"@),
                json_field_at(body, "/update_payload/status"@),
                json_field_at(body, "/update_payload/amount"@),
                json_field_at(body, "/update_payload/payload"@),
                json_field_at(body, "/update_payload/invoice_id"@),
            ),
            Provider::NowPayments => nowpayments_spec(
                json_field_at(body, "/payment_status"@),
                json_field_at(body, "/pay_amount"@),
                json_field_at(body, "/order_id"@),
                json_field_at(body, "/payment_id"@),
            ),
            Provider::CrystalPay => crystalpay_spec(
                json_field_at(body, "/type"@),
                json_field_at(body, "/state"@),
                json_field_at(body, "/amount"@),
                json_field_at(body, "/extra"@),
                json_field_at(body, "/id"@),
            ),
            Provider::Stripe => stripe_spec(
                json_field_at(body, "/type"@),
                json_field_at(body, "/data/object/amount_total"@),
                json_field_at(body, "/data/object/client_reference_id"@),
                json_field_at(body, "/data/object/id"@),
            ),
        }
    }
}

fn field_is(f: &Option<JsonField>, v: &str) -> (r: bool)
    ensures
        r == is_text(*f, v@),
{
    match f {
        Some(JsonField::Text(s)) => text_is(s.as_str(), v),
        _ => false,
    }
}

fn field_text(f: &Option<JsonField>) -> (r: Option<String>)
    ensures
        r matches Some(s) ==> nonempty_text(*f) == Some(s@),
        r is None ==> nonempty_text(*f) is None,
{
    match f {
        Some(JsonField::Text(s)) => if s.as_str().unicode_len() > 0 {
            Some(s.clone())
        } else {
            None
        },
        _ => None,
    }
}

fn field_id(f: &Option<JsonField>) -> (r: Option<String>)
    ensures
        r matches Some(s) ==> id_text(*f) == Some(s@),
        r is None ==> id_text(*f) is None,
{
    match f {
        Some(JsonField::Text(s)) => if s.as_str().unicode_len() > 0 {
            Some(s.clone())
        } else {
            None
        },
        Some(JsonField::Number(t)) => Some(t.clone()),
        _ => None,
    }
}

fn field_amount(f: &Option<JsonField>, form: AmountForm) -> (r: Option<Amount>)
    ensures
        r == amount_of(*f, form),
        r matches Some(a) ==> a.wf(),
{
    match (form, f) {
        (AmountForm::DecimalText, Some(JsonField::Text(s))) => parse_decimal(s.as_str()),
        (AmountForm::DecimalNumber, Some(JsonField::Number(t))) => parse_decimal(t.as_str()),
        (AmountForm::MinorUnits, Some(JsonField::Number(t))) => match parse_decimal(t.as_str()) {
            Some(a) => if a.scale == 0 {
                Some(Amount { units: a.units, scale: 2 })
            } else {
                None
            },
            None => None,
        },
        _ => None,
    }
}

/// The part of `s` before its first `_`.
fn cut_underscore(s: &str) -> (r: String)
    ensures
        r@ == before_underscore(s@),
{
    let len = s.unicode_len();
    proof {
        assert(s@.subrange(0, len as int) =~= s@);
    }
    match find_char(s, 0, '_') {
        Some(k) => String::from_str(s.substring_char(0, k)),
        None => String::from_str(s),
    }
}

/// Builds the event of a settled payment from its fields.
pub fn build_event(
    p: Provider,
    amount: &Option<JsonField>,
    form: AmountForm,
    intent: Option<String>,
    id: &Option<JsonField>,
) -> (r: Result<Option<PaymentEvent>, NormalizeError>)
    ensures
        event_result_view(r) == event_spec(
            p,
            *amount,
            form,
            match intent {
                Some(s) => Some(s@),
                None => None,
            },
            *id,
        ),
        r matches Ok(Some(e)) ==> e.amount_usd.wf(),
{
    let a = match field_amount(amount, form) {
        Some(a) => a,
        None => return Err(NormalizeError::Malformed),
    };
    let i = match intent {
        Some(i) => i,
        None => return Err(NormalizeError::Malformed),
    };
    let x = match field_id(id) {
        Some(x) => x,
        None => return Err(NormalizeError::Malformed),
    };
    if i.as_str().unicode_len() == 0 {
        return Err(NormalizeError::Malformed);
    }
    Ok(Some(PaymentEvent { provider: p, external_id: x, amount_usd: a, raw_intent: i }))
}

/// CryptoBot: an `invoice_paid` update whose invoice status is `paid`; the
/// amount is a decimal string.
pub fn normalize_cryptobot(
    update_type: &Option<JsonField>,
    status: &Option<JsonField>,
    amount: &Option<JsonField>,
    payload: &Option<JsonField>,
    invoice_id: &Option<JsonField>,
) -> (r: Result<Option<PaymentEvent>, NormalizeError>)
    ensures
        event_result_view(r) == cryptobot_spec(*update_type, *status, *amount, *payload, *invoice_id),
        r matches Ok(Some(e)) ==> e.amount_usd.wf(),
{
    proof {
        reveal_strlit("invoice_paid");
        reveal_strlit("paid");
    }
    assert("invoice_paid"@ =~= seq!['i', 'n', 'v', 'o', 'i', 'c', 'e', '_', 'p', 'a', 'i', 'd']);
    assert("paid"@ =~= seq!['p', 'a', 'i', 'd']);
    if field_is(update_type, "invoice_paid") && field_is(status, "paid") {
        build_event(Provider::CryptoBot, amount, AmountForm::DecimalText, field_text(payload), invoice_id)
    } else {
        Ok(None)
    }
}

/// NOWPayments: a `finished` payment; the amount is a JSON number and the
/// intent is the order reference up to its first `_`.
pub fn normalize_nowpayments(
    status: &Option<JsonField>,
    amount: &Option<JsonField>,
    order_id: &Option<JsonField>,
    payment_id: &Option<JsonField>,
) -> (r: Result<Option<PaymentEvent>, NormalizeError>)
    ensures
        event_result_view(r) == nowpayments_spec(*status, *amount, *order_id, *payment_id),
        r matches Ok(Some(e)) ==> e.amount_usd.wf(),
{
    proof {
        reveal_strlit("finished");
    }
    assert("finished"@ =~= seq!['f', 'i', 'n', 'i', 's', 'h', 'e', 'd']);
    if field_is(status, "finished") {
        let intent = match field_text(order_id) {
            Some(o) => Some(cut_underscore(o.as_str())),
            None => None,
        };
        build_event(Provider::NowPayments, amount, AmountForm::DecimalNumber, intent, payment_id)
    } else {
        Ok(None)
    }
}

/// CrystalPay: a `payment` callback in state `payed`; the amount is a JSON
/// number.
pub fn normalize_crystalpay(
    kind: &Option<JsonField>,
    state: &Option<JsonField>,
    amount: &Option<JsonField>,
    extra: &Option<JsonField>,
    id: &Option<JsonField>,
) -> (r: Result<Option<PaymentEvent>, NormalizeError>)
    ensures
        event_result_view(r) == crystalpay_spec(*kind, *state, *amount, *extra, *id),
        r matches Ok(Some(e)) ==> e.amount_usd.wf(),
{
    proof {
        reveal_strlit("payment");
        reveal_strlit("payed");
    }
    assert("payment"@ =~= seq!['p', 'a', 'y', 'm', 'e', 'n', 't']);
    assert("payed"@ =~= seq!['p', 'a', 'y', 'e', 'd']);
    if field_is(kind, "payment") && field_is(state, "payed") {
        build_event(Provider::CrystalPay, amount, AmountForm::DecimalNumber, field_text(extra), id)
    } else {
        Ok(None)
    }
}

/// Stripe: a `checkout.session.completed` event; the amount is an integer
/// number of cents.
pub fn normalize_stripe(
    kind: &Option<JsonField>,
    amount_total: &Option<JsonField>,
    reference: &Option<JsonField>,
    id: &Option<JsonField>,
) -> (r: Result<Option<PaymentEvent>, NormalizeError>)
    ensures
        event_result_view(r) == stripe_spec(*kind, *amount_total, *reference, *id),
        r matches Ok(Some(e)) ==> e.amount_usd.wf(),
{
    proof {
        reveal_strlit("checkout.session.completed");
    }
    assert("checkout.session.completed"@ =~= stripe_event_type());
    if field_is(kind, "checkout.session.completed") {
        build_event(Provider::Stripe, amount_total, AmountForm::MinorUnits, field_text(reference), id)
    } else {
        Ok(None)
    }
}

/// Turns a provider's callback body into the event of a settled payment:
/// `Ok(None)` for a notification that reports no settled payment, and
/// `Err(Malformed)` for a body that is not JSON or lacks what the event needs.
pub fn normalize(p: Provider, body: &str) -> (r: Result<Option<PaymentEvent>, NormalizeError>)
    ensures
        event_result_view(r) == normalize_spec(p, body@),
        r matches Ok(Some(e)) ==> e.amount_usd.wf(),
{
    proof {
        reveal_strlit("");
    }
    assert(""@ =~= Seq::<char>::empty());
    if json_field(body, "").is_none() {
        return Err(NormalizeError::Malformed);
    }
    match p {
        Provider::CryptoBot => normalize_cryptobot(
            &json_field(body, "/update_type"),
            &json_field(body, "/update_payload/status"),
            &json_field(body, "/update_payload/amount"),
            &json_field(body, "/update_payload/payload"),
            &json_field(body, "/update_payload/invoice_id"),
        ),
        Provider::NowPayments => normalize_nowpayments(
            &json_field(body, "/payment_status"),
            &json_field(body, "/pay_amount"),
            &json_field(body, "/order_id"),
            &json_field(body, "/payment_id"),
        ),
        Provider::CrystalPay => normalize_crystalpay(
            &json_field(body, "/type"),
            &json_field(body, "/state"),
            &json_field(body, "/amount"),
            &json_field(body, "/extra"),
            &json_field(body, "/id"),
        ),
        Provider::Stripe => normalize_stripe(
            &json_field(body, "/type"),
            &json_field(body, "/data/object/amount_total"),
            &json_field(body, "/data/object/client_reference_id"),
            &json_field(body, "/data/object/id"),
        ),
    }
}

impl Provider {
    /// The provider that a webhook route names.
    pub fn from_source(source: &str) -> (r: Option<Provider>)
        ensures
            r == provider_of_source(source@),
    {
        proof {
            reveal_strlit("cryptobot");
            reveal_strlit("nowpayments");
            reveal_strlit("crystalpay");
            reveal_strlit("stripe");
        }
        if text_is(source, "cryptobot") {
            Some(Provider::CryptoBot)
        } else if text_is(source, "nowpayments") {
            Some(Provider::NowPayments)
        } else if text_is(source, "crystalpay") {
            Some(Provider::CrystalPay)
        } else if text_is(source, "stripe") {
            Some(Provider::Stripe)
        } else {
            None
        }
    }
}

/// The route name of each provider.
pub open spec fn source_name(p: Provider) -> Seq<char> {
    match p {
        Provider::CryptoBot => "cryptobot"@,
        Provider::NowPayments => "nowpayments"@,
        Provider::CrystalPay => "crystalpay"@,
        Provider::Stripe => "stripe"@,
    }
}

impl Provider {
    /// The provider's route name, which is also the payment method recorded.
    pub fn name(&self) -> (r: &'static str)
        ensures
            r@ == source_name(*self),
    {
        match self {
            Provider::CryptoBot => "cryptobot",
            Provider::NowPayments => "nowpayments",
            Provider::CrystalPay => "crystalpay",
            Provider::Stripe => "stripe",
        }
    }
}

pub open spec fn provider_of_source(s: Seq<char>) -> Option<Provider> {
    if s == "cryptobot"@ {
        Some(Provider::CryptoBot)
    } else if s == "nowpayments"@ {
        Some(Provider::NowPayments)
    } else if s == "crystalpay"@ {
        Some(Provider::CrystalPay)
    } else if s == "stripe"@ {
        Some(Provider::Stripe)
    } else {
        None
    }
}

} // verus!
