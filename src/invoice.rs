//! Invoice creation at the providers: what their answers mean.

use vstd::prelude::*;
use crate::webhook::{json_field, json_field_at, JsonField, Provider};

verus! {

/// An invoice request to CryptoBot.
#[derive(Debug, Clone)]
pub struct CryptoBotInvoice {
    pub asset: String,
    pub amount: String,
    pub description: Option<String>,
    pub payload: Option<String>,
    pub paid_btn_name: Option<String>,
    pub paid_btn_url: Option<String>,
}

/// CryptoBot's description of a created invoice.
#[derive(Debug, Clone)]
pub struct CreateInvoiceResult {
    pub invoice_id: i64,
    pub bot_invoice_url: String,
}

/// NOWPayments' description of a created invoice.
#[derive(Debug, Clone)]
pub struct NowPaymentResponse {
    pub payment_id: String,
    pub invoice_url: String,
}

#[derive(Debug, Clone)]
pub enum ProviderError {
    /// The provider could not be reached.
    Unreachable,
    /// The provider refused; its answer as received.
    Rejected(String),
}

/// Where a provider's answer states the payment page, and the flag that must
/// accompany it.
pub open spec fn url_pointer(p: Provider) -> Seq<char> {
    match p {
        Provider::CryptoBot => "/result/bot_invoice_url"@,
        Provider::NowPayments => "/invoice_url"@,
        Provider::CrystalPay => "/data/url"@,
        Provider::Stripe => "/url"@,
    }
}

/// The URL field when it is a JSON string.
pub open spec fn text_of(f: Option<JsonField>) -> Option<Seq<char>> {
    match f {
        Some(JsonField::Text(s)) => Some(s@),
        _ => None,
    }
}

/// The URL field when it is a JSON string, else the empty text.
pub open spec fn text_or_empty(f: Option<JsonField>) -> Seq<char> {
    match f {
        Some(JsonField::Text(s)) => s@,
        _ => Seq::empty(),
    }
}

/// The payment page of an accepted invoice; `None` where the answer rejects.
/// For CryptoBot `ok: true`, and for CrystalPay `error: false`, alone decide
/// acceptance, and the page is the URL string or else empty; NOWPayments and
/// Stripe accept exactly when the URL is a string.
pub open spec fn invoice_url_spec(p: Provider, flag: Option<JsonField>, url: Option<JsonField>) -> Option<
    Seq<char>,
> {
    match p {
        Provider::CryptoBot => if flag == Some(JsonField::Bool(true)) {
            Some(text_or_empty(url))
        } else {
            None
        },
        Provider::CrystalPay => if flag == Some(JsonField::Bool(false)) {
            Some(text_or_empty(url))
        } else {
            None
        },
        _ => text_of(url),
    }
}

pub open spec fn flag_pointer(p: Provider) -> Seq<char> {
    match p {
        Provider::CryptoBot => "/ok"@,
        Provider::CrystalPay => "/error"@,
        _ => "/ok"@,
    }
}

/// The payment page that an answer's flag and url fields give.
pub fn invoice_url_from(p: Provider, flag: &Option<JsonField>, url: &Option<JsonField>, body: &str) -> (r:
    Result<String, ProviderError>)
    ensures
        r matches Ok(u) ==> invoice_url_spec(p, *flag, *url) == Some(u@),
        r is Err ==> invoice_url_spec(p, *flag, *url) is None,
        r matches Err(ProviderError::Rejected(d)) ==> d@ == body@,
        !(r matches Err(ProviderError::Unreachable)),
{
    let flagged = match p {
        Provider::CryptoBot => Some(matches!(flag, Some(JsonField::Bool(true)))),
        Provider::CrystalPay => Some(matches!(flag, Some(JsonField::Bool(false)))),
        _ => None,
    };
    match flagged {
        Some(true) => match url {
            Some(JsonField::Text(u)) => Ok(u.clone()),
            _ => Ok(String::new()),
        },
        Some(false) => Err(ProviderError::Rejected(String::from_str(body))),
        None => match url {
            Some(JsonField::Text(u)) => Ok(u.clone()),
            _ => Err(ProviderError::Rejected(String::from_str(body))),
        },
    }
}

/// Reads a provider's answer to an invoice request: the payment page, or the
/// rejection with the answer as received.
pub fn invoice_url(p: Provider, body: &str) -> (r: Result<String, ProviderError>)
    ensures
        r matches Ok(u) ==> invoice_url_spec(
            p,
            json_field_at(body@, flag_pointer(p)),
            json_field_at(body@, url_pointer(p)),
        ) == Some(u@),
        r is Err ==> invoice_url_spec(
            p,
            json_field_at(body@, flag_pointer(p)),
            json_field_at(body@, url_pointer(p)),
        ) is None,
        r matches Err(ProviderError::Rejected(d)) ==> d@ == body@,
        !(r matches Err(ProviderError::Unreachable)),
{
    let (flag, url) = match p {
        Provider::CryptoBot => (json_field(body, "/ok"), json_field(body, "/result/bot_invoice_url")),
        Provider::NowPayments => (json_field(body, "/ok"), json_field(body, "/invoice_url")),
        Provider::CrystalPay => (json_field(body, "/error"), json_field(body, "/data/url")),
        Provider::Stripe => (json_field(body, "/ok"), json_field(body, "/url")),
    };
    invoice_url_from(p, &flag, &url, body)
}

} // verus!
