//! Webhook handling from end to end: route name, body, ledger.

use vstd::prelude::*;
use crate::ledger::{reconcile_spec, Ledger, LedgerState, ReconcileError, ReconcileOutcome};
use crate::webhook::{
    json_field, json_field_at, normalize, normalize_spec, provider_of_source, EventView,
    NormalizeError, PaymentEvent, Provider,
};

verus! {

#[derive(Debug, Clone, Copy, PartialEq, Eq, Structural)]
pub enum WebhookError {
    Normalize(NormalizeError),
    Reconcile(ReconcileError),
}

pub open spec fn event_view(e: Option<PaymentEvent>) -> Option<EventView> {
    match e {
        Some(ev) => Some(ev@),
        None => None,
    }
}

/// The payment event a callback reports: a body that is not JSON is
/// malformed whatever the route; a JSON body from an unknown route reports
/// none; otherwise the provider's normalisation decides.
pub open spec fn webhook_event_spec(source: Seq<char>, body: Seq<char>) -> Result<
    Option<EventView>,
    WebhookError,
> {
    if json_field_at(body, Seq::empty()) is None {
        Err(WebhookError::Normalize(NormalizeError::Malformed))
    } else {
        match provider_of_source(source) {
            None => Ok(None),
            Some(p) => match normalize_spec(p, body) {
                Err(x) => Err(WebhookError::Normalize(x)),
                Ok(ev) => Ok(ev),
            },
        }
    }
}

/// What handling a callback returns, and the ledger after it.
pub open spec fn handle_webhook_spec(l: LedgerState, source: Seq<char>, body: Seq<char>) -> (
    Result<Option<ReconcileOutcome>, WebhookError>,
    LedgerState,
) {
    match webhook_event_spec(source, body) {
        Err(x) => (Err(x), l),
        Ok(None) => (Ok(None), l),
        Ok(Some(ev)) => {
            let (r, l1) = reconcile_spec(l, ev);
            match r {
                Ok(o) => (Ok(Some(o)), l1),
                Err(x) => (Err(WebhookError::Reconcile(x)), l1),
            }
        },
    }
}

/// Reads the payment event, if any, out of one provider callback.
pub fn webhook_event(source: &str, body: &str) -> (r: Result<Option<PaymentEvent>, WebhookError>)
    ensures
        match (r, webhook_event_spec(source@, body@)) {
            (Ok(e), Ok(v)) => event_view(e) == v,
            (Err(x), Err(y)) => x == y,
            _ => false,
        },
        r matches Ok(Some(e)) ==> e.amount_usd.wf(),
{
    proof {
        reveal_strlit("");
    }
    assert(""@ =~= Seq::<char>::empty());
    if json_field(body, "").is_none() {
        return Err(WebhookError::Normalize(NormalizeError::Malformed));
    }
    let p = match Provider::from_source(source) {
        Some(p) => p,
        None => return Ok(None),
    };
    match normalize(p, body) {
        Err(x) => Err(WebhookError::Normalize(x)),
        Ok(e) => Ok(e),
    }
}

/// Handles one provider callback: a body that is not JSON is malformed
/// whatever the route; a JSON body from an unknown route, or one that reports
/// no settled payment, is acknowledged with `Ok(None)` and changes nothing; a
/// settled payment is reconciled into the ledger.
pub fn handle_webhook(ledger: &mut Ledger, source: &str, body: &str) -> (r: Result<
    Option<ReconcileOutcome>,
    WebhookError,
>)
    requires
        old(ledger).wf(),
    ensures
        final(ledger).wf(),
        (r, final(ledger)@) == handle_webhook_spec(old(ledger)@, source@, body@),
{
    match webhook_event(source, body) {
        Err(x) => Err(x),
        Ok(None) => Ok(None),
        Ok(Some(ev)) => match ledger.reconcile(&ev) {
            Ok(o) => Ok(Some(o)),
            Err(x) => Err(WebhookError::Reconcile(x)),
        },
    }
}

} // verus!
