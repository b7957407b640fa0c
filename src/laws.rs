//! What reconciliation guarantees across calls, stated over the ledger's
//! mathematical state.

use vstd::prelude::*;
use crate::amount::minor_units_spec;
use crate::intent::{decode_spec, PaymentType};
use crate::ledger::{
    bonus_spec, referral_target, reconcile_spec, user_pos, LedgerState, ReconcileError,
    ReconcileOutcome, UserAccount,
};
use crate::webhook::EventView;

verus! {

/// Positions of users do not move when balances change.
proof fn lemma_user_pos_same_ids(s1: Seq<UserAccount>, s2: Seq<UserAccount>, id: i64)
    requires
        s1.len() == s2.len(),
        forall|i: int| 0 <= i < s1.len() ==> s1[i].id == s2[i].id,
        forall|i: int, j: int| 0 <= i < j < s1.len() ==> s1[i].id != s1[j].id,
    ensures
        user_pos(s2, id) == user_pos(s1, id),
{
    if exists|i: int| 0 <= i < s1.len() && s1[i].id == id {
        let k1 = user_pos(s1, id);
        assert(s2[k1].id == id);
        let k2 = user_pos(s2, id);
        assert(s1[k2].id == id);
        if k1 < k2 {
            assert(s1[k1].id != s1[k2].id);
        } else if k2 < k1 {
            assert(s1[k2].id != s1[k1].id);
        }
    } else {
        if exists|i: int| 0 <= i < s2.len() && s2[i].id == id {
            let k2 = user_pos(s2, id);
            assert(s1[k2].id == id);
        }
    }
}

/// A reconciliation that fails changes nothing: no balance, order or
/// payment record moves, and no referral bonus is granted.
pub proof fn lemma_failure_changes_nothing(l: LedgerState, e: EventView)
    ensures
        reconcile_spec(l, e).0 is Err ==> reconcile_spec(l, e).1 == l,
{
}

/// Delivering the same event twice commits at most once: after a commit the
/// second delivery is reported as already processed and changes nothing, and
/// a delivery that did not commit left the ledger as it was.
pub proof fn lemma_redelivery_commits_once(l: LedgerState, e: EventView)
    requires
        l.wf(),
    ensures
        ({
            let (r1, l1) = reconcile_spec(l, e);
            let (r2, l2) = reconcile_spec(l1, e);
            &&& r1 matches Ok(ReconcileOutcome::Committed(_)) ==> r2 == Ok::<
                ReconcileOutcome,
                ReconcileError,
            >(ReconcileOutcome::AlreadyProcessed) && l2 == l1
            &&& !(r1 matches Ok(ReconcileOutcome::Committed(_))) ==> l1 == l
        }),
{
    let (r1, l1) = reconcile_spec(l, e);
    if r1 matches Ok(ReconcileOutcome::Committed(_)) {
        let n = l.payments.len() as int;
        assert(l1.payments[n].provider == e.0 && l1.payments[n].external_id == e.1);
        assert(exists|i: int|
            0 <= i < l1.payments.len() && l1.payments[i].provider == e.0
                && l1.payments[i].external_id == e.1);
    }
}

/// A committed topup raises the paying user's balance by exactly the event's
/// amount in minor units.
pub proof fn lemma_topup_credits_amount(l: LedgerState, e: EventView)
    requires
        l.wf(),
        decode_spec(e.3) matches Ok(i) && i.kind == PaymentType::BalanceTopup,
        reconcile_spec(l, e).0 matches Ok(ReconcileOutcome::Committed(_)),
    ensures
        ({
            let uid = decode_spec(e.3)->Ok_0.user_id;
            let l1 = reconcile_spec(l, e).1;
            &&& l.balance(uid) is Some
            &&& l1.balance(uid) == Some(l.balance(uid)->Some_0 + minor_units_spec(e.2))
        }),
{
    lemma_topup_effects(l, e);
}

/// A purchase of an order that does not exist or is already settled is
/// refused, and no payment record is added.
pub proof fn lemma_invalid_order_records_nothing(l: LedgerState, e: EventView, o: i64)
    requires
        l.wf(),
        decode_spec(e.3) matches Ok(i) && i.kind == PaymentType::OrderPurchase(o),
        ({
            let oi = crate::ledger::order_pos(l.orders, o);
            oi < 0 || l.orders[oi].settled
        }),
    ensures
        !(reconcile_spec(l, e).0 matches Ok(ReconcileOutcome::Committed(_))),
        reconcile_spec(l, e).1 == l,
        reconcile_spec(l, e).1.payments == l.payments,
{
}

/// A referral bonus is granted exactly when a topup by a referred user
/// commits: the referrer's balance then rises by the bonus and the receipt
/// names it; when the topup does not commit, neither balance changes.
pub proof fn lemma_referral_bonus_with_topup(l: LedgerState, e: EventView)
    requires
        l.wf(),
        decode_spec(e.3) matches Ok(i) && i.kind == PaymentType::BalanceTopup,
    ensures
        ({
            let uid = decode_spec(e.3)->Ok_0.user_id;
            let (r, l1) = reconcile_spec(l, e);
            let ui = user_pos(l.users, uid);
            &&& !(r matches Ok(ReconcileOutcome::Committed(_))) ==> l1.users == l.users
            &&& r matches Ok(ReconcileOutcome::Committed(rc)) ==> {
                let ri = referral_target(l, ui);
                let b = bonus_spec(minor_units_spec(e.2), l.referral_percent);
                &&& (rc.referral is Some <==> ri >= 0)
                &&& ri >= 0 ==> rc.referral == Some((l.users[ri].id, b as i64))
                    && l1.balance(l.users[ri].id) == Some(l.users[ri].balance + b)
                    && l1.balance(uid) == Some(l.users[ui].balance + minor_units_spec(e.2))
            }
        }),
{
    let (r, l1) = reconcile_spec(l, e);
    if r matches Ok(ReconcileOutcome::Committed(_)) {
        lemma_topup_effects(l, e);
    }
}

/// The accounts after a committed topup: positions unchanged, the payer
/// credited the amount and the referrer, if any, the bonus.
proof fn lemma_topup_effects(l: LedgerState, e: EventView)
    requires
        l.wf(),
        decode_spec(e.3) matches Ok(i) && i.kind == PaymentType::BalanceTopup,
        reconcile_spec(l, e).0 matches Ok(ReconcileOutcome::Committed(_)),
    ensures
        ({
            let uid = decode_spec(e.3)->Ok_0.user_id;
            let l1 = reconcile_spec(l, e).1;
            let ui = user_pos(l.users, uid);
            let ri = referral_target(l, ui);
            let b = bonus_spec(minor_units_spec(e.2), l.referral_percent);
            &&& ui >= 0
            &&& l.balance(uid) == Some(l.users[ui].balance as int)
            &&& l1.balance(uid) == Some(l.users[ui].balance + minor_units_spec(e.2))
            &&& ri >= 0 ==> ri != ui && l1.balance(l.users[ri].id) == Some(l.users[ri].balance + b)
        }),
{
    let uid = decode_spec(e.3)->Ok_0.user_id;
    let l1 = reconcile_spec(l, e).1;
    let ui = user_pos(l.users, uid);
    let ri = referral_target(l, ui);
    let m = minor_units_spec(e.2);
    let b = bonus_spec(m, l.referral_percent);
    assert(0 <= ui < l.users.len() && l.users[ui].id == uid);
    crate::amount::lemma_minor_units_nonneg(e.2);
    assert(b >= 0) by (nonlinear_arith)
        requires m >= 0, b == m * l.referral_percent as int / 100;
    assert(l1.users[ui].balance == l.users[ui].balance + m);
    if ri >= 0 {
        assert(l1.users[ri].balance == l.users[ri].balance + b);
        let rid = l.users[ui].referrer->Some_0;
        assert(l.users[ri].id == rid);
        assert(ri != ui);
    }
    assert(forall|i: int| 0 <= i < l.users.len() ==> l1.users[i].id == l.users[i].id);
    lemma_user_pos_same_ids(l.users, l1.users, uid);
    if ri >= 0 {
        lemma_user_pos_same_ids(l.users, l1.users, l.users[ri].id);
        let rid = l.users[ri].id;
        assert(user_pos(l.users, rid) == ri) by {
            let k = user_pos(l.users, rid);
            assert(0 <= k < l.users.len() && l.users[k].id == rid);
            if k < ri {
                assert(l.users[k].id != l.users[ri].id);
            } else if k > ri {
                assert(l.users[ri].id != l.users[k].id);
            }
        }
    }
}

} // verus!
