//! The ledger: accounts, orders and payment records, and the reconciliation
//! of provider payment events into them, exactly once and all or nothing.

use vstd::prelude::*;
use crate::amount::{minor_units_spec, to_minor_units};
use crate::intent::{decode, decode_spec, PaymentType};
use crate::text::text_is;
use crate::webhook::{EventView, PaymentEvent, Provider};

verus! {

/// A user's account: its balance in minor units and who referred the user.
#[derive(Debug, Clone, Copy, PartialEq, Eq, Structural)]
pub struct UserAccount {
    pub id: i64,
    pub balance: i64,
    pub referrer: Option<i64>,
}

#[derive(Debug, Clone, Copy, PartialEq, Eq, Structural)]
pub struct Order {
    pub id: i64,
    pub settled: bool,
}

#[derive(Debug, Clone, Copy, PartialEq, Eq, Structural)]
pub enum PaymentStatus {
    Pending,
    Paid,
}

/// One payment as the ledger records it.
#[derive(Debug, Clone)]
pub struct Payment {
    pub id: i64,
    pub user_id: i64,
    pub provider: Provider,
    pub amount_minor: i64,
    pub external_id: String,
    pub status: PaymentStatus,
}

/// A payment record in mathematical form.
pub struct PaymentRecord {
    pub id: i64,
    pub user_id: i64,
    pub provider: Provider,
    pub amount_minor: i64,
    pub external_id: Seq<char>,
    pub status: PaymentStatus,
}

impl View for Payment {
    type V = PaymentRecord;

    open spec fn view(&self) -> PaymentRecord {
        PaymentRecord {
            id: self.id,
            user_id: self.user_id,
            provider: self.provider,
            amount_minor: self.amount_minor,
            external_id: self.external_id@,
            status: self.status,
        }
    }
}

/// The whole state of a ledger.
pub struct LedgerState {
    pub users: Seq<UserAccount>,
    pub orders: Seq<Order>,
    pub payments: Seq<PaymentRecord>,
    pub next_payment_id: i64,
    /// Share of a topup, in percent, credited to the topping-up user's referrer.
    pub referral_percent: u64,
}

/// Accounts, orders and payments. All writes to balances and payment records
/// go through `reconcile`.
pub struct Ledger {
    pub users: Vec<UserAccount>,
    pub orders: Vec<Order>,
    pub payments: Vec<Payment>,
    pub next_payment_id: i64,
    pub referral_percent: u64,
}

impl View for Ledger {
    type V = LedgerState;

    open spec fn view(&self) -> LedgerState {
        LedgerState {
            users: self.users@,
            orders: self.orders@,
            payments: self.payments@.map_values(|p: Payment| p@),
            next_payment_id: self.next_payment_id,
            referral_percent: self.referral_percent,
        }
    }
}

/// What a reconciled payment did.
#[derive(Debug, Clone, Copy, PartialEq, Eq)]
pub struct Receipt {
    pub payment_id: i64,
    pub user_id: i64,
    pub amount_minor: i64,
    pub kind: PaymentType,
    /// The referrer credited, and the bonus, for a topup by a referred user.
    pub referral: Option<(i64, i64)>,
}

#[derive(Debug, Clone, Copy, PartialEq, Eq)]
pub enum ReconcileOutcome {
    Committed(Receipt),
    /// A payment with the same provider and external id is already recorded.
    AlreadyProcessed,
}

#[derive(Debug, Clone, Copy, PartialEq, Eq, Structural)]
pub enum ReconcileError {
    InvalidIntent,
    /// The order does not exist or is already settled.
    OrderInvalid,
    /// The store cannot take the write: unknown user, or an amount or
    /// balance out of range.
    StoreFailure,
}

/// The position of the user `id`, or -1.
pub open spec fn user_pos(s: Seq<UserAccount>, id: i64) -> int {
    if exists|i: int| 0 <= i < s.len() && s[i].id == id {
        choose|i: int| 0 <= i < s.len() && s[i].id == id
    } else {
        -1
    }
}

/// The position of the order `id`, or -1.
pub open spec fn order_pos(s: Seq<Order>, id: i64) -> int {
    if exists|i: int| 0 <= i < s.len() && s[i].id == id {
        choose|i: int| 0 <= i < s.len() && s[i].id == id
    } else {
        -1
    }
}

/// The position of the payment of `provider` with `external_id`, or -1.
pub open spec fn payment_pos(s: Seq<PaymentRecord>, provider: Provider, external_id: Seq<char>) -> int {
    if exists|i: int| 0 <= i < s.len() && s[i].provider == provider && s[i].external_id == external_id {
        choose|i: int|
            0 <= i < s.len() && s[i].provider == provider && s[i].external_id == external_id
    } else {
        -1
    }
}

impl LedgerState {
    pub open spec fn wf(self) -> bool {
        &&& forall|i: int, j: int|
            0 <= i < j < self.users.len() ==> self.users[i].id != self.users[j].id
        &&& forall|i: int, j: int|
            0 <= i < j < self.orders.len() ==> self.orders[i].id != self.orders[j].id
        &&& forall|i: int, j: int|
            0 <= i < j < self.payments.len() ==> !(self.payments[i].provider == self.payments[j].provider
                && self.payments[i].external_id == self.payments[j].external_id)
        &&& forall|i: int| 0 <= i < self.payments.len() ==> self.payments[i].id < self.next_payment_id
        &&& self.next_payment_id >= 1
        &&& self.referral_percent <= 100
    }

    /// The balance of user `id`, where the user exists.
    pub open spec fn balance(self, id: i64) -> Option<int> {
        let i = user_pos(self.users, id);
        if i >= 0 { Some(self.users[i].balance as int) } else { None }
    }
}

impl Ledger {
    pub open spec fn wf(&self) -> bool {
        self@.wf()
    }
}

pub open spec fn credited(u: UserAccount, amount: int) -> UserAccount {
    UserAccount { balance: (u.balance + amount) as i64, ..u }
}

pub open spec fn bonus_spec(amount: int, percent: u64) -> int {
    amount * percent / 100
}

/// The position of the account credited for a topup by the user at `ui`:
/// its referrer, where that is another known user; else -1.
pub open spec fn referral_target(l: LedgerState, ui: int) -> int {
    match l.users[ui].referrer {
        Some(r) => if r != l.users[ui].id { user_pos(l.users, r) } else { -1 },
        None => -1,
    }
}

/// Reconciling an event: its result, and the ledger after it. Every failure
/// leaves the ledger as it was.
pub open spec fn reconcile_spec(l: LedgerState, e: EventView) -> (
    Result<ReconcileOutcome, ReconcileError>,
    LedgerState,
) {
    match decode_spec(e.3) {
        Err(_) => (Err(ReconcileError::InvalidIntent), l),
        Ok(intent) => if payment_pos(l.payments, e.0, e.1) >= 0 {
            (Ok(ReconcileOutcome::AlreadyProcessed), l)
        } else if minor_units_spec(e.2) > i64::MAX || l.next_payment_id == i64::MAX {
            (Err(ReconcileError::StoreFailure), l)
        } else {
            let m = minor_units_spec(e.2);
            let record = PaymentRecord {
                id: l.next_payment_id,
                user_id: intent.user_id,
                provider: e.0,
                amount_minor: m as i64,
                external_id: e.1,
                status: PaymentStatus::Paid,
            };
            let recorded = LedgerState {
                payments: l.payments.push(record),
                next_payment_id: (l.next_payment_id + 1) as i64,
                ..l
            };
            match intent.kind {
                PaymentType::BalanceTopup => {
                    let ui = user_pos(l.users, intent.user_id);
                    if ui < 0 || l.users[ui].balance + m > i64::MAX {
                        (Err(ReconcileError::StoreFailure), l)
                    } else {
                        let ri = referral_target(l, ui);
                        let b = bonus_spec(m, l.referral_percent);
                        if ri >= 0 && l.users[ri].balance + b > i64::MAX {
                            (Err(ReconcileError::StoreFailure), l)
                        } else {
                            let users1 = l.users.update(ui, credited(l.users[ui], m));
                            let users2 = if ri >= 0 {
                                users1.update(ri, credited(l.users[ri], b))
                            } else {
                                users1
                            };
                            let receipt = Receipt {
                                payment_id: l.next_payment_id,
                                user_id: intent.user_id,
                                amount_minor: m as i64,
                                kind: intent.kind,
                                referral: if ri >= 0 {
                                    Some((l.users[ri].id, b as i64))
                                } else {
                                    None
                                },
                            };
                            (
                                Ok(ReconcileOutcome::Committed(receipt)),
                                LedgerState { users: users2, ..recorded },
                            )
                        }
                    }
                },
                PaymentType::OrderPurchase(o) => {
                    let oi = order_pos(l.orders, o);
                    if oi < 0 || l.orders[oi].settled {
                        (Err(ReconcileError::OrderInvalid), l)
                    } else {
                        let receipt = Receipt {
                            payment_id: l.next_payment_id,
                            user_id: intent.user_id,
                            amount_minor: m as i64,
                            kind: intent.kind,
                            referral: None,
                        };
                        (
                            Ok(ReconcileOutcome::Committed(receipt)),
                            LedgerState {
                                orders: l.orders.update(oi, Order { id: o, settled: true }),
                                ..recorded
                            },
                        )
                    }
                },
            }
        },
    }
}

impl Ledger {
    /// An empty ledger whose referrers earn `referral_percent` of each topup.
    pub fn new(referral_percent: u64) -> (r: Ledger)
        requires
            referral_percent <= 100,
        ensures
            r.wf(),
            r@.users.len() == 0,
            r@.orders.len() == 0,
            r@.payments.len() == 0,
            r@.next_payment_id == 1,
            r@.referral_percent == referral_percent,
    {
        let r = Ledger {
            users: Vec::new(),
            orders: Vec::new(),
            payments: Vec::new(),
            next_payment_id: 1,
            referral_percent,
        };
        assert(r@.payments =~= Seq::<PaymentRecord>::empty());
        r
    }

    /// The position of user `id`.
    pub fn find_user(&self, id: i64) -> (r: Option<usize>)
        requires
            self.wf(),
        ensures
            r is None <==> user_pos(self@.users, id) < 0,
            r matches Some(i) ==> i as int == user_pos(self@.users, id) && i < self.users@.len(),
    {
        let mut i: usize = 0;
        while i < self.users.len()
            invariant
                self.wf(),
                i <= self.users@.len(),
                forall|j: int| 0 <= j < i ==> self.users@[j].id != id,
            decreases self.users@.len() - i,
        {
            if self.users[i].id == id {
                proof {
                    assert(self.users@[i as int].id == id);
                    let k = user_pos(self@.users, id);
                    assert(0 <= k < self.users@.len() && self.users@[k].id == id);
                    if k < i {
                        assert(self.users@[k].id != id);
                    } else if k > i {
                        assert(self@.users[i as int].id != self@.users[k].id);
                    }
                }
                return Some(i);
            }
            i = i + 1;
        }
        None
    }

    /// The position of order `id`.
    pub fn find_order(&self, id: i64) -> (r: Option<usize>)
        requires
            self.wf(),
        ensures
            r is None <==> order_pos(self@.orders, id) < 0,
            r matches Some(i) ==> i as int == order_pos(self@.orders, id) && i < self.orders@.len(),
    {
        let mut i: usize = 0;
        while i < self.orders.len()
            invariant
                self.wf(),
                i <= self.orders@.len(),
                forall|j: int| 0 <= j < i ==> self.orders@[j].id != id,
            decreases self.orders@.len() - i,
        {
            if self.orders[i].id == id {
                proof {
                    assert(self.orders@[i as int].id == id);
                    let k = order_pos(self@.orders, id);
                    assert(0 <= k < self.orders@.len() && self.orders@[k].id == id);
                    if k < i {
                        assert(self.orders@[k].id != id);
                    } else if k > i {
                        assert(self@.orders[i as int].id != self@.orders[k].id);
                    }
                }
                return Some(i);
            }
            i = i + 1;
        }
        None
    }

    /// The position of the payment of `provider` with `external_id`.
    pub fn find_payment(&self, provider: Provider, external_id: &str) -> (r: Option<usize>)
        requires
            self.wf(),
        ensures
            r is None <==> payment_pos(self@.payments, provider, external_id@) < 0,
            r matches Some(i) ==> i as int == payment_pos(self@.payments, provider, external_id@)
                && i < self.payments@.len(),
    {
        let ghost ps = self@.payments;
        let mut i: usize = 0;
        while i < self.payments.len()
            invariant
                self.wf(),
                i <= self.payments@.len(),
                ps == self@.payments,
                ps.len() == self.payments@.len(),
                forall|j: int|
                    0 <= j < i ==> !(ps[j].provider == provider && ps[j].external_id == external_id@),
            decreases self.payments@.len() - i,
        {
            let p = &self.payments[i];
            assert(ps[i as int] == p@);
            if p.provider == provider && text_is(p.external_id.as_str(), external_id) {
                proof {
                    let k = payment_pos(ps, provider, external_id@);
                    assert(ps[i as int].provider == provider && ps[i as int].external_id == external_id@);
                    assert(0 <= k < ps.len() && ps[k].provider == provider && ps[k].external_id
                        == external_id@);
                    if k < i {
                        assert(!(ps[k].provider == provider && ps[k].external_id == external_id@));
                    } else if k > i {
                        assert(!(ps[i as int].provider == ps[k].provider && ps[i as int].external_id
                            == ps[k].external_id));
                    }
                }
                return Some(i);
            }
            i = i + 1;
        }
        None
    }

    /// Adds user `id`, referred by `referrer`; false where the user exists.
    pub fn add_user(&mut self, id: i64, referrer: Option<i64>) -> (r: bool)
        requires
            old(self).wf(),
        ensures
            final(self).wf(),
            r == (user_pos(old(self)@.users, id) < 0),
            r ==> final(self)@ == (LedgerState {
                users: old(self)@.users.push(UserAccount { id, balance: 0, referrer }),
                ..old(self)@
            }),
            !r ==> final(self)@ == old(self)@,
    {
        if self.find_user(id).is_some() {
            return false;
        }
        self.users.push(UserAccount { id, balance: 0, referrer });
        true
    }

    /// Adds an unsettled order `id`; false where the order exists.
    pub fn add_order(&mut self, id: i64) -> (r: bool)
        requires
            old(self).wf(),
        ensures
            final(self).wf(),
            r == (order_pos(old(self)@.orders, id) < 0),
            r ==> final(self)@ == (LedgerState {
                orders: old(self)@.orders.push(Order { id, settled: false }),
                ..old(self)@
            }),
            !r ==> final(self)@ == old(self)@,
    {
        if self.find_order(id).is_some() {
            return false;
        }
        self.orders.push(Order { id, settled: false });
        true
    }

    /// The balance of user `id`.
    pub fn balance_of(&self, id: i64) -> (r: Option<i64>)
        requires
            self.wf(),
        ensures
            r matches Some(b) ==> self@.balance(id) == Some(b as int),
            r is None ==> self@.balance(id) is None,
    {
        match self.find_user(id) {
            Some(i) => Some(self.users[i].balance),
            None => None,
        }
    }

    /// Whether order `id` is settled, where it exists.
    pub fn order_settled(&self, id: i64) -> (r: Option<bool>)
        requires
            self.wf(),
        ensures
            r matches Some(s) ==> order_pos(self@.orders, id) >= 0 && s == self@.orders[order_pos(
                self@.orders,
                id,
            )].settled,
            r is None ==> order_pos(self@.orders, id) < 0,
    {
        match self.find_order(id) {
            Some(i) => Some(self.orders[i].settled),
            None => None,
        }
    }

    /// The number of payment records.
    pub fn payment_count(&self) -> (r: usize)
        ensures
            r == self@.payments.len(),
    {
        self.payments.len()
    }

    /// The referral credit for a topup of `amount` by the user at `ui`: the
    /// referrer's position and the bonus.
    fn referral_bonus(&self, ui: usize, amount: i64) -> (r: Option<(usize, i64)>)
        requires
            self.wf(),
            ui < self.users@.len(),
            amount >= 0,
        ensures
            r is None <==> referral_target(self@, ui as int) < 0,
            r matches Some((ri, b)) ==> ri as int == referral_target(self@, ui as int)
                && ri < self.users@.len() && b as int == bonus_spec(amount as int, self.referral_percent),
    {
        match self.users[ui].referrer {
            Some(rid) => if rid != self.users[ui].id {
                match self.find_user(rid) {
                    Some(ri) => {
                        assert(amount as u128 * self.referral_percent as u128 <= i64::MAX as u128 * 100)
                            by (nonlinear_arith)
                            requires self.referral_percent <= 100, 0 <= amount;
                        let b: u128 = amount as u128 * self.referral_percent as u128 / 100;
                        assert(b <= amount) by (nonlinear_arith)
                            requires b == amount as u128 * self.referral_percent as u128 / 100,
                                self.referral_percent <= 100, amount >= 0;
                        Some((ri, b as i64))
                    },
                    None => None,
                }
            } else {
                None
            },
            None => None,
        }
    }

    /// Applies a provider's payment event exactly once: decodes its intent,
    /// skips a payment already recorded for the same provider and external
    /// id, then credits the balance (and the referrer's bonus) of a topup or
    /// settles the order of a purchase, recording the payment as paid. Every
    /// error leaves the ledger unchanged.
    pub fn reconcile(&mut self, e: &PaymentEvent) -> (r: Result<ReconcileOutcome, ReconcileError>)
        requires
            old(self).wf(),
            e.amount_usd.wf(),
        ensures
            final(self).wf(),
            (r, final(self)@) == reconcile_spec(old(self)@, e@),
            r is Err ==> final(self)@ == old(self)@,
            decode_spec(e.raw_intent@) is Ok && payment_pos(old(self)@.payments, e.provider, e.external_id@)
                >= 0 ==> r == Ok::<ReconcileOutcome, ReconcileError>(ReconcileOutcome::AlreadyProcessed)
                && final(self)@ == old(self)@,
            decode_spec(e.raw_intent@) matches Ok(i) && i.kind matches PaymentType::OrderPurchase(o) && (
            order_pos(old(self)@.orders, o) < 0 || old(self)@.orders[order_pos(old(self)@.orders, o)].settled)
                ==> !(r matches Ok(ReconcileOutcome::Committed(_))) && final(self)@ == old(self)@,
            r matches Ok(ReconcileOutcome::Committed(rc)) ==> forall|i: int|
                0 <= i < old(self)@.payments.len() ==> old(self)@.payments[i].id < rc.payment_id,
    {
        let intent = match decode(e.raw_intent.as_str()) {
            Ok(i) => i,
            Err(_) => return Err(ReconcileError::InvalidIntent),
        };
        if self.find_payment(e.provider, e.external_id.as_str()).is_some() {
            return Ok(ReconcileOutcome::AlreadyProcessed);
        }
        let m = match to_minor_units(&e.amount_usd) {
            Some(m) => m,
            None => return Err(ReconcileError::StoreFailure),
        };
        if self.next_payment_id == i64::MAX {
            return Err(ReconcileError::StoreFailure);
        }
        proof {
            assert(m >= 0) by {
                crate::amount::lemma_minor_units_nonneg(e.amount_usd);
            }
        }
        let ghost l = self@;
        let payment = Payment {
            id: self.next_payment_id,
            user_id: intent.user_id,
            provider: e.provider,
            amount_minor: m,
            external_id: e.external_id.clone(),
            status: PaymentStatus::Paid,
        };
        match intent.kind {
            PaymentType::BalanceTopup => {
                let ui = match self.find_user(intent.user_id) {
                    Some(ui) => ui,
                    None => return Err(ReconcileError::StoreFailure),
                };
                let user = self.users[ui];
                if user.balance > i64::MAX - m {
                    return Err(ReconcileError::StoreFailure);
                }
                let referral = self.referral_bonus(ui, m);
                let receipt_referral = match referral {
                    Some((ri, b)) => {
                        let referrer = self.users[ri];
                        if referrer.balance > i64::MAX - b {
                            return Err(ReconcileError::StoreFailure);
                        }
                        Some((referrer.id, b))
                    },
                    None => None,
                };
                self.users.set(ui, UserAccount { balance: user.balance + m, ..user });
                match referral {
                    Some((ri, b)) => {
                        let referrer = self.users[ri];
                        assert(referrer == l.users[ri as int]);
                        self.users.set(ri, UserAccount { balance: referrer.balance + b, ..referrer });
                    },
                    None => {},
                }
                let pid = self.next_payment_id;
                self.payments.push(payment);
                self.next_payment_id = pid + 1;
                proof {
                    self.lemma_recorded(l, payment@);
                }
                Ok(
                    ReconcileOutcome::Committed(
                        Receipt {
                            payment_id: pid,
                            user_id: intent.user_id,
                            amount_minor: m,
                            kind: intent.kind,
                            referral: receipt_referral,
                        },
                    ),
                )
            },
            PaymentType::OrderPurchase(o) => {
                let oi = match self.find_order(o) {
                    Some(oi) => oi,
                    None => return Err(ReconcileError::OrderInvalid),
                };
                if self.orders[oi].settled {
                    return Err(ReconcileError::OrderInvalid);
                }
                self.orders.set(oi, Order { id: o, settled: true });
                let pid = self.next_payment_id;
                self.payments.push(payment);
                self.next_payment_id = pid + 1;
                proof {
                    self.lemma_recorded(l, payment@);
                }
                Ok(
                    ReconcileOutcome::Committed(
                        Receipt {
                            payment_id: pid,
                            user_id: intent.user_id,
                            amount_minor: m,
                            kind: intent.kind,
                            referral: None,
                        },
                    ),
                )
            },
        }
    }

    proof fn lemma_recorded(&self, l: LedgerState, rec: PaymentRecord)
        requires
            self.payments@.len() == l.payments.len() + 1,
            forall|j: int| 0 <= j < l.payments.len() ==> self.payments@[j]@ == l.payments[j],
            self.payments@.last()@ == rec,
        ensures
            self@.payments == l.payments.push(rec),
    {
        assert(self@.payments =~= l.payments.push(rec));
    }
}

} // verus!
