//! The fulfilment state machine of vendor sub-orders, and the referral
//! settlement that delivery triggers.

use vstd::prelude::*;
use crate::catalog::copy_text;
use crate::error::{Invalid, LedgerError, Missing};
use crate::ledger::{
    profile_index, user_profile_index, OrderStatus, OrderSupplier, PaymentKind, PaymentState, Store,
    StoreView, VendorPayment,
};
use crate::money::{apply_rate, lemma_rate_bounds, rate_of};
use crate::pricing::CommerceConfig;

verus! {

/// The transitions of a sub-order: pending, processing, shipped, delivered,
/// with cancellation from any of the first three. Delivered and cancelled
/// are terminal.
pub open spec fn transition_allowed(from: OrderStatus, to: OrderStatus) -> bool {
    match (from, to) {
        (OrderStatus::Pending, OrderStatus::Processing) => true,
        (OrderStatus::Processing, OrderStatus::Shipped) => true,
        (OrderStatus::Shipped, OrderStatus::Delivered) => true,
        (OrderStatus::Pending, OrderStatus::Cancelled) => true,
        (OrderStatus::Processing, OrderStatus::Cancelled) => true,
        (OrderStatus::Shipped, OrderStatus::Cancelled) => true,
        _ => false,
    }
}

pub fn can_transition(from: OrderStatus, to: OrderStatus) -> (r: bool)
    ensures
        r == transition_allowed(from, to),
{
    match (from, to) {
        (OrderStatus::Pending, OrderStatus::Processing) => true,
        (OrderStatus::Processing, OrderStatus::Shipped) => true,
        (OrderStatus::Shipped, OrderStatus::Delivered) => true,
        (OrderStatus::Pending, OrderStatus::Cancelled) => true,
        (OrderStatus::Processing, OrderStatus::Cancelled) => true,
        (OrderStatus::Shipped, OrderStatus::Cancelled) => true,
        _ => false,
    }
}

/// The sub-order saved in status `target`: a tracking number given with
/// `shipped` is recorded; entering `shipped` stamps `shipped_at` unless it is
/// set; entering `delivered` stamps `delivered_at` and marks the referral as
/// settled.
pub open spec fn saved_row(sup: OrderSupplier, target: OrderStatus, tracking: Option<String>, now: i64) -> OrderSupplier {
    let entering = sup.status != target;
    OrderSupplier {
        status: target,
        tracking_number: if target == OrderStatus::Shipped && tracking is Some { tracking } else { sup.tracking_number },
        shipped_at: if entering && target == OrderStatus::Shipped && sup.shipped_at is None {
            Some(now)
        } else {
            sup.shipped_at
        },
        delivered_at: if entering && target == OrderStatus::Delivered { Some(now) } else { sup.delivered_at },
        referral_settled: sup.referral_settled || (entering && target == OrderStatus::Delivered),
        ..sup
    }
}

/// Referral settlement of sub-order `idx`: when the customer of its order was
/// referred, the referrer's wallet is credited with the payout times the
/// referral rate, and the credit is written to the vendor payment ledger.
pub open spec fn settle_spec(s: StoreView, idx: int, cfg: CommerceConfig, now: i64) -> Result<StoreView, LedgerError> {
    let sup = s.suppliers[idx];
    if sup.order_id >= s.orders.len() {
        Err(LedgerError::NotFound(Missing::Order(sup.order_id)))
    } else {
        let user = s.orders[sup.order_id as int].user_id;
        match user_profile_index(s.profiles, user) {
            None => Err(LedgerError::NotFound(Missing::UserProfile(user))),
            Some(ci) => match s.profiles[ci].referred_by {
                None => Ok(s),
                Some(rid) => match profile_index(s.profiles, rid) {
                    None => Err(LedgerError::NotFound(Missing::Profile(rid))),
                    Some(ri) => {
                        let credit = rate_of(sup.payout_amount as int, cfg.referral_rate_bp as int);
                        let balance = s.profiles[ri].wallet_balance + credit;
                        if balance > u64::MAX {
                            Err(LedgerError::Internal)
                        } else {
                            Ok(StoreView {
                                profiles: s.profiles.update(
                                    ri,
                                    crate::ledger::Profile { wallet_balance: balance as u64, ..s.profiles[ri] },
                                ),
                                vendor_payments: s.vendor_payments.push(
                                    VendorPayment {
                                        id: s.vendor_payments.len() as usize,
                                        vendor_id: rid,
                                        order_supplier_id: Some(idx as usize),
                                        amount: credit as u64,
                                        payment_type: PaymentKind::CommissionCredit,
                                        status: PaymentState::Processed,
                                        notes: None,
                                        created_at: now,
                                    },
                                ),
                                ..s
                            })
                        }
                    },
                },
            },
        }
    }
}

/// A vendor saves sub-order `idx` in status `target`. Only the owning vendor
/// may; saving the current status again changes nothing but a tracking
/// number given with `shipped`; any other change must be a transition of the
/// state machine. The first entry into `delivered` settles the referral.
pub open spec fn update_spec(
    s: StoreView,
    idx: int,
    vendor_id: i32,
    target: OrderStatus,
    tracking: Option<String>,
    cfg: CommerceConfig,
    now: i64,
) -> Result<StoreView, LedgerError> {
    if !(0 <= idx < s.suppliers.len()) {
        Err(LedgerError::NotFound(Missing::OrderSupplier(idx as usize)))
    } else {
        let sup = s.suppliers[idx];
        let row = saved_row(sup, target, tracking, now);
        if sup.vendor_id != vendor_id {
            Err(LedgerError::Forbidden)
        } else if sup.status != target && !transition_allowed(sup.status, target) {
            Err(LedgerError::Validation(Invalid::IllegalTransition))
        } else if sup.status != target && target == OrderStatus::Delivered && !sup.referral_settled {
            match settle_spec(s, idx, cfg, now) {
                Err(e) => Err(e),
                Ok(t) => Ok(StoreView { suppliers: t.suppliers.update(idx, row), ..t }),
            }
        } else {
            Ok(StoreView { suppliers: s.suppliers.update(idx, row), ..s })
        }
    }
}

/// The sub-order saved in another status, as `saved_row` says.
fn save_row(sup: &OrderSupplier, target: OrderStatus, tracking: Option<String>, now: i64) -> (r: OrderSupplier)
    ensures
        r == saved_row(*sup, target, tracking, now),
{
    let entering = sup.status != target;
    let tracking_number = if target == OrderStatus::Shipped && tracking.is_some() {
        tracking
    } else {
        copy_text(&sup.tracking_number)
    };
    let shipped_at = if entering && target == OrderStatus::Shipped && sup.shipped_at.is_none() {
        Some(now)
    } else {
        sup.shipped_at
    };
    let delivered_at = if entering && target == OrderStatus::Delivered { Some(now) } else { sup.delivered_at };
    OrderSupplier {
        id: sup.id,
        order_id: sup.order_id,
        vendor_id: sup.vendor_id,
        status: target,
        subtotal: sup.subtotal,
        commission_rate_bp: sup.commission_rate_bp,
        commission_amount: sup.commission_amount,
        payout_amount: sup.payout_amount,
        tracking_number,
        shipped_at,
        delivered_at,
        referral_settled: sup.referral_settled || (entering && target == OrderStatus::Delivered),
    }
}

impl Store {
    /// Credits the referrer of the customer of sub-order `idx`, if any.
    fn settle_referral(&mut self, idx: usize, cfg: &CommerceConfig, now: i64) -> (r: Result<(), LedgerError>)
        requires
            old(self)@.wf(),
            cfg.wf(),
            idx < old(self)@.suppliers.len(),
        ensures
            match r {
                Ok(()) => settle_spec(old(self)@, idx as int, *cfg, now) == Ok::<StoreView, LedgerError>(final(self)@),
                Err(e) => {
                    &&& settle_spec(old(self)@, idx as int, *cfg, now) == Err::<StoreView, LedgerError>(e)
                    &&& final(self)@ == old(self)@
                },
            },
    {
        let order_id = self.suppliers[idx].order_id;
        if order_id >= self.orders.len() {
            return Err(LedgerError::NotFound(Missing::Order(order_id)));
        }
        let user = self.orders[order_id].user_id;
        let ci = match self.find_user_profile(user) {
            None => {
                return Err(LedgerError::NotFound(Missing::UserProfile(user)));
            },
            Some(ci) => ci,
        };
        let rid = match self.profiles[ci].referred_by {
            None => {
                return Ok(());
            },
            Some(rid) => rid,
        };
        let ri = match self.find_profile(rid) {
            None => {
                return Err(LedgerError::NotFound(Missing::Profile(rid)));
            },
            Some(ri) => ri,
        };
        let credit = apply_rate(self.suppliers[idx].payout_amount, cfg.referral_rate_bp);
        let mut referrer = self.profiles[ri];
        let balance = match referrer.wallet_balance.checked_add(credit) {
            None => {
                return Err(LedgerError::Internal);
            },
            Some(b) => b,
        };
        referrer.wallet_balance = balance;
        self.profiles.set(ri, referrer);
        let entry = VendorPayment {
            id: self.vendor_payments.len(),
            vendor_id: rid,
            order_supplier_id: Some(idx),
            amount: credit,
            payment_type: PaymentKind::CommissionCredit,
            status: PaymentState::Processed,
            notes: None,
            created_at: now,
        };
        self.vendor_payments.push(entry);
        proof {
            let want = settle_spec(old(self)@, idx as int, *cfg, now)->Ok_0;
            assert(self@.profiles =~= want.profiles);
            assert(self@.vendor_payments =~= want.vendor_payments);
        }
        Ok(())
    }

    /// A vendor saves one of its sub-orders in a status, at time `now`.
    pub fn update_vendor_order_at(
        &mut self,
        idx: usize,
        vendor_id: i32,
        target: OrderStatus,
        tracking: Option<String>,
        cfg: &CommerceConfig,
        now: i64,
    ) -> (r: Result<(), LedgerError>)
        requires
            old(self)@.wf(),
            cfg.wf(),
        ensures
            final(self)@.wf(),
            match r {
                Ok(()) => update_spec(old(self)@, idx as int, vendor_id, target, tracking, *cfg, now)
                    == Ok::<StoreView, LedgerError>(final(self)@),
                Err(e) => {
                    &&& update_spec(old(self)@, idx as int, vendor_id, target, tracking, *cfg, now)
                        == Err::<StoreView, LedgerError>(e)
                    &&& final(self)@ == old(self)@
                },
            },
    {
        if idx >= self.suppliers.len() {
            return Err(LedgerError::NotFound(Missing::OrderSupplier(idx)));
        }
        let status = self.suppliers[idx].status;
        if self.suppliers[idx].vendor_id != vendor_id {
            return Err(LedgerError::Forbidden);
        }
        if status != target && !can_transition(status, target) {
            return Err(LedgerError::Validation(Invalid::IllegalTransition));
        }
        let ghost s = self@;
        if status != target && target == OrderStatus::Delivered && !self.suppliers[idx].referral_settled {
            match self.settle_referral(idx, cfg, now) {
                Err(e) => {
                    return Err(e);
                },
                Ok(()) => {},
            }
        }
        let ghost mid = self@;
        let row = save_row(&self.suppliers[idx], target, tracking, now);
        self.suppliers.set(idx, row);
        proof {
            assert(mid.suppliers == s.suppliers);
            let want = update_spec(s, idx as int, vendor_id, target, tracking, *cfg, now)->Ok_0;
            assert(self@.suppliers =~= want.suppliers);
            assert forall|i: int| 0 <= i < self@.suppliers.len() implies #[trigger] self@.suppliers[i].commission_amount
                + self@.suppliers[i].payout_amount == self@.suppliers[i].subtotal by {
                assert(s.suppliers[i].commission_amount + s.suppliers[i].payout_amount == s.suppliers[i].subtotal);
            }
            assert forall|i: int| 0 <= i < self@.links.len() implies {
                &&& #[trigger] self@.links[i].order_detail_id < self@.details.len()
                &&& self@.links[i].order_supplier_id < self@.suppliers.len()
            } by {
                assert(s.links[i].order_detail_id < s.details.len());
            }
        }
        Ok(())
    }
}

/// Delivery credits the referrer exactly once: the first transition of a
/// shipped sub-order into `delivered` credits the referrer's wallet with the
/// payout times the referral rate, and saving it as delivered again changes
/// nothing at all.
pub proof fn delivery_credits_referrer_once(
    s: StoreView,
    idx: int,
    vendor_id: i32,
    first_tracking: Option<String>,
    second_tracking: Option<String>,
    cfg: CommerceConfig,
    now: i64,
    later: i64,
)
    requires
        0 <= idx < s.suppliers.len(),
        s.suppliers[idx].vendor_id == vendor_id,
        s.suppliers[idx].status == OrderStatus::Shipped,
        !s.suppliers[idx].referral_settled,
        update_spec(s, idx, vendor_id, OrderStatus::Delivered, first_tracking, cfg, now) is Ok,
    ensures
        ({
            let t = update_spec(s, idx, vendor_id, OrderStatus::Delivered, first_tracking, cfg, now)->Ok_0;
            let user = s.orders[s.suppliers[idx].order_id as int].user_id;
            let customer = s.profiles[user_profile_index(s.profiles, user)->Some_0];
            &&& t.suppliers[idx].status == OrderStatus::Delivered
            &&& t.suppliers[idx].delivered_at == Some(now)
            &&& t.suppliers[idx].referral_settled
            &&& (customer.referred_by matches Some(rid) ==> {
                let ri = profile_index(s.profiles, rid)->Some_0;
                &&& t.profiles[ri].wallet_balance == s.profiles[ri].wallet_balance + rate_of(
                    s.suppliers[idx].payout_amount as int,
                    cfg.referral_rate_bp as int,
                )
                &&& t.vendor_payments.len() == s.vendor_payments.len() + 1
            })
            &&& (customer.referred_by is None ==> t.profiles == s.profiles)
            &&& update_spec(t, idx, vendor_id, OrderStatus::Delivered, second_tracking, cfg, later)
                == Ok::<StoreView, LedgerError>(t)
        }),
{
    let t = update_spec(s, idx, vendor_id, OrderStatus::Delivered, first_tracking, cfg, now)->Ok_0;
    let row = t.suppliers[idx];
    assert(t.suppliers.update(idx, saved_row(row, OrderStatus::Delivered, second_tracking, later)) =~= t.suppliers);
}

/// Once delivered or cancelled, a sub-order accepts no transition: only a
/// save in the same status, which settles nothing.
pub proof fn terminal_states_are_final(from: OrderStatus, to: OrderStatus)
    requires
        from == OrderStatus::Delivered || from == OrderStatus::Cancelled,
    ensures
        !transition_allowed(from, to),
{
}

} // verus!
