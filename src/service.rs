//! Entry points that read the clock and draw the order number themselves,
//! for callers that do not supply them.

use vstd::prelude::*;
use crate::checkout::{checkout_spec, CheckoutRequest};
use crate::error::LedgerError;
use crate::fulfillment::update_spec;
use crate::ledger::{OrderStatus, Store, StoreView};
use crate::payout::payout_spec;
use crate::pricing::CommerceConfig;
use crate::text::{generate_order_number, is_order_number};

verus! {

/// Relies on `chrono::Utc::now` and `DateTime::timestamp`: seconds since the
/// Unix epoch at the time of the call. Nothing is known of the value.
#[verifier::external_body]
fn now_seconds() -> (r: i64) {
    chrono::Utc::now().timestamp()
}

/// `r` and `after` are what checkout at time `now` with order number
/// `number` gives on `before`.
pub open spec fn checkout_outcome(
    before: StoreView,
    after: StoreView,
    r: Result<usize, LedgerError>,
    req: CheckoutRequest,
    cfg: CommerceConfig,
    now: i64,
    number: String,
) -> bool {
    &&& is_order_number(number@)
    &&& match r {
        Ok(id) => {
            &&& id == before.orders.len()
            &&& checkout_spec(before, req, cfg, now, number) == Ok::<StoreView, LedgerError>(after)
        },
        Err(e) => {
            &&& checkout_spec(before, req, cfg, now, number) == Err::<StoreView, LedgerError>(e)
            &&& after == before
        },
    }
}

impl Store {
    /// Places an order now, under a fresh `ORD-` number.
    pub fn checkout(&mut self, req: &CheckoutRequest, cfg: &CommerceConfig) -> (r: Result<usize, LedgerError>)
        requires
            old(self)@.wf(),
            cfg.wf(),
        ensures
            final(self)@.wf(),
            exists|now: i64, number: String|
                #[trigger] checkout_outcome(old(self)@, final(self)@, r, *req, *cfg, now, number),
    {
        let now = now_seconds();
        let number = generate_order_number();
        let ghost n = number;
        let r = self.checkout_at(req, cfg, now, number);
        assert(checkout_outcome(old(self)@, self@, r, *req, *cfg, now, n));
        r
    }

    /// A vendor saves one of its sub-orders in a status, now.
    pub fn update_vendor_order(
        &mut self,
        idx: usize,
        vendor_id: i32,
        target: OrderStatus,
        tracking: Option<String>,
        cfg: &CommerceConfig,
    ) -> (r: Result<(), LedgerError>)
        requires
            old(self)@.wf(),
            cfg.wf(),
        ensures
            final(self)@.wf(),
            exists|now: i64|
                match r {
                    Ok(()) => #[trigger] update_spec(old(self)@, idx as int, vendor_id, target, tracking, *cfg, now)
                        == Ok::<StoreView, LedgerError>(final(self)@),
                    Err(e) => {
                        &&& update_spec(old(self)@, idx as int, vendor_id, target, tracking, *cfg, now)
                            == Err::<StoreView, LedgerError>(e)
                        &&& final(self)@ == old(self)@
                    },
                },
    {
        let now = now_seconds();
        self.update_vendor_order_at(idx, vendor_id, target, tracking, cfg, now)
    }

    /// Requests a payout for a vendor, now.
    pub fn request_payout(
        &mut self,
        vendor_id: i32,
        amount: u64,
        bank_account_id: i32,
        notes: Option<String>,
    ) -> (r: Result<usize, LedgerError>)
        requires
            old(self)@.wf(),
        ensures
            final(self)@.wf(),
            exists|now: i64|
                match r {
                    Ok(id) => {
                        &&& id == old(self)@.vendor_payments.len()
                        &&& #[trigger] payout_spec(old(self)@, vendor_id, amount, bank_account_id, notes, now)
                            == Ok::<StoreView, LedgerError>(final(self)@)
                    },
                    Err(e) => {
                        &&& payout_spec(old(self)@, vendor_id, amount, bank_account_id, notes, now)
                            == Err::<StoreView, LedgerError>(e)
                        &&& final(self)@ == old(self)@
                    },
                },
    {
        let now = now_seconds();
        self.request_payout_at(vendor_id, amount, bank_account_id, notes, now)
    }
}

} // verus!
