//! Figures of a vendor's dashboard, over its sub-orders.

use vstd::prelude::*;
use crate::ledger::{OrderStatus, OrderSupplier, Store};

verus! {

#[derive(Clone, Copy, Debug, PartialEq, Eq, Structural)]
pub struct VendorStats {
    pub total_orders: u64,
    pub pending_orders: u64,
    pub completed_orders: u64,
    /// The sum of the vendor's payouts, in cents.
    pub total_revenue: u128,
}

/// The vendor's sub-orders among the first `n`, with how many are pending,
/// how many delivered, and the sum of their payouts.
pub open spec fn stats_prefix(rows: Seq<OrderSupplier>, vendor_id: i32, n: nat) -> (int, int, int, int)
    decreases n,
{
    if n == 0 {
        (0, 0, 0, 0)
    } else {
        let (t, p, c, r) = stats_prefix(rows, vendor_id, (n - 1) as nat);
        let row = rows[n - 1];
        if row.vendor_id == vendor_id {
            (
                t + 1,
                p + if row.status == OrderStatus::Pending { 1int } else { 0int },
                c + if row.status == OrderStatus::Delivered { 1int } else { 0int },
                r + row.payout_amount,
            )
        } else {
            (t, p, c, r)
        }
    }
}

proof fn lemma_stats_bounds(rows: Seq<OrderSupplier>, vendor_id: i32, n: nat)
    requires
        n <= rows.len(),
    ensures
        ({
            let (t, p, c, r) = stats_prefix(rows, vendor_id, n);
            0 <= p <= t && 0 <= c <= t && t <= n && 0 <= r <= n * 0xffff_ffff_ffff_ffff
        }),
    decreases n,
{
    if n > 0 {
        lemma_stats_bounds(rows, vendor_id, (n - 1) as nat);
    }
}

impl Store {
    /// How many sub-orders a vendor has, how many are pending and how many
    /// delivered, and the sum of their payouts.
    pub fn vendor_stats(&self, vendor_id: i32) -> (r: VendorStats)
        ensures
            ({
                let (t, p, c, rev) = stats_prefix(self@.suppliers, vendor_id, self@.suppliers.len());
                r.total_orders == t && r.pending_orders == p && r.completed_orders == c && r.total_revenue == rev
            }),
    {
        let mut r = VendorStats { total_orders: 0, pending_orders: 0, completed_orders: 0, total_revenue: 0 };
        let mut i: usize = 0;
        while i < self.suppliers.len()
            invariant
                i <= self.suppliers.len(),
                ({
                    let (t, p, c, rev) = stats_prefix(self@.suppliers, vendor_id, i as nat);
                    r.total_orders == t && r.pending_orders == p && r.completed_orders == c && r.total_revenue == rev
                }),
            decreases self.suppliers.len() - i,
        {
            proof {
                lemma_stats_bounds(self@.suppliers, vendor_id, (i + 1) as nat);
                assert((i + 1) * 0xffff_ffff_ffff_ffff <= 0x1_0000_0000_0000_0000 * 0xffff_ffff_ffff_ffff)
                    by (nonlinear_arith) requires i < 0x1_0000_0000_0000_0000int;
            }
            let row = &self.suppliers[i];
            if row.vendor_id == vendor_id {
                r.total_orders = r.total_orders + 1;
                if row.status == OrderStatus::Pending {
                    r.pending_orders = r.pending_orders + 1;
                }
                if row.status == OrderStatus::Delivered {
                    r.completed_orders = r.completed_orders + 1;
                }
                r.total_revenue = r.total_revenue + row.payout_amount as u128;
            }
            i += 1;
        }
        r
    }
}

} // verus!
