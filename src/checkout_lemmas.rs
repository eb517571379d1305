//! What every checkout guarantees, stated over the checkout's specification.

use vstd::prelude::*;
use crate::catalog::CartItem;
use crate::checkout::{
    checkout_spec, committed, discount_spec, lemma_checkout_preserves_wf, lemma_reserve_err_sticks,
    lemma_reserve_wf, line_vendors, reserve_prefix, reserve_spec, supplier_row, link_row, CheckoutRequest,
};
use crate::error::{Invalid, LedgerError};
use crate::grouping::{group_index, groups_of, lemma_entry_le_sum, lemma_groups, nonneg, sum_of};
use crate::ledger::{coupon_index, lemma_product_index_of, product_index, size_index, OrderSupplier, StoreView};
use crate::money::{lemma_rate_bounds, rate_of, MAX_AMOUNT};
use crate::pricing::CommerceConfig;

verus! {

/// The sum of the subtotals of sub-orders.
pub open spec fn supplier_subtotals(rows: Seq<OrderSupplier>) -> int
    decreases rows.len(),
{
    if rows.len() == 0 {
        0
    } else {
        supplier_subtotals(rows.drop_last()) + rows.last().subtotal
    }
}

proof fn lemma_rows_sum(s: StoreView, cfg: CommerceConfig, g: Seq<(i32, int)>, n: int)
    requires
        0 <= n <= g.len(),
        nonneg(g),
        sum_of(g) <= MAX_AMOUNT,
    ensures
        supplier_subtotals(Seq::new(n as nat, |j: int| supplier_row(s, cfg, j, g[j]))) == sum_of(g.take(n)),
    decreases n,
{
    if n > 0 {
        lemma_rows_sum(s, cfg, g, n - 1);
        let rows = Seq::new(n as nat, |j: int| supplier_row(s, cfg, j, g[j]));
        assert(rows.drop_last() =~= Seq::new((n - 1) as nat, |j: int| supplier_row(s, cfg, j, g[j])));
        assert(g.take(n).drop_last() =~= g.take(n - 1));
        lemma_entry_le_sum(g, n - 1);
    }
}

/// The store that a successful checkout leaves.
pub open spec fn after_checkout(
    s: StoreView,
    req: CheckoutRequest,
    cfg: CommerceConfig,
    now: i64,
    number: String,
) -> StoreView {
    checkout_spec(s, req, cfg, now, number)->Ok_0
}

/// The tables of a store fit in memory.
pub open spec fn fits(t: StoreView) -> bool {
    &&& t.details.len() <= usize::MAX
    &&& t.suppliers.len() <= usize::MAX
    &&& t.links.len() <= usize::MAX
}

/// An order that checkout writes balances: its total is its subtotal plus
/// shipping plus tax less discount, and the subtotals of the vendor
/// sub-orders written with it add up to its subtotal.
pub proof fn checkout_order_balances(
    s: StoreView,
    req: CheckoutRequest,
    cfg: CommerceConfig,
    now: i64,
    number: String,
)
    requires
        s.wf(),
        cfg.wf(),
        checkout_spec(s, req, cfg, now, number) is Ok,
    ensures
        ({
            let t = after_checkout(s, req, cfg, now, number);
            let o = t.orders.last();
            &&& t.orders.len() == s.orders.len() + 1
            &&& o.total == o.subtotal + o.shipping_cost + o.tax - o.discount
            &&& supplier_subtotals(t.suppliers.subrange(s.suppliers.len() as int, t.suppliers.len() as int))
                == o.subtotal
            &&& forall|i: int| s.suppliers.len() <= i < t.suppliers.len() ==> #[trigger] t.suppliers[i].order_id
                == o.id
        }),
{
    let t = after_checkout(s, req, cfg, now, number);
    lemma_reserve_wf(s, req.items@, req.items@.len());
    let st = reserve_spec(s, req.items@)->Ok_0;
    let dc = discount_spec(s, req.coupon_code, st.subtotal as u64, now)->Ok_0;
    let pairs = line_vendors(s, st.lines);
    let groups = groups_of(pairs);
    assert(nonneg(pairs));
    lemma_groups(pairs);
    assert(t == committed(s, req, cfg, now, number, st, dc.0, dc.1));
    let d = if (dc.0 as int) <= st.subtotal { dc.0 as int } else { st.subtotal };
    lemma_rate_bounds(st.subtotal - d, cfg.tax_rate_bp as int);
    lemma_rows_sum(s, cfg, groups, groups.len() as int);
    assert(groups.take(groups.len() as int) =~= groups);
    assert(t.suppliers.subrange(s.suppliers.len() as int, t.suppliers.len() as int) =~= Seq::new(
        groups.len(),
        |j: int| supplier_row(s, cfg, j, groups[j]),
    ));
}

/// Every sub-order that checkout writes takes the configured commission of
/// its subtotal, and its commission and payout add up to the subtotal
/// exactly.
pub proof fn checkout_splits_commission_exactly(
    s: StoreView,
    req: CheckoutRequest,
    cfg: CommerceConfig,
    now: i64,
    number: String,
)
    requires
        s.wf(),
        cfg.wf(),
        checkout_spec(s, req, cfg, now, number) is Ok,
    ensures
        ({
            let t = after_checkout(s, req, cfg, now, number);
            forall|i: int| s.suppliers.len() <= i < t.suppliers.len() ==> {
                &&& #[trigger] t.suppliers[i].commission_amount == rate_of(
                    t.suppliers[i].subtotal as int,
                    cfg.commission_rate_bp as int,
                )
                &&& t.suppliers[i].commission_amount + t.suppliers[i].payout_amount == t.suppliers[i].subtotal
                &&& t.suppliers[i].commission_rate_bp == cfg.commission_rate_bp
            }
        }),
{
    let t = after_checkout(s, req, cfg, now, number);
    lemma_reserve_wf(s, req.items@, req.items@.len());
    let st = reserve_spec(s, req.items@)->Ok_0;
    let dc = discount_spec(s, req.coupon_code, st.subtotal as u64, now)->Ok_0;
    let pairs = line_vendors(s, st.lines);
    let groups = groups_of(pairs);
    assert(nonneg(pairs));
    lemma_groups(pairs);
    assert(t == committed(s, req, cfg, now, number, st, dc.0, dc.1));
    assert forall|i: int| s.suppliers.len() <= i < t.suppliers.len() implies {
        &&& #[trigger] t.suppliers[i].commission_amount == rate_of(
            t.suppliers[i].subtotal as int,
            cfg.commission_rate_bp as int,
        )
        &&& t.suppliers[i].commission_amount + t.suppliers[i].payout_amount == t.suppliers[i].subtotal
        &&& t.suppliers[i].commission_rate_bp == cfg.commission_rate_bp
    } by {
        let j = i - s.suppliers.len();
        assert(t.suppliers[i] == supplier_row(s, cfg, j, groups[j]));
        lemma_entry_le_sum(groups, j);
        lemma_rate_bounds(groups[j].1, cfg.commission_rate_bp as int);
    }
}

/// Link `l` joins line `d` to a sub-order of the vendor of the line's product.
pub open spec fn link_goes_to_vendor(t: StoreView, d: int, l: int) -> bool {
    &&& 0 <= l < t.links.len()
    &&& t.links[l].order_detail_id == d
    &&& product_index(t.products, t.details[d].product_id) matches Some(p)
    &&& t.suppliers[t.links[l].order_supplier_id as int].vendor_id == t.products[p].vendor_id
}

/// Line `d` has exactly one link, and it goes to a sub-order of the vendor
/// of the line's product.
pub open spec fn linked_once_to_vendor(t: StoreView, d: int) -> bool {
    &&& exists|l: int| #[trigger] link_goes_to_vendor(t, d, l)
    &&& forall|l1: int, l2: int|
        0 <= l1 < t.links.len() && 0 <= l2 < t.links.len() && #[trigger] t.links[l1].order_detail_id == d
            && #[trigger] t.links[l2].order_detail_id == d ==> l1 == l2
}

/// Every line that checkout writes has exactly one link, and the sub-order
/// that it links to belongs to the vendor of the line's product.
pub proof fn checkout_links_each_line_to_its_vendor(
    s: StoreView,
    req: CheckoutRequest,
    cfg: CommerceConfig,
    now: i64,
    number: String,
)
    requires
        s.wf(),
        cfg.wf(),
        checkout_spec(s, req, cfg, now, number) is Ok,
        fits(after_checkout(s, req, cfg, now, number)),
    ensures
        ({
            let t = after_checkout(s, req, cfg, now, number);
            forall|d: int| s.details.len() <= d < t.details.len() ==> #[trigger] linked_once_to_vendor(t, d)
        }),
{
    let t = after_checkout(s, req, cfg, now, number);
    lemma_checkout_preserves_wf(s, req, cfg, now, number);
    lemma_reserve_wf(s, req.items@, req.items@.len());
    let st = reserve_spec(s, req.items@)->Ok_0;
    let dc = discount_spec(s, req.coupon_code, st.subtotal as u64, now)->Ok_0;
    let pairs = line_vendors(s, st.lines);
    let groups = groups_of(pairs);
    lemma_groups(pairs);
    assert(t == committed(s, req, cfg, now, number, st, dc.0, dc.1));
    assert forall|d: int| s.details.len() <= d < t.details.len() implies #[trigger] linked_once_to_vendor(t, d) by {
        let k = d - s.details.len();
        let l = s.links.len() + k;
        let pi = st.lines[k].product_index as int;
        assert(group_index(groups, pairs[k].0) is Some);
        let gi = group_index(groups, pairs[k].0)->Some_0;
        assert(t.links[l] == link_row(s, groups, pairs, k));
        assert(t.links[l].order_detail_id == d);
        assert(t.suppliers[s.suppliers.len() + gi] == supplier_row(s, cfg, gi, groups[gi]));
        assert(t.details[d].product_id == t.products[pi].id);
        lemma_product_index_of(t.products, pi);
        assert(link_goes_to_vendor(t, d, l));
        assert forall|l1: int, l2: int|
            0 <= l1 < t.links.len() && 0 <= l2 < t.links.len() && #[trigger] t.links[l1].order_detail_id
                == d && #[trigger] t.links[l2].order_detail_id == d implies l1 == l2 by {
            if l1 < s.links.len() {
                assert(s.links[l1].order_detail_id < s.details.len());
            }
            if l2 < s.links.len() {
                assert(s.links[l2].order_detail_id < s.details.len());
            }
        }
    }
}

/// The stock that the pool of a cart line holds in a store, if the line's
/// product and size exist.
pub open spec fn pool_stock(s: StoreView, item: CartItem) -> Option<int> {
    match product_index(s.products, item.product_id) {
        None => None,
        Some(p) => match item.size {
            None => Some(s.products[p].stock as int),
            Some(name) => match size_index(s.sizes, item.product_id, name@) {
                Some(z) => Some(s.sizes[z].stock as int),
                None => None,
            },
        },
    }
}

proof fn lemma_reserve_never_adds_stock(s: StoreView, items: Seq<CartItem>, k: nat)
    requires
        k <= items.len(),
    ensures
        reserve_prefix(s, items, k) matches Ok(st) ==> {
            &&& forall|i: int| 0 <= i < s.products.len() ==> st.product_stock[i] <= s.products[i].stock
            &&& forall|i: int| 0 <= i < s.sizes.len() ==> st.size_stock[i] <= s.sizes[i].stock
        },
    decreases k,
{
    lemma_reserve_wf(s, items, k);
    if k > 0 {
        lemma_reserve_never_adds_stock(s, items, (k - 1) as nat);
        lemma_reserve_wf(s, items, (k - 1) as nat);
    }
}

/// A cart line that asks for more units than its stock pool holds makes the
/// whole checkout fail, whatever the other lines ask; `checkout_at` then
/// leaves the store unchanged.
pub proof fn checkout_oversell_fails(
    s: StoreView,
    req: CheckoutRequest,
    cfg: CommerceConfig,
    now: i64,
    number: String,
    k: int,
)
    requires
        0 <= k < req.items@.len(),
        pool_stock(s, req.items@[k]) matches Some(n) && n < req.items@[k].quantity,
    ensures
        checkout_spec(s, req, cfg, now, number) is Err,
{
    let items = req.items@;
    lemma_reserve_never_adds_stock(s, items, k as nat);
    lemma_reserve_wf(s, items, k as nat);
    assert(reserve_prefix(s, items, (k + 1) as nat) is Err);
    lemma_reserve_err_sticks(s, items, (k + 1) as nat, items.len());
}

/// A one-line cart for an active product that asks for more than its pool
/// holds fails with a validation error naming the product.
pub proof fn checkout_single_line_oversell_error(
    s: StoreView,
    req: CheckoutRequest,
    cfg: CommerceConfig,
    now: i64,
    number: String,
)
    requires
        req.items@.len() == 1,
        product_index(s.products, req.items@[0].product_id) matches Some(p) && s.products[p].is_active,
        pool_stock(s, req.items@[0]) matches Some(n) && n < req.items@[0].quantity,
    ensures
        checkout_spec(s, req, cfg, now, number) == Err::<StoreView, LedgerError>(
            LedgerError::Validation(Invalid::InsufficientStock(req.items@[0].product_id)),
        ),
{
    assert(reserve_prefix(s, req.items@, 0) is Ok);
}

/// Two checkouts in a row never sell more than a product-level pool holds:
/// when the second asks for more than the first left, it fails.
pub proof fn checkout_twice_never_oversells(
    s: StoreView,
    first: CheckoutRequest,
    second: CheckoutRequest,
    cfg: CommerceConfig,
    now: i64,
    number1: String,
    number2: String,
    p: int,
)
    requires
        s.wf(),
        cfg.wf(),
        0 <= p < s.products.len(),
        first.items@.len() == 1,
        second.items@.len() == 1,
        first.items@[0].product_id == s.products[p].id,
        second.items@[0].product_id == s.products[p].id,
        first.items@[0].size is None,
        second.items@[0].size is None,
        first.items@[0].quantity + second.items@[0].quantity > s.products[p].stock,
        checkout_spec(s, first, cfg, now, number1) is Ok,
        fits(after_checkout(s, first, cfg, now, number1)),
    ensures
        ({
            let t = after_checkout(s, first, cfg, now, number1);
            &&& t.products[p].stock == s.products[p].stock - first.items@[0].quantity
            &&& checkout_spec(t, second, cfg, now, number2) is Err
        }),
{
    let t = after_checkout(s, first, cfg, now, number1);
    lemma_checkout_preserves_wf(s, first, cfg, now, number1);
    lemma_product_index_of(s.products, p);
    assert(reserve_prefix(s, first.items@, 0) is Ok);
    let st = reserve_spec(s, first.items@)->Ok_0;
    let dc = discount_spec(s, first.coupon_code, st.subtotal as u64, now)->Ok_0;
    assert(t == committed(s, first, cfg, now, number1, st, dc.0, dc.1));
    lemma_product_index_of(t.products, p);
    checkout_oversell_fails(t, second, cfg, now, number2, 0);
}

/// A coupon at its usage cap is refused.
pub proof fn exhausted_coupon_is_refused(
    s: StoreView,
    req: CheckoutRequest,
    cfg: CommerceConfig,
    now: i64,
    number: String,
    j: int,
)
    requires
        req.coupon_code matches Some(code) && coupon_index(s.coupons, code@) == Some(j),
        s.coupons[j].max_uses matches Some(n) && s.coupons[j].used_count >= n,
    ensures
        checkout_spec(s, req, cfg, now, number) is Err,
{
}

/// A successful checkout with a coupon counts exactly one more redemption of
/// it, and no count passes its cap.
pub proof fn checkout_counts_one_redemption(
    s: StoreView,
    req: CheckoutRequest,
    cfg: CommerceConfig,
    now: i64,
    number: String,
    j: int,
)
    requires
        s.wf(),
        cfg.wf(),
        req.coupon_code matches Some(code) && coupon_index(s.coupons, code@) == Some(j),
        checkout_spec(s, req, cfg, now, number) is Ok,
        fits(after_checkout(s, req, cfg, now, number)),
    ensures
        ({
            let t = after_checkout(s, req, cfg, now, number);
            &&& t.coupons[j].used_count == s.coupons[j].used_count + 1
            &&& t.coupons[j].max_uses matches Some(n) ==> t.coupons[j].used_count <= n
        }),
{
    lemma_checkout_preserves_wf(s, req, cfg, now, number);
    let t = after_checkout(s, req, cfg, now, number);
    let st = reserve_spec(s, req.items@)->Ok_0;
    let dc = discount_spec(s, req.coupon_code, st.subtotal as u64, now)->Ok_0;
    assert(t == committed(s, req, cfg, now, number, st, dc.0, dc.1));
    assert(t.coupons[j].wf());
}

} // verus!
