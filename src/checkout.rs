//! Checkout: turns a cart into an order, its lines, one sub-order per vendor
//! and the links between them, reserves stock and redeems the coupon, all
//! in one unit of work.

use vstd::prelude::*;
use crate::catalog::{copy_text, product_with_stock, size_with_stock, CartItem, Product, ProductSize};
use crate::coupon::Coupon;
use crate::dto::order::CreateOrderRequest;
use crate::error::{Invalid, LedgerError, Missing};
use crate::grouping::{
    distinct_vendors, group_index, groups_of, lemma_entry_le_sum, lemma_group_index_unique,
    lemma_groups, lemma_prefix_sum_le, nonneg, sum_of,
};
use crate::ledger::{
    coupon_index, product_index, size_index, Order, OrderDetail, OrderDetailSupplier,
    OrderStatus, OrderSupplier, Store, StoreView,
};
use crate::money::{apply_rate, lemma_rate_bounds, rate_of, MAX_AMOUNT};
use crate::pricing::{compute_totals, effective_price, effective_price_spec, totals_spec, CommerceConfig, Totals};

verus! {

/// A cart line after pricing: where its stock comes from, and what it costs.
#[derive(Clone, Copy, Debug, PartialEq, Eq, Structural)]
pub struct PricedLine {
    pub product_index: usize,
    pub size_index: Option<usize>,
    pub quantity: u32,
    pub unit_price: u64,
    pub total: u64,
}

/// The stock pools as the cart leaves them, the priced lines and their sum.
pub struct Reserved {
    pub product_stock: Seq<u32>,
    pub size_stock: Seq<u32>,
    pub lines: Seq<PricedLine>,
    pub subtotal: int,
}

pub struct Reservation {
    pub product_stock: Vec<u32>,
    pub size_stock: Vec<u32>,
    pub lines: Vec<PricedLine>,
    pub subtotal: u64,
}

impl View for Reservation {
    type V = Reserved;

    open spec fn view(&self) -> Reserved {
        Reserved {
            product_stock: self.product_stock@,
            size_stock: self.size_stock@,
            lines: self.lines@,
            subtotal: self.subtotal as int,
        }
    }
}

/// Nothing reserved yet: the pools as the store holds them.
pub open spec fn reserved_init(s: StoreView) -> Reserved {
    Reserved {
        product_stock: Seq::new(s.products.len(), |i: int| s.products[i].stock),
        size_stock: Seq::new(s.sizes.len(), |i: int| s.sizes[i].stock),
        lines: Seq::empty(),
        subtotal: 0,
    }
}

/// Takes `quantity` from pool `pool` and adds the line.
pub open spec fn take_stock(
    st: Reserved,
    from_size: bool,
    pool: int,
    line: PricedLine,
) -> Reserved {
    Reserved {
        product_stock: if from_size {
            st.product_stock
        } else {
            st.product_stock.update(pool, (st.product_stock[pool] - line.quantity) as u32)
        },
        size_stock: if from_size {
            st.size_stock.update(pool, (st.size_stock[pool] - line.quantity) as u32)
        } else {
            st.size_stock
        },
        lines: st.lines.push(line),
        subtotal: st.subtotal + line.total,
    }
}

/// Prices one cart line against the pools left by the lines before it.
pub open spec fn reserve_step(s: StoreView, st: Reserved, item: CartItem) -> Result<Reserved, LedgerError> {
    let id = item.product_id;
    match product_index(s.products, id) {
        None => Err(LedgerError::NotFound(Missing::Product(id))),
        Some(p) => {
            let prod = s.products[p];
            let unit = effective_price_spec(prod.price, prod.discount_price);
            let line_total = unit * item.quantity;
            let pool: Option<int> = match item.size {
                None => Some(p),
                Some(name) => size_index(s.sizes, id, name@),
            };
            if !prod.is_active {
                Err(LedgerError::Validation(Invalid::ProductUnavailable(id)))
            } else if item.quantity <= 0 {
                Err(LedgerError::Validation(Invalid::Quantity(id)))
            } else if pool is None {
                Err(LedgerError::NotFound(Missing::Size(id)))
            } else {
                let from_size = item.size is Some;
                let z = pool->Some_0;
                let available = if from_size { st.size_stock[z] } else { st.product_stock[z] };
                if available < item.quantity {
                    Err(LedgerError::Validation(Invalid::InsufficientStock(id)))
                } else if st.subtotal + line_total > MAX_AMOUNT {
                    Err(LedgerError::Validation(Invalid::AmountTooLarge))
                } else {
                    let line = PricedLine {
                        product_index: p as usize,
                        size_index: if from_size { Some(z as usize) } else { None },
                        quantity: item.quantity as u32,
                        unit_price: unit,
                        total: line_total as u64,
                    };
                    Ok(take_stock(st, from_size, z, line))
                }
            }
        },
    }
}

/// Prices the first `k` cart lines; the first line that fails decides.
pub open spec fn reserve_prefix(s: StoreView, items: Seq<CartItem>, k: nat) -> Result<Reserved, LedgerError>
    decreases k,
{
    if k == 0 {
        Ok(reserved_init(s))
    } else {
        match reserve_prefix(s, items, (k - 1) as nat) {
            Err(e) => Err(e),
            Ok(st) => reserve_step(s, st, items[k - 1]),
        }
    }
}

pub open spec fn reserve_spec(s: StoreView, items: Seq<CartItem>) -> Result<Reserved, LedgerError> {
    reserve_prefix(s, items, items.len())
}

/// The vendor and the total of each priced line.
pub open spec fn line_vendors(s: StoreView, lines: Seq<PricedLine>) -> Seq<(i32, int)> {
    Seq::new(
        lines.len(),
        |k: int| (s.products[lines[k].product_index as int].vendor_id, lines[k].total as int),
    )
}

/// What holds of every reservation state: the pools keep their sizes, the
/// lines point into them and stay within the amount limit.
pub open spec fn reserved_wf(s: StoreView, st: Reserved) -> bool {
    &&& st.product_stock.len() == s.products.len()
    &&& st.size_stock.len() == s.sizes.len()
    &&& 0 <= st.subtotal <= MAX_AMOUNT
    &&& st.subtotal == sum_of(line_vendors(s, st.lines))
    &&& forall|k: int| 0 <= k < st.lines.len() ==> {
        &&& (st.lines[k].product_index as int) < s.products.len()
        &&& st.lines[k].total <= MAX_AMOUNT
    }
}

pub proof fn lemma_reserve_wf(s: StoreView, items: Seq<CartItem>, k: nat)
    requires
        k <= items.len(),
    ensures
        reserve_prefix(s, items, k) matches Ok(st) ==> reserved_wf(s, st) && st.lines.len() == k,
    decreases k,
{
    if k > 0 {
        lemma_reserve_wf(s, items, (k - 1) as nat);
        if let Ok(prev) = reserve_prefix(s, items, (k - 1) as nat) {
            if let Ok(st) = reserve_prefix(s, items, k) {
                assert(line_vendors(s, st.lines).drop_last() =~= line_vendors(s, prev.lines));
            }
        }
    }
}

/// Once a line fails, the longer prefixes fail the same way.
pub proof fn lemma_reserve_err_sticks(s: StoreView, items: Seq<CartItem>, k: nat, m: nat)
    requires
        k <= m <= items.len(),
        reserve_prefix(s, items, k) is Err,
    ensures
        reserve_prefix(s, items, m) == reserve_prefix(s, items, k),
    decreases m - k,
{
    if m > k {
        lemma_reserve_err_sticks(s, items, k, (m - 1) as nat);
    }
}

/// A checkout as the customer submits it.
pub struct CheckoutRequest {
    pub user_id: i32,
    pub items: Vec<CartItem>,
    pub shipping_address: String,
    pub billing_address: String,
    pub phone: String,
    pub email: String,
    pub notes: Option<String>,
    pub coupon_code: Option<String>,
}

impl CheckoutRequest {
    /// The checkout that a customer's order request asks for; without a
    /// billing address, the shipping address is billed.
    pub fn from_create_order(user_id: i32, req: CreateOrderRequest) -> (r: CheckoutRequest)
        ensures
            r.user_id == user_id,
            r.items == req.items,
            r.shipping_address == req.shipping_address,
            r.billing_address == (match req.billing_address {
                Some(b) => b,
                None => req.shipping_address,
            }),
            r.phone == req.phone,
            r.email == req.email,
            r.notes == req.notes,
            r.coupon_code == req.coupon_code,
    {
        let billing_address = match req.billing_address {
            Some(b) => b,
            None => req.shipping_address.clone(),
        };
        CheckoutRequest {
            user_id,
            items: req.items,
            shipping_address: req.shipping_address,
            billing_address,
            phone: req.phone,
            email: req.email,
            notes: req.notes,
            coupon_code: req.coupon_code,
        }
    }
}

/// The discount and the position of the redeemed coupon, if a code is given.
pub open spec fn discount_spec(s: StoreView, code: Option<String>, subtotal: u64, now: i64) -> Result<
    (u64, Option<int>),
    LedgerError,
> {
    match code {
        None => Ok((0u64, None)),
        Some(c) => match coupon_index(s.coupons, c@) {
            None => Err(LedgerError::Validation(Invalid::CouponUnknown)),
            Some(j) => match s.coupons[j].validate_spec(subtotal, now) {
                Ok(d) => Ok((d, Some(j))),
                Err(e) => Err(LedgerError::Validation(e)),
            },
        },
    }
}

pub open spec fn number_taken(s: StoreView, n: Seq<char>) -> bool {
    exists|i: int| 0 <= i < s.orders.len() && s.orders[i].order_number@ == n
}

pub open spec fn order_row(
    s: StoreView,
    req: CheckoutRequest,
    number: String,
    t: Totals,
    coupon: Option<int>,
    now: i64,
) -> Order {
    Order {
        id: s.orders.len() as usize,
        user_id: req.user_id,
        order_number: number,
        status: OrderStatus::Pending,
        subtotal: t.subtotal,
        shipping_cost: t.shipping,
        tax: t.tax,
        discount: t.discount,
        total: t.total,
        shipping_address: req.shipping_address,
        billing_address: req.billing_address,
        phone: req.phone,
        email: req.email,
        notes: req.notes,
        coupon_id: match coupon {
            Some(j) => Some(s.coupons[j].id),
            None => None,
        },
        created_at: now,
    }
}

/// The order line for a priced cart line, with the product's name and price
/// at purchase.
pub open spec fn detail_row(s: StoreView, k: int, line: PricedLine, item: CartItem) -> OrderDetail {
    let p = s.products[line.product_index as int];
    OrderDetail {
        id: (s.details.len() + k) as usize,
        order_id: s.orders.len() as usize,
        product_id: p.id,
        product_name: p.name,
        size: item.size,
        quantity: line.quantity,
        unit_price: line.unit_price,
        total_price: line.total,
    }
}

/// The sub-order of one vendor group: commission at the configured rate,
/// the rest paid out.
pub open spec fn supplier_row(s: StoreView, cfg: CommerceConfig, j: int, group: (i32, int)) -> OrderSupplier {
    let commission = rate_of(group.1, cfg.commission_rate_bp as int);
    OrderSupplier {
        id: (s.suppliers.len() + j) as usize,
        order_id: s.orders.len() as usize,
        vendor_id: group.0,
        status: OrderStatus::Pending,
        subtotal: group.1 as u64,
        commission_rate_bp: cfg.commission_rate_bp,
        commission_amount: commission as u64,
        payout_amount: (group.1 - commission) as u64,
        tracking_number: None,
        shipped_at: None,
        delivered_at: None,
        referral_settled: false,
    }
}

/// The link of order line `k` to the sub-order of its vendor.
pub open spec fn link_row(s: StoreView, groups: Seq<(i32, int)>, pairs: Seq<(i32, int)>, k: int) -> OrderDetailSupplier {
    OrderDetailSupplier {
        id: (s.links.len() + k) as usize,
        order_supplier_id: (s.suppliers.len() + group_index(groups, pairs[k].0)->Some_0) as usize,
        order_detail_id: (s.details.len() + k) as usize,
    }
}

/// The store after a checkout whose checks all passed.
pub open spec fn committed(
    s: StoreView,
    req: CheckoutRequest,
    cfg: CommerceConfig,
    now: i64,
    number: String,
    st: Reserved,
    discount: u64,
    coupon: Option<int>,
) -> StoreView {
    let t = totals_spec(cfg, st.subtotal, discount as int);
    let pairs = line_vendors(s, st.lines);
    let groups = groups_of(pairs);
    StoreView {
        products: Seq::new(s.products.len(), |i: int| Product { stock: st.product_stock[i], ..s.products[i] }),
        sizes: Seq::new(s.sizes.len(), |i: int| ProductSize { stock: st.size_stock[i], ..s.sizes[i] }),
        coupons: match coupon {
            Some(j) => s.coupons.update(j, Coupon { used_count: (s.coupons[j].used_count + 1) as u32, ..s.coupons[j] }),
            None => s.coupons,
        },
        orders: s.orders.push(order_row(s, req, number, t, coupon, now)),
        details: s.details + Seq::new(st.lines.len(), |k: int| detail_row(s, k, st.lines[k], req.items@[k])),
        suppliers: s.suppliers + Seq::new(groups.len(), |j: int| supplier_row(s, cfg, j, groups[j])),
        links: s.links + Seq::new(st.lines.len(), |k: int| link_row(s, groups, pairs, k)),
        profiles: s.profiles,
        bank_accounts: s.bank_accounts,
        vendor_payments: s.vendor_payments,
        payments: s.payments,
    }
}

/// Checkout: price and reserve every line (the first failing line decides),
/// then the coupon, then the order number's uniqueness; only when all pass is
/// anything written.
pub open spec fn checkout_spec(
    s: StoreView,
    req: CheckoutRequest,
    cfg: CommerceConfig,
    now: i64,
    number: String,
) -> Result<StoreView, LedgerError> {
    match reserve_spec(s, req.items@) {
        Err(e) => Err(e),
        Ok(st) => match discount_spec(s, req.coupon_code, st.subtotal as u64, now) {
            Err(e) => Err(e),
            Ok((d, coupon)) => if number_taken(s, number@) {
                Err(LedgerError::Conflict)
            } else {
                Ok(committed(s, req, cfg, now, number, st, d, coupon))
            },
        },
    }
}

/// The tables that the writing of lines, sub-orders and links leaves alone.
pub open spec fn rest_unchanged(x: StoreView, s: StoreView) -> bool {
    &&& x.products == s.products
    &&& x.sizes == s.sizes
    &&& x.coupons == s.coupons
    &&& x.orders == s.orders
    &&& x.profiles == s.profiles
    &&& x.bank_accounts == s.bank_accounts
    &&& x.vendor_payments == s.vendor_payments
    &&& x.payments == s.payments
}

/// A successful checkout keeps the store well formed.
pub proof fn lemma_checkout_preserves_wf(
    s: StoreView,
    req: CheckoutRequest,
    cfg: CommerceConfig,
    now: i64,
    number: String,
)
    requires
        s.wf(),
        cfg.wf(),
    ensures
        checkout_spec(s, req, cfg, now, number) matches Ok(t) ==> (t.details.len() <= usize::MAX
            && t.suppliers.len() <= usize::MAX ==> t.wf()),
{
    lemma_reserve_wf(s, req.items@, req.items@.len());
    if let Ok(t) = checkout_spec(s, req, cfg, now, number) {
        if t.details.len() <= usize::MAX && t.suppliers.len() <= usize::MAX {
            let st = reserve_spec(s, req.items@)->Ok_0;
            let dc = discount_spec(s, req.coupon_code, st.subtotal as u64, now)->Ok_0;
            let pairs = line_vendors(s, st.lines);
            let groups = groups_of(pairs);
            assert(nonneg(pairs));
            lemma_groups(pairs);
            assert(t == committed(s, req, cfg, now, number, st, dc.0, dc.1));
            let n = s.suppliers.len();
            assert forall|i: int| 0 <= i < t.suppliers.len() implies #[trigger] t.suppliers[i].commission_amount
                + t.suppliers[i].payout_amount == t.suppliers[i].subtotal by {
                if i >= n {
                    lemma_entry_le_sum(groups, i - n);
                    lemma_rate_bounds(groups[i - n].1, cfg.commission_rate_bp as int);
                }
            }
            assert forall|i: int| 0 <= i < t.links.len() implies {
                &&& #[trigger] t.links[i].order_detail_id < t.details.len()
                &&& t.links[i].order_supplier_id < t.suppliers.len()
            } by {
                if i >= s.links.len() {
                    let k = i - s.links.len();
                    assert(group_index(groups, pairs[k].0) is Some);
                    let gi = group_index(groups, pairs[k].0)->Some_0;
                    assert(0 <= gi < groups.len());
                    assert(t.links[i] == link_row(s, groups, pairs, k));
                    assert(t.suppliers.len() == s.suppliers.len() + groups.len());
                    assert(t.details.len() == s.details.len() + st.lines.len());
                    assert(t.links[i].order_supplier_id == s.suppliers.len() + gi);
                } else {
                    assert(t.links[i] == s.links[i]);
                    assert(s.links[i].order_detail_id < s.details.len());
                }
            }
            assert forall|i: int| 0 <= i < t.coupons.len() implies t.coupons[i].wf() by {
                assert(s.coupons[i].wf());
            }
            assert forall|i: int, j: int| 0 <= i < j < t.products.len() implies t.products[i].id != t.products[j].id by {
                assert(s.products[i].id != s.products[j].id);
            }
            assert forall|i: int, j: int| 0 <= i < j < t.sizes.len() implies !(t.sizes[i].product_id == t.sizes[j].product_id
                && t.sizes[i].size@ == t.sizes[j].size@) by {
                assert(!(s.sizes[i].product_id == s.sizes[j].product_id && s.sizes[i].size@ == s.sizes[j].size@));
            }
            assert forall|i: int, j: int| 0 <= i < j < t.coupons.len() implies t.coupons[i].code@ != t.coupons[j].code@ by {
                assert(s.coupons[i].code@ != s.coupons[j].code@);
            }
        }
    }
}

pub open spec fn group_view(g: Seq<(i32, u64)>) -> Seq<(i32, int)> {
    g.map_values(|x: (i32, u64)| (x.0, x.1 as int))
}

/// The position of a vendor among groups with distinct vendors.
fn find_group(g: &Vec<(i32, u64)>, v: i32) -> (r: Option<usize>)
    requires
        distinct_vendors(group_view(g@)),
    ensures
        r matches Some(j) ==> group_index(group_view(g@), v) == Some(j as int) && j < g.len(),
        r is None ==> group_index(group_view(g@), v) is None,
{
    let mut j: usize = 0;
    while j < g.len()
        invariant
            j <= g.len(),
            distinct_vendors(group_view(g@)),
            forall|i: int| 0 <= i < j ==> g@[i].0 != v,
        decreases g.len() - j,
    {
        if g[j].0 == v {
            proof {
                assert(group_view(g@)[j as int].0 == v);
                lemma_group_index_unique(group_view(g@), j as int);
            }
            return Some(j);
        }
        j += 1;
    }
    proof {
        assert forall|i: int| 0 <= i < group_view(g@).len() implies group_view(g@)[i].0 != v by {
            assert(group_view(g@)[i].0 == g@[i].0);
        }
    }
    None
}

impl Store {
    /// Groups priced lines by the vendor of their product, in order of first
    /// appearance, with the sum of each vendor's line totals.
    fn group_by_vendor(&self, lines: &Vec<PricedLine>) -> (r: Vec<(i32, u64)>)
        requires
            forall|k: int| 0 <= k < lines@.len() ==> (lines@[k].product_index as int) < self@.products.len(),
            sum_of(line_vendors(self@, lines@)) <= MAX_AMOUNT,
        ensures
            group_view(r@) == groups_of(line_vendors(self@, lines@)),
    {
        let ghost pairs = line_vendors(self@, lines@);
        assert(nonneg(pairs));
        let mut g: Vec<(i32, u64)> = Vec::new();
        let mut k: usize = 0;
        assert(pairs.take(0) =~= Seq::<(i32, int)>::empty());
        assert(group_view(g@) =~= groups_of(pairs.take(0)));
        while k < lines.len()
            invariant
                k <= lines.len(),
                pairs == line_vendors(self@, lines@),
                nonneg(pairs),
                forall|i: int| 0 <= i < lines@.len() ==> (lines@[i].product_index as int) < self@.products.len(),
                sum_of(pairs) <= MAX_AMOUNT,
                group_view(g@) == groups_of(pairs.take(k as int)),
            decreases lines.len() - k,
        {
            let line = lines[k];
            let v = self.products[line.product_index].vendor_id;
            let ghost before = pairs.take(k as int);
            let ghost after = pairs.take((k + 1) as int);
            proof {
                lemma_groups(before);
                lemma_groups(after);
                assert(after.drop_last() =~= before);
                assert(after.last() == pairs[k as int]);
                assert(nonneg(after));
                lemma_prefix_sum_le(pairs, (k + 1) as int);
            }
            match find_group(&g, v) {
                Some(j) => {
                    proof {
                        lemma_entry_le_sum(groups_of(after), j as int);
                    }
                    let (w, amount) = g[j];
                    g.set(j, (w, amount + line.total));
                },
                None => {
                    g.push((v, line.total));
                },
            }
            proof {
                assert(group_view(g@) =~= groups_of(after));
            }
            k += 1;
        }
        assert(pairs.take(lines@.len() as int) =~= pairs);
        g
    }

    /// The discount that a coupon code gives on a subtotal, and the coupon's
    /// position; no code, no discount.
    fn discount_for(&self, code: &Option<String>, subtotal: u64, now: i64) -> (r: Result<(u64, Option<usize>), LedgerError>)
        requires
            self@.wf(),
        ensures
            match r {
                Ok((d, c)) => {
                    &&& discount_spec(self@, *code, subtotal, now) == Ok::<(u64, Option<int>), LedgerError>(
                        (d, match c { Some(j) => Some(j as int), None => None }))
                    &&& (c matches Some(j) ==> j < self@.coupons.len())
                },
                Err(e) => discount_spec(self@, *code, subtotal, now) == Err::<(u64, Option<int>), LedgerError>(e),
            },
    {
        match code {
            None => Ok((0, None)),
            Some(c) => match self.find_coupon(c) {
                None => Err(LedgerError::Validation(Invalid::CouponUnknown)),
                Some(j) => match self.coupons[j].validate(subtotal, now) {
                    Ok(d) => Ok((d, Some(j))),
                    Err(e) => Err(LedgerError::Validation(e)),
                },
            },
        }
    }

    /// Whether an order already has this number.
    pub fn order_number_taken(&self, number: &String) -> (r: bool)
        ensures
            r == number_taken(self@, number@),
    {
        let mut i: usize = 0;
        while i < self.orders.len()
            invariant
                i <= self.orders.len(),
                forall|k: int| 0 <= k < i ==> self.orders@[k].order_number@ != number@,
            decreases self.orders.len() - i,
        {
            if self.orders[i].order_number == *number {
                return true;
            }
            i += 1;
        }
        false
    }

    /// Places an order with a given order number: reserves stock, redeems
    /// the coupon, writes the order, its lines, one sub-order per vendor and
    /// the links from lines to sub-orders. On error nothing is written.
    pub fn checkout_at(
        &mut self,
        req: &CheckoutRequest,
        cfg: &CommerceConfig,
        now: i64,
        order_number: String,
    ) -> (r: Result<usize, LedgerError>)
        requires
            old(self)@.wf(),
            cfg.wf(),
        ensures
            final(self)@.wf(),
            match r {
                Ok(id) => {
                    &&& id == old(self)@.orders.len()
                    &&& checkout_spec(old(self)@, *req, *cfg, now, order_number) == Ok::<StoreView, LedgerError>(final(self)@)
                },
                Err(e) => {
                    &&& checkout_spec(old(self)@, *req, *cfg, now, order_number) == Err::<StoreView, LedgerError>(e)
                    &&& final(self)@ == old(self)@
                },
            },
    {
        let ghost s = self@;
        let res = match self.reserve(&req.items) {
            Err(e) => {
                return Err(e);
            },
            Ok(res) => res,
        };
        proof {
            lemma_reserve_wf(s, req.items@, req.items@.len());
        }
        let (discount, coupon) = match self.discount_for(&req.coupon_code, res.subtotal, now) {
            Err(e) => {
                return Err(e);
            },
            Ok(x) => x,
        };
        if self.order_number_taken(&order_number) {
            return Err(LedgerError::Conflict);
        }
        let ghost st = res@;
        let ghost coupon_pos: Option<int> = match coupon { Some(j) => Some(j as int), None => None };
        let ghost pairs = line_vendors(s, st.lines);
        let ghost groups = groups_of(pairs);
        let totals = compute_totals(cfg, res.subtotal, discount);
        let grouped = self.group_by_vendor(&res.lines);
        proof {
            lemma_groups(pairs);
        }
        let order_id = self.orders.len();
        let supplier_base = self.suppliers.len();
        let detail_base = self.details.len();

        // Order lines, one per cart line.
        let mut k: usize = 0;
        while k < res.lines.len()
            invariant
                k <= res.lines.len(),
                st == res@,
                reserved_wf(s, st),
                st.lines.len() == req.items@.len(),
                rest_unchanged(self@, s),
                order_id == s.orders.len(),
                self.details@ =~= s.details + Seq::new(k as nat, |i: int| detail_row(s, i, st.lines[i], req.items@[i])),
                self.suppliers@ == s.suppliers,
                self.links@ == s.links,
                detail_base == s.details.len(),
            decreases res.lines.len() - k,
        {
            let line = res.lines[k];
            let p = &self.products[line.product_index];
            let detail = OrderDetail {
                id: self.details.len(),
                order_id,
                product_id: p.id,
                product_name: p.name.clone(),
                size: copy_text(&req.items[k].size),
                quantity: line.quantity,
                unit_price: line.unit_price,
                total_price: line.total,
            };
            self.details.push(detail);
            k += 1;
        }

        // One sub-order per vendor.
        let mut j: usize = 0;
        while j < grouped.len()
            invariant
                j <= grouped.len(),
                cfg.wf(),
                group_view(grouped@) == groups,
                nonneg(groups),
                sum_of(groups) == st.subtotal,
                st.subtotal <= MAX_AMOUNT,
                rest_unchanged(self@, s),
                order_id == s.orders.len(),
                self.details@.len() == detail_base + st.lines.len(),
                self.details@ == s.details + Seq::new(st.lines.len(), |i: int| detail_row(s, i, st.lines[i], req.items@[i])),
                self.links@ == s.links,
                self.suppliers@ =~= s.suppliers + Seq::new(j as nat, |i: int| supplier_row(s, *cfg, i, groups[i])),
                supplier_base == s.suppliers.len(),
                detail_base == s.details.len(),
            decreases grouped.len() - j,
        {
            let (vendor_id, subtotal) = grouped[j];
            let commission = apply_rate(subtotal, cfg.commission_rate_bp);
            let supplier = OrderSupplier {
                id: self.suppliers.len(),
                order_id,
                vendor_id,
                status: OrderStatus::Pending,
                subtotal,
                commission_rate_bp: cfg.commission_rate_bp,
                commission_amount: commission,
                payout_amount: subtotal - commission,
                tracking_number: None,
                shipped_at: None,
                delivered_at: None,
                referral_settled: false,
            };
            proof {
                lemma_entry_le_sum(groups, j as int);
            }
            self.suppliers.push(supplier);
            j += 1;
        }

        // One link per order line, to the sub-order of its vendor.
        let mut k: usize = 0;
        while k < res.lines.len()
            invariant
                k <= res.lines.len(),
                st == res@,
                reserved_wf(s, st),
                rest_unchanged(self@, s),
                self.details@ == s.details + Seq::new(st.lines.len(), |i: int| detail_row(s, i, st.lines[i], req.items@[i])),
                self.suppliers@ == s.suppliers + Seq::new(groups.len(), |i: int| supplier_row(s, *cfg, i, groups[i])),
                group_view(grouped@) == groups,
                distinct_vendors(groups),
                forall|i: int| 0 <= i < pairs.len() ==> #[trigger] group_index(groups, pairs[i].0) is Some,
                pairs == line_vendors(s, st.lines),
                self.suppliers@.len() == supplier_base + groups.len(),
                self.details@.len() == detail_base + st.lines.len(),
                supplier_base == s.suppliers.len(),
                detail_base == s.details.len(),
                self.links@ =~= s.links + Seq::new(k as nat, |i: int| link_row(s, groups, pairs, i)),
            decreases res.lines.len() - k,
        {
            let line = res.lines[k];
            let v = self.products[line.product_index].vendor_id;
            proof {
                assert(group_index(groups, pairs[k as int].0) is Some);
            }
            let g = match find_group(&grouped, v) {
                Some(g) => g,
                None => {
                    proof {
                        assert(false);
                    }
                    0
                },
            };
            let supplier_count = self.suppliers.len();
            let detail_count = self.details.len();
            assert(g < grouped@.len());
            assert(supplier_base + g < supplier_count);
            assert(detail_base + k < detail_count);
            let link = OrderDetailSupplier {
                id: self.links.len(),
                order_supplier_id: supplier_base + g,
                order_detail_id: detail_base + k,
            };
            proof {
                assert(link == link_row(s, groups, pairs, k as int));
            }
            self.links.push(link);
            k += 1;
        }

        // Stock leaves the pools.
        let mut products: Vec<Product> = Vec::new();
        let mut i: usize = 0;
        while i < self.products.len()
            invariant
                i <= self.products.len(),
                self.products@ == s.products,
                st == res@,
                reserved_wf(s, st),
                products@ =~= Seq::new(i as nat, |x: int| Product { stock: st.product_stock[x], ..s.products[x] }),
            decreases self.products.len() - i,
        {
            products.push(product_with_stock(&self.products[i], res.product_stock[i]));
            i += 1;
        }
        self.products = products;
        let mut sizes: Vec<ProductSize> = Vec::new();
        let mut i: usize = 0;
        while i < self.sizes.len()
            invariant
                i <= self.sizes.len(),
                self.sizes@ == s.sizes,
                st == res@,
                reserved_wf(s, st),
                sizes@ =~= Seq::new(i as nat, |x: int| ProductSize { stock: st.size_stock[x], ..s.sizes[x] }),
            decreases self.sizes.len() - i,
        {
            sizes.push(size_with_stock(&self.sizes[i], res.size_stock[i]));
            i += 1;
        }
        self.sizes = sizes;

        // The coupon counts one more redemption.
        let coupon_id = match coupon {
            Some(j) => {
                let id = self.coupons[j].id;
                let redeemed = self.coupons[j].redeemed();
                self.coupons.set(j, redeemed);
                Some(id)
            },
            None => None,
        };

        let order = Order {
            id: order_id,
            user_id: req.user_id,
            order_number,
            status: OrderStatus::Pending,
            subtotal: totals.subtotal,
            shipping_cost: totals.shipping,
            tax: totals.tax,
            discount: totals.discount,
            total: totals.total,
            shipping_address: req.shipping_address.clone(),
            billing_address: req.billing_address.clone(),
            phone: req.phone.clone(),
            email: req.email.clone(),
            notes: copy_text(&req.notes),
            coupon_id,
            created_at: now,
        };
        self.orders.push(order);
        proof {
            let want = committed(s, *req, *cfg, now, order_number, st, discount, coupon_pos);
            assert(self@.products =~= want.products);
            assert(self@.sizes =~= want.sizes);
            assert(self@.coupons =~= want.coupons);
            assert(self@.orders =~= want.orders);
            assert(self@.details =~= want.details);
            assert(self@.suppliers =~= want.suppliers);
            assert(self@.links =~= want.links);
            assert(self@.details.len() == self.details.len());
            assert(self@.suppliers.len() == self.suppliers.len());
            lemma_checkout_preserves_wf(s, *req, *cfg, now, order_number);
        }
        Ok(order_id)
    }

    /// Prices the cart against the catalogue and reserves stock on working
    /// copies of the pools; the store itself is not changed.
    pub fn reserve(&self, items: &Vec<CartItem>) -> (r: Result<Reservation, LedgerError>)
        requires
            self@.wf(),
        ensures
            match r {
                Ok(res) => reserve_spec(self@, items@) == Ok::<Reserved, LedgerError>(res@),
                Err(e) => reserve_spec(self@, items@) == Err::<Reserved, LedgerError>(e),
            },
    {
        let mut product_stock: Vec<u32> = Vec::new();
        let mut i: usize = 0;
        while i < self.products.len()
            invariant
                i <= self.products.len(),
                product_stock@ =~= Seq::new(i as nat, |j: int| self@.products[j].stock),
            decreases self.products.len() - i,
        {
            product_stock.push(self.products[i].stock);
            i += 1;
        }
        let mut size_stock: Vec<u32> = Vec::new();
        let mut i: usize = 0;
        while i < self.sizes.len()
            invariant
                i <= self.sizes.len(),
                size_stock@ =~= Seq::new(i as nat, |j: int| self@.sizes[j].stock),
            decreases self.sizes.len() - i,
        {
            size_stock.push(self.sizes[i].stock);
            i += 1;
        }
        let mut res = Reservation { product_stock, size_stock, lines: Vec::new(), subtotal: 0 };
        assert(res@ == reserved_init(self@));
        let mut k: usize = 0;
        while k < items.len()
            invariant
                self@.wf(),
                k <= items.len(),
                reserve_prefix(self@, items@, k as nat) == Ok::<Reserved, LedgerError>(res@),
            decreases items.len() - k,
        {
            proof {
                lemma_reserve_wf(self@, items@, k as nat);
            }
            let item = &items[k];
            let id = item.product_id;
            let p = match self.find_product(id) {
                None => {
                    proof {
                        lemma_reserve_err_sticks(self@, items@, (k + 1) as nat, items.len() as nat);
                    }
                    return Err(LedgerError::NotFound(Missing::Product(id)));
                },
                Some(p) => p,
            };
            let prod = &self.products[p];
            let unit = effective_price(prod.price, prod.discount_price);
            let pool: Option<usize> = match &item.size {
                None => Some(p),
                Some(name) => self.find_size(id, name),
            };
            if !prod.is_active {
                proof {
                    lemma_reserve_err_sticks(self@, items@, (k + 1) as nat, items.len() as nat);
                }
                return Err(LedgerError::Validation(Invalid::ProductUnavailable(id)));
            }
            if item.quantity <= 0 {
                proof {
                    lemma_reserve_err_sticks(self@, items@, (k + 1) as nat, items.len() as nat);
                }
                return Err(LedgerError::Validation(Invalid::Quantity(id)));
            }
            let z = match pool {
                None => {
                    proof {
                        lemma_reserve_err_sticks(self@, items@, (k + 1) as nat, items.len() as nat);
                    }
                    return Err(LedgerError::NotFound(Missing::Size(id)));
                },
                Some(z) => z,
            };
            let from_size = item.size.is_some();
            let available = if from_size { res.size_stock[z] } else { res.product_stock[z] };
            if (available as i64) < (item.quantity as i64) {
                proof {
                    lemma_reserve_err_sticks(self@, items@, (k + 1) as nat, items.len() as nat);
                }
                return Err(LedgerError::Validation(Invalid::InsufficientStock(id)));
            }
            proof {
                assert((unit as int) * (item.quantity as int) <= MAX_AMOUNT * 0x8000_0000) by (nonlinear_arith)
                    requires unit <= MAX_AMOUNT, 0 < item.quantity <= 0x7fff_ffff;
            }
            let line_total: u128 = (unit as u128) * (item.quantity as u128);
            if (res.subtotal as u128) + line_total > MAX_AMOUNT as u128 {
                proof {
                    lemma_reserve_err_sticks(self@, items@, (k + 1) as nat, items.len() as nat);
                }
                return Err(LedgerError::Validation(Invalid::AmountTooLarge));
            }
            let quantity = item.quantity as u32;
            let line = PricedLine {
                product_index: p,
                size_index: if from_size { Some(z) } else { None },
                quantity,
                unit_price: unit,
                total: line_total as u64,
            };
            let ghost before = res@;
            if from_size {
                let left = res.size_stock[z] - quantity;
                res.size_stock.set(z, left);
            } else {
                let left = res.product_stock[z] - quantity;
                res.product_stock.set(z, left);
            }
            res.lines.push(line);
            res.subtotal = res.subtotal + line.total;
            proof {
                assert(res@ =~= take_stock(before, from_size, z as int, line));
            }
            k += 1;
        }
        Ok(res)
    }
}

} // verus!
