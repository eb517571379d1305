//! The records of the order ledger and the store that holds them. The store
//! is one unit of work: each operation either applies all of its writes or
//! returns an error and leaves the store as it was.

use vstd::prelude::*;
use crate::catalog::{Product, ProductSize};
use crate::coupon::Coupon;
use crate::error::{Invalid, LedgerError};
use crate::money::MAX_AMOUNT;

verus! {

#[derive(Clone, Copy, Debug, PartialEq, Eq, Structural)]
pub enum OrderStatus {
    Pending,
    Confirmed,
    Processing,
    Shipped,
    Delivered,
    Cancelled,
    Refunded,
}

/// An order. Amounts in cents; `total == subtotal + shipping_cost + tax - discount`.
pub struct Order {
    pub id: usize,
    pub user_id: i32,
    pub order_number: String,
    pub status: OrderStatus,
    pub subtotal: u64,
    pub shipping_cost: u64,
    pub tax: u64,
    pub discount: u64,
    pub total: u64,
    pub shipping_address: String,
    pub billing_address: String,
    pub phone: String,
    pub email: String,
    pub notes: Option<String>,
    pub coupon_id: Option<i32>,
    pub created_at: i64,
}

/// One line of an order, with the product's name and unit price as they were
/// at purchase.
pub struct OrderDetail {
    pub id: usize,
    pub order_id: usize,
    pub product_id: i32,
    pub product_name: String,
    pub size: Option<String>,
    pub quantity: u32,
    pub unit_price: u64,
    pub total_price: u64,
}

/// The part of an order that one vendor fulfils.
pub struct OrderSupplier {
    pub id: usize,
    pub order_id: usize,
    pub vendor_id: i32,
    pub status: OrderStatus,
    pub subtotal: u64,
    pub commission_rate_bp: u64,
    pub commission_amount: u64,
    pub payout_amount: u64,
    pub tracking_number: Option<String>,
    pub shipped_at: Option<i64>,
    pub delivered_at: Option<i64>,
    /// Set once the referral commission of this sub-order has been credited.
    pub referral_settled: bool,
}

/// Links an order line to the vendor sub-order that owns it.
#[derive(Clone, Copy, Debug, PartialEq, Eq, Structural)]
pub struct OrderDetailSupplier {
    pub id: usize,
    pub order_supplier_id: usize,
    pub order_detail_id: usize,
}

/// A wallet-bearing account.
#[derive(Clone, Copy, Debug, PartialEq, Eq, Structural)]
pub struct Profile {
    pub id: i32,
    pub user_id: i32,
    pub wallet_balance: u64,
    pub referred_by: Option<i32>,
    pub is_vendor: bool,
    pub vendor_admission: bool,
}

#[derive(Clone, Copy, Debug, PartialEq, Eq, Structural)]
pub struct BankAccount {
    pub id: i32,
    pub profile_id: i32,
}

#[derive(Clone, Copy, Debug, PartialEq, Eq, Structural)]
pub enum PaymentKind {
    Payout,
    CommissionCredit,
}

#[derive(Clone, Copy, Debug, PartialEq, Eq, Structural)]
pub enum PaymentState {
    Pending,
    Processed,
    Failed,
    Completed,
}

/// An entry of the vendor payout and earnings ledger. Entries are appended,
/// never changed.
pub struct VendorPayment {
    pub id: usize,
    pub vendor_id: i32,
    pub order_supplier_id: Option<usize>,
    pub amount: u64,
    pub payment_type: PaymentKind,
    pub status: PaymentState,
    pub notes: Option<String>,
    pub created_at: i64,
}

/// A customer's payment of an order.
pub struct Payment {
    pub id: usize,
    pub order_id: usize,
    pub payment_method: String,
    pub amount: u64,
    pub currency: String,
    pub status: PaymentState,
}

pub struct Store {
    pub products: Vec<Product>,
    pub sizes: Vec<ProductSize>,
    pub coupons: Vec<Coupon>,
    pub orders: Vec<Order>,
    pub details: Vec<OrderDetail>,
    pub suppliers: Vec<OrderSupplier>,
    pub links: Vec<OrderDetailSupplier>,
    pub profiles: Vec<Profile>,
    pub bank_accounts: Vec<BankAccount>,
    pub vendor_payments: Vec<VendorPayment>,
    pub payments: Vec<Payment>,
}

pub struct StoreView {
    pub products: Seq<Product>,
    pub sizes: Seq<ProductSize>,
    pub coupons: Seq<Coupon>,
    pub orders: Seq<Order>,
    pub details: Seq<OrderDetail>,
    pub suppliers: Seq<OrderSupplier>,
    pub links: Seq<OrderDetailSupplier>,
    pub profiles: Seq<Profile>,
    pub bank_accounts: Seq<BankAccount>,
    pub vendor_payments: Seq<VendorPayment>,
    pub payments: Seq<Payment>,
}

impl View for Store {
    type V = StoreView;

    open spec fn view(&self) -> StoreView {
        StoreView {
            products: self.products@,
            sizes: self.sizes@,
            coupons: self.coupons@,
            orders: self.orders@,
            details: self.details@,
            suppliers: self.suppliers@,
            links: self.links@,
            profiles: self.profiles@,
            bank_accounts: self.bank_accounts@,
            vendor_payments: self.vendor_payments@,
            payments: self.payments@,
        }
    }
}

/// The position of the product with an id.
pub open spec fn product_index(ps: Seq<Product>, id: i32) -> Option<int> {
    if exists|i: int| 0 <= i < ps.len() && ps[i].id == id {
        Some(choose|i: int| 0 <= i < ps.len() && ps[i].id == id)
    } else {
        None
    }
}

/// The position of a named size of a product.
pub open spec fn size_index(zs: Seq<ProductSize>, product_id: i32, name: Seq<char>) -> Option<int> {
    if exists|i: int| 0 <= i < zs.len() && zs[i].product_id == product_id && zs[i].size@ == name {
        Some(choose|i: int| 0 <= i < zs.len() && zs[i].product_id == product_id && zs[i].size@ == name)
    } else {
        None
    }
}

/// The position of the coupon with a code.
pub open spec fn coupon_index(cs: Seq<Coupon>, code: Seq<char>) -> Option<int> {
    if exists|i: int| 0 <= i < cs.len() && cs[i].code@ == code {
        Some(choose|i: int| 0 <= i < cs.len() && cs[i].code@ == code)
    } else {
        None
    }
}

/// The position of the profile with an id.
pub open spec fn profile_index(ps: Seq<Profile>, id: i32) -> Option<int> {
    if exists|i: int| 0 <= i < ps.len() && ps[i].id == id {
        Some(choose|i: int| 0 <= i < ps.len() && ps[i].id == id)
    } else {
        None
    }
}

/// The position of the profile of a user.
pub open spec fn user_profile_index(ps: Seq<Profile>, user_id: i32) -> Option<int> {
    if exists|i: int| 0 <= i < ps.len() && ps[i].user_id == user_id {
        Some(choose|i: int| 0 <= i < ps.len() && ps[i].user_id == user_id)
    } else {
        None
    }
}

/// The position of the bank account with an id.
pub open spec fn bank_account_index(bs: Seq<BankAccount>, id: i32) -> Option<int> {
    if exists|i: int| 0 <= i < bs.len() && bs[i].id == id {
        Some(choose|i: int| 0 <= i < bs.len() && bs[i].id == id)
    } else {
        None
    }
}

/// Under unique ids, the product found by a product's id is that product.
pub proof fn lemma_product_index_of(ps: Seq<Product>, i: int)
    requires
        0 <= i < ps.len(),
        forall|a: int, b: int| 0 <= a < b < ps.len() ==> ps[a].id != ps[b].id,
    ensures
        product_index(ps, ps[i].id) == Some(i),
{
    let j = choose|j: int| 0 <= j < ps.len() && ps[j].id == ps[i].id;
}

impl StoreView {
    /// Keys are unique, prices within the ledger's limit, coupons well
    /// formed, each sub-order's commission and payout add up to its subtotal
    /// exactly, and links point at existing lines and sub-orders.
    pub open spec fn wf(&self) -> bool {
        &&& forall|i: int, j: int|
            0 <= i < j < self.products.len() ==> self.products[i].id != self.products[j].id
        &&& forall|i: int| 0 <= i < self.products.len() ==> self.products[i].price <= MAX_AMOUNT
        &&& forall|i: int, j: int|
            0 <= i < j < self.sizes.len() ==> !(self.sizes[i].product_id == self.sizes[j].product_id
                && self.sizes[i].size@ == self.sizes[j].size@)
        &&& forall|i: int, j: int|
            0 <= i < j < self.coupons.len() ==> self.coupons[i].code@ != self.coupons[j].code@
        &&& forall|i: int| 0 <= i < self.coupons.len() ==> self.coupons[i].wf()
        &&& forall|i: int, j: int|
            0 <= i < j < self.profiles.len() ==> self.profiles[i].id != self.profiles[j].id
        &&& forall|i: int, j: int|
            0 <= i < j < self.profiles.len() ==> self.profiles[i].user_id != self.profiles[j].user_id
        &&& forall|i: int, j: int|
            0 <= i < j < self.bank_accounts.len() ==> self.bank_accounts[i].id
                != self.bank_accounts[j].id
        &&& forall|i: int|
            0 <= i < self.suppliers.len() ==> #[trigger] self.suppliers[i].commission_amount
                + self.suppliers[i].payout_amount == self.suppliers[i].subtotal
        &&& forall|i: int|
            0 <= i < self.links.len() ==> {
                &&& #[trigger] self.links[i].order_detail_id < self.details.len()
                &&& self.links[i].order_supplier_id < self.suppliers.len()
            }
    }
}

impl Store {
    /// An empty store.
    pub fn new() -> (r: Store)
        ensures
            r@.wf(),
            r@.products.len() == 0,
            r@.orders.len() == 0,
    {
        Store {
            products: Vec::new(),
            sizes: Vec::new(),
            coupons: Vec::new(),
            orders: Vec::new(),
            details: Vec::new(),
            suppliers: Vec::new(),
            links: Vec::new(),
            profiles: Vec::new(),
            bank_accounts: Vec::new(),
            vendor_payments: Vec::new(),
            payments: Vec::new(),
        }
    }

    pub fn find_product(&self, id: i32) -> (r: Option<usize>)
        requires
            self@.wf(),
        ensures
            r matches Some(i) ==> product_index(self@.products, id) == Some(i as int),
            r is None ==> product_index(self@.products, id) is None,
    {
        let mut i: usize = 0;
        while i < self.products.len()
            invariant
                self@.wf(),
                i <= self.products.len(),
                forall|k: int| 0 <= k < i ==> self.products@[k].id != id,
            decreases self.products.len() - i,
        {
            if self.products[i].id == id {
                proof {
                    assert(0 <= (i as int) < self@.products.len() && self@.products[(i as int)].id == id);
                    let j = choose|j: int| 0 <= j < self@.products.len() && self@.products[j].id == id;
                    assert(j == i as int);
                }
                return Some(i);
            }
            i += 1;
        }
        None
    }

    pub fn find_size(&self, product_id: i32, name: &String) -> (r: Option<usize>)
        requires
            self@.wf(),
        ensures
            r matches Some(i) ==> size_index(self@.sizes, product_id, name@) == Some(i as int),
            r is None ==> size_index(self@.sizes, product_id, name@) is None,
    {
        let mut i: usize = 0;
        while i < self.sizes.len()
            invariant
                self@.wf(),
                i <= self.sizes.len(),
                forall|k: int|
                    0 <= k < i ==> !(self.sizes@[k].product_id == product_id && self.sizes@[k].size@
                        == name@),
            decreases self.sizes.len() - i,
        {
            if self.sizes[i].product_id == product_id && self.sizes[i].size == *name {
                proof {
                    assert(0 <= (i as int) < self@.sizes.len() && self@.sizes[(i as int)].product_id == product_id
                            && self@.sizes[(i as int)].size@ == name@);
                    let j = choose|j: int|
                        0 <= j < self@.sizes.len() && self@.sizes[j].product_id == product_id
                            && self@.sizes[j].size@ == name@;
                    assert(j == i as int);
                }
                return Some(i);
            }
            i += 1;
        }
        None
    }

    pub fn find_coupon(&self, code: &String) -> (r: Option<usize>)
        requires
            self@.wf(),
        ensures
            r matches Some(i) ==> coupon_index(self@.coupons, code@) == Some(i as int),
            r is None ==> coupon_index(self@.coupons, code@) is None,
    {
        let mut i: usize = 0;
        while i < self.coupons.len()
            invariant
                self@.wf(),
                i <= self.coupons.len(),
                forall|k: int| 0 <= k < i ==> self.coupons@[k].code@ != code@,
            decreases self.coupons.len() - i,
        {
            if self.coupons[i].code == *code {
                proof {
                    assert(0 <= (i as int) < self@.coupons.len() && self@.coupons[(i as int)].code@ == code@);
                    let j = choose|j: int| 0 <= j < self@.coupons.len() && self@.coupons[j].code@ == code@;
                    assert(j == i as int);
                }
                return Some(i);
            }
            i += 1;
        }
        None
    }

    pub fn find_profile(&self, id: i32) -> (r: Option<usize>)
        requires
            self@.wf(),
        ensures
            r matches Some(i) ==> profile_index(self@.profiles, id) == Some(i as int),
            r is None ==> profile_index(self@.profiles, id) is None,
    {
        let mut i: usize = 0;
        while i < self.profiles.len()
            invariant
                self@.wf(),
                i <= self.profiles.len(),
                forall|k: int| 0 <= k < i ==> self.profiles@[k].id != id,
            decreases self.profiles.len() - i,
        {
            if self.profiles[i].id == id {
                proof {
                    assert(0 <= (i as int) < self@.profiles.len() && self@.profiles[(i as int)].id == id);
                    let j = choose|j: int| 0 <= j < self@.profiles.len() && self@.profiles[j].id == id;
                    assert(j == i as int);
                }
                return Some(i);
            }
            i += 1;
        }
        None
    }

    pub fn find_user_profile(&self, user_id: i32) -> (r: Option<usize>)
        requires
            self@.wf(),
        ensures
            r matches Some(i) ==> user_profile_index(self@.profiles, user_id) == Some(i as int),
            r is None ==> user_profile_index(self@.profiles, user_id) is None,
    {
        let mut i: usize = 0;
        while i < self.profiles.len()
            invariant
                self@.wf(),
                i <= self.profiles.len(),
                forall|k: int| 0 <= k < i ==> self.profiles@[k].user_id != user_id,
            decreases self.profiles.len() - i,
        {
            if self.profiles[i].user_id == user_id {
                proof {
                    assert(0 <= (i as int) < self@.profiles.len() && self@.profiles[(i as int)].user_id == user_id);
                    let j = choose|j: int|
                        0 <= j < self@.profiles.len() && self@.profiles[j].user_id == user_id;
                    assert(j == i as int);
                }
                return Some(i);
            }
            i += 1;
        }
        None
    }

    pub fn find_bank_account(&self, id: i32) -> (r: Option<usize>)
        requires
            self@.wf(),
        ensures
            r matches Some(i) ==> bank_account_index(self@.bank_accounts, id) == Some(i as int),
            r is None ==> bank_account_index(self@.bank_accounts, id) is None,
    {
        let mut i: usize = 0;
        while i < self.bank_accounts.len()
            invariant
                self@.wf(),
                i <= self.bank_accounts.len(),
                forall|k: int| 0 <= k < i ==> self.bank_accounts@[k].id != id,
            decreases self.bank_accounts.len() - i,
        {
            if self.bank_accounts[i].id == id {
                proof {
                    assert(0 <= (i as int) < self@.bank_accounts.len() && self@.bank_accounts[(i as int)].id == id);
                    let j = choose|j: int|
                        0 <= j < self@.bank_accounts.len() && self@.bank_accounts[j].id == id;
                    assert(j == i as int);
                }
                return Some(i);
            }
            i += 1;
        }
        None
    }
}

impl Store {
    /// Adds a product to the catalogue: its id must be new and its price
    /// within the amount limit.
    pub fn add_product(&mut self, p: Product) -> (r: Result<(), LedgerError>)
        requires
            old(self)@.wf(),
        ensures
            final(self)@.wf(),
            match r {
                Ok(()) => final(self)@ == StoreView { products: old(self)@.products.push(p), ..old(self)@ },
                Err(e) => final(self)@ == old(self)@ && if product_index(old(self)@.products, p.id) is Some {
                    e == LedgerError::Conflict
                } else {
                    p.price > MAX_AMOUNT && e == LedgerError::Validation(Invalid::AmountTooLarge)
                },
            },
            r is Ok <==> (product_index(old(self)@.products, p.id) is None && p.price <= MAX_AMOUNT),
    {
        if self.find_product(p.id).is_some() {
            return Err(LedgerError::Conflict);
        }
        if p.price > MAX_AMOUNT {
            return Err(LedgerError::Validation(Invalid::AmountTooLarge));
        }
        self.products.push(p);
        proof {
            assert(self@ == StoreView { products: self@.products, ..old(self)@ });
        }
        Ok(())
    }

    /// Adds a size pool to a product: the (product, size) pair must be new.
    pub fn add_size(&mut self, z: ProductSize) -> (r: Result<(), LedgerError>)
        requires
            old(self)@.wf(),
        ensures
            final(self)@.wf(),
            match r {
                Ok(()) => final(self)@ == StoreView { sizes: old(self)@.sizes.push(z), ..old(self)@ },
                Err(e) => final(self)@ == old(self)@ && e == LedgerError::Conflict,
            },
            r is Ok <==> size_index(old(self)@.sizes, z.product_id, z.size@) is None,
    {
        if self.find_size(z.product_id, &z.size).is_some() {
            return Err(LedgerError::Conflict);
        }
        self.sizes.push(z);
        proof {
            assert(self@ == StoreView { sizes: self@.sizes, ..old(self)@ });
        }
        Ok(())
    }

    /// Adds a coupon: its code must be new and the coupon well formed.
    pub fn add_coupon(&mut self, c: Coupon) -> (r: Result<(), LedgerError>)
        requires
            old(self)@.wf(),
        ensures
            final(self)@.wf(),
            match r {
                Ok(()) => final(self)@ == StoreView { coupons: old(self)@.coupons.push(c), ..old(self)@ },
                Err(e) => final(self)@ == old(self)@ && if coupon_index(old(self)@.coupons, c.code@) is Some {
                    e == LedgerError::Conflict
                } else {
                    !c.wf() && e == LedgerError::Validation(Invalid::MalformedCoupon)
                },
            },
            r is Ok <==> (coupon_index(old(self)@.coupons, c.code@) is None && c.wf()),
    {
        if self.find_coupon(&c.code).is_some() {
            return Err(LedgerError::Conflict);
        }
        let percentage_ok = match c.discount_type {
            crate::coupon::DiscountType::Percentage => c.discount_value <= crate::money::FULL_RATE,
            _ => true,
        };
        let count_ok = match c.max_uses {
            Some(m) => c.used_count <= m,
            None => true,
        };
        if !(percentage_ok && count_ok) {
            return Err(LedgerError::Validation(Invalid::MalformedCoupon));
        }
        self.coupons.push(c);
        proof {
            assert(self@ == StoreView { coupons: self@.coupons, ..old(self)@ });
        }
        Ok(())
    }

    /// Adds an account: its id and its user must be new.
    pub fn add_profile(&mut self, p: Profile) -> (r: Result<(), LedgerError>)
        requires
            old(self)@.wf(),
        ensures
            final(self)@.wf(),
            match r {
                Ok(()) => final(self)@ == StoreView { profiles: old(self)@.profiles.push(p), ..old(self)@ },
                Err(e) => final(self)@ == old(self)@ && e == LedgerError::Conflict,
            },
            r is Ok <==> (profile_index(old(self)@.profiles, p.id) is None && user_profile_index(
                old(self)@.profiles,
                p.user_id,
            ) is None),
    {
        if self.find_profile(p.id).is_some() || self.find_user_profile(p.user_id).is_some() {
            return Err(LedgerError::Conflict);
        }
        self.profiles.push(p);
        proof {
            assert(self@ == StoreView { profiles: self@.profiles, ..old(self)@ });
        }
        Ok(())
    }

    /// Adds a bank account: its id must be new.
    pub fn add_bank_account(&mut self, b: BankAccount) -> (r: Result<(), LedgerError>)
        requires
            old(self)@.wf(),
        ensures
            final(self)@.wf(),
            match r {
                Ok(()) => final(self)@ == StoreView { bank_accounts: old(self)@.bank_accounts.push(b), ..old(self)@ },
                Err(e) => final(self)@ == old(self)@ && e == LedgerError::Conflict,
            },
            r is Ok <==> bank_account_index(old(self)@.bank_accounts, b.id) is None,
    {
        if self.find_bank_account(b.id).is_some() {
            return Err(LedgerError::Conflict);
        }
        self.bank_accounts.push(b);
        proof {
            assert(self@ == StoreView { bank_accounts: self@.bank_accounts, ..old(self)@ });
        }
        Ok(())
    }
}

} // verus!
