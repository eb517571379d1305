//! The pricing engine: unit prices, shipping, tax and order totals.

use vstd::prelude::*;
use crate::money::{apply_rate, rate_of, FULL_RATE, MAX_AMOUNT};

verus! {

/// Configuration that the checkout and settlement rules read. All amounts in
/// cents, all rates in basis points.
pub struct CommerceConfig {
    /// Subtotal at or above which shipping is free.
    pub shipping_threshold: u64,
    /// Flat shipping fee below the threshold.
    pub shipping_fee: u64,
    pub tax_rate_bp: u64,
    pub commission_rate_bp: u64,
    pub referral_rate_bp: u64,
}

impl CommerceConfig {
    pub open spec fn wf(&self) -> bool {
        &&& self.shipping_fee <= MAX_AMOUNT
        &&& self.tax_rate_bp <= FULL_RATE
        &&& self.commission_rate_bp <= FULL_RATE
        &&& self.referral_rate_bp <= FULL_RATE
    }

    /// Free shipping from 100.00, a 10.00 fee below it, 10% tax, 10%
    /// commission and a 2.5% referral commission.
    pub fn standard() -> (r: CommerceConfig)
        ensures
            r.wf(),
            r.shipping_threshold == 10000,
            r.shipping_fee == 1000,
            r.tax_rate_bp == 1000,
            r.commission_rate_bp == 1000,
            r.referral_rate_bp == 250,
    {
        CommerceConfig {
            shipping_threshold: 10000,
            shipping_fee: 1000,
            tax_rate_bp: 1000,
            commission_rate_bp: 1000,
            referral_rate_bp: 250,
        }
    }
}

pub open spec fn effective_price_spec(price: u64, discount_price: Option<u64>) -> u64 {
    match discount_price {
        Some(d) => if d < price { d } else { price },
        None => price,
    }
}

/// The unit price charged: the discount price where there is one and it is
/// lower than the list price, else the list price.
pub fn effective_price(price: u64, discount_price: Option<u64>) -> (r: u64)
    ensures
        r == effective_price_spec(price, discount_price),
{
    match discount_price {
        Some(d) => if d < price { d } else { price },
        None => price,
    }
}

pub open spec fn shipping_spec(cfg: CommerceConfig, subtotal: int) -> int {
    if subtotal >= cfg.shipping_threshold { 0 } else { cfg.shipping_fee as int }
}

/// Shipping cost: waived at or above the threshold, else the flat fee.
pub fn shipping_cost(cfg: &CommerceConfig, subtotal: u64) -> (r: u64)
    ensures
        r == shipping_spec(*cfg, subtotal as int),
{
    if subtotal >= cfg.shipping_threshold { 0 } else { cfg.shipping_fee }
}

/// The monetary breakdown of an order, in cents.
#[derive(Clone, Copy, Debug, PartialEq, Eq, Structural)]
pub struct Totals {
    pub subtotal: u64,
    pub shipping: u64,
    pub tax: u64,
    pub discount: u64,
    pub total: u64,
}

/// The breakdown for a subtotal and a discount. The discount is capped at the
/// subtotal, so that no figure is negative; tax is charged on the subtotal
/// less the discount.
pub open spec fn totals_spec(cfg: CommerceConfig, subtotal: int, discount: int) -> Totals {
    let d = if discount <= subtotal { discount } else { subtotal };
    let shipping = shipping_spec(cfg, subtotal);
    let tax = rate_of(subtotal - d, cfg.tax_rate_bp as int);
    Totals {
        subtotal: subtotal as u64,
        shipping: shipping as u64,
        tax: tax as u64,
        discount: d as u64,
        total: (subtotal + shipping + tax - d) as u64,
    }
}

pub fn compute_totals(cfg: &CommerceConfig, subtotal: u64, discount: u64) -> (r: Totals)
    requires
        cfg.wf(),
        subtotal <= MAX_AMOUNT,
    ensures
        r == totals_spec(*cfg, subtotal as int, discount as int),
        r.total == r.subtotal + r.shipping + r.tax - r.discount,
        r.discount <= r.subtotal,
        r.tax <= r.subtotal,
{
    let d = if discount <= subtotal { discount } else { subtotal };
    let shipping = shipping_cost(cfg, subtotal);
    let tax = apply_rate(subtotal - d, cfg.tax_rate_bp);
    let total = subtotal + shipping + tax - d;
    Totals { subtotal, shipping, tax, discount: d, total }
}

} // verus!
