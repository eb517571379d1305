//! The coupon validator.

use vstd::prelude::*;
use crate::error::Invalid;
use crate::money::{apply_rate, rate_of, FULL_RATE};

verus! {

#[derive(Clone, Copy, Debug, PartialEq, Eq, Structural)]
pub enum DiscountType {
    /// `discount_value` is a rate in basis points of the subtotal.
    Percentage,
    /// `discount_value` is an amount in cents.
    Fixed,
    /// Any other kind that the store holds: it discounts nothing.
    Other,
}

/// A coupon. Times are seconds since the Unix epoch.
pub struct Coupon {
    pub id: i32,
    pub code: String,
    pub discount_type: DiscountType,
    pub discount_value: u64,
    pub min_purchase: u64,
    pub max_uses: Option<u32>,
    pub used_count: u32,
    pub valid_from: i64,
    pub valid_to: i64,
    pub is_active: bool,
}

impl Coupon {
    /// A percentage is at most 100%, and the counter never passes the cap.
    pub open spec fn wf(&self) -> bool {
        &&& self.discount_type == DiscountType::Percentage ==> self.discount_value <= FULL_RATE
        &&& self.max_uses matches Some(m) ==> self.used_count <= m
    }

    /// Whether another redemption would pass the usage cap. Without a cap,
    /// the counter's own range is the cap.
    pub open spec fn exhausted(&self) -> bool {
        match self.max_uses {
            Some(m) => self.used_count >= m,
            None => self.used_count == u32::MAX,
        }
    }

    pub open spec fn discount_spec(&self, subtotal: u64) -> u64 {
        match self.discount_type {
            DiscountType::Percentage => rate_of(subtotal as int, self.discount_value as int) as u64,
            DiscountType::Fixed => self.discount_value,
            DiscountType::Other => 0,
        }
    }

    /// What validation of an active coupon gives at a time and a subtotal.
    pub open spec fn validate_spec(&self, subtotal: u64, now: i64) -> Result<u64, Invalid> {
        if !self.is_active {
            Err(Invalid::CouponUnknown)
        } else if now < self.valid_from || now > self.valid_to {
            Err(Invalid::CouponExpired)
        } else if subtotal < self.min_purchase {
            Err(Invalid::CouponBelowMinimum)
        } else if self.exhausted() {
            Err(Invalid::CouponExhausted)
        } else {
            Ok(self.discount_spec(subtotal))
        }
    }

    /// Checks the coupon against a subtotal at a time and gives the discount.
    /// Validation changes nothing: the caller records the redemption.
    pub fn validate(&self, subtotal: u64, now: i64) -> (r: Result<u64, Invalid>)
        requires
            self.wf(),
        ensures
            r == self.validate_spec(subtotal, now),
    {
        if !self.is_active {
            return Err(Invalid::CouponUnknown);
        }
        if now < self.valid_from || now > self.valid_to {
            return Err(Invalid::CouponExpired);
        }
        if subtotal < self.min_purchase {
            return Err(Invalid::CouponBelowMinimum);
        }
        let exhausted = match self.max_uses {
            Some(m) => self.used_count >= m,
            None => self.used_count == u32::MAX,
        };
        if exhausted {
            return Err(Invalid::CouponExhausted);
        }
        let discount = match self.discount_type {
            DiscountType::Percentage => apply_rate(subtotal, self.discount_value),
            DiscountType::Fixed => self.discount_value,
            DiscountType::Other => 0,
        };
        Ok(discount)
    }

    /// The same coupon with one more redemption counted.
    pub fn redeemed(&self) -> (r: Coupon)
        requires
            !self.exhausted(),
        ensures
            r == (Coupon { used_count: (self.used_count + 1) as u32, ..*self }),
    {
        Coupon {
            id: self.id,
            code: self.code.clone(),
            discount_type: self.discount_type,
            discount_value: self.discount_value,
            min_purchase: self.min_purchase,
            max_uses: self.max_uses,
            used_count: self.used_count + 1,
            valid_from: self.valid_from,
            valid_to: self.valid_to,
            is_active: self.is_active,
        }
    }
}

/// A coupon capped at `n` uses, otherwise valid for a purchase, is accepted
/// after any `k < n` counted redemptions and refused after `n`.
pub proof fn coupon_accepts_exactly_cap_uses(c: Coupon, n: u32, k: u32, subtotal: u64, now: i64)
    requires
        c.is_active,
        c.max_uses == Some(n),
        c.valid_from <= now <= c.valid_to,
        subtotal >= c.min_purchase,
    ensures
        k < n ==> (Coupon { used_count: k, ..c }).validate_spec(subtotal, now) is Ok,
        (Coupon { used_count: n, ..c }).validate_spec(subtotal, now) == Err::<u64, Invalid>(Invalid::CouponExhausted),
{
}

} // verus!
