//! The ledger's error taxonomy.

use vstd::prelude::*;

verus! {

/// What a lookup failed to find.
#[derive(Clone, Copy, Debug, PartialEq, Eq, Structural)]
pub enum Missing {
    Product(i32),
    Size(i32),
    Order(usize),
    OrderSupplier(usize),
    Profile(i32),
    /// No profile belongs to this user.
    UserProfile(i32),
    BankAccount(i32),
}

/// Why an input was rejected.
#[derive(Clone, Copy, Debug, PartialEq, Eq, Structural)]
pub enum Invalid {
    /// A cart line asks for zero or fewer units of a product.
    Quantity(i32),
    /// The product is not for sale.
    ProductUnavailable(i32),
    /// The stock pool of the product cannot cover the requested quantity.
    InsufficientStock(i32),
    /// A monetary figure would exceed the ledger's limit.
    AmountTooLarge,
    /// No active coupon has this code.
    CouponUnknown,
    /// The coupon is outside its validity window.
    CouponExpired,
    /// The subtotal is below the coupon's minimum purchase.
    CouponBelowMinimum,
    /// The coupon has reached its usage cap.
    CouponExhausted,
    /// The fulfilment state machine does not allow this transition.
    IllegalTransition,
    /// The wallet balance cannot cover the payout.
    InsufficientBalance,
    /// The payout is below the smallest accepted amount.
    PayoutTooSmall,
    /// A coupon's percentage is above 100%, or its counter above its cap.
    MalformedCoupon,
    /// A gateway event names no order that can be read.
    MalformedPayload,
}

#[derive(Clone, Copy, Debug, PartialEq, Eq, Structural)]
pub enum LedgerError {
    /// A referenced record is absent.
    NotFound(Missing),
    /// The input breaks a business rule.
    Validation(Invalid),
    /// The actor does not own the resource.
    Forbidden,
    /// A concurrent modification or a collision was detected.
    Conflict,
    /// A counter or balance reached the limit of its representation.
    Internal,
}

} // verus!
