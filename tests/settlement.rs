use marketplace::catalog::{CartItem, Product, ProductSize};
use marketplace::coupon::{Coupon, DiscountType};
use marketplace::checkout::CheckoutRequest;
use marketplace::error::{Invalid, LedgerError, Missing};
use marketplace::ledger::{BankAccount, OrderStatus, PaymentKind, PaymentState, Profile, Store};
use marketplace::payments::parse_order_ref;
use marketplace::pricing::CommerceConfig;
use marketplace::status::Gateway;

fn profile(id: i32, user_id: i32, wallet: u64, referred_by: Option<i32>, vendor: bool) -> Profile {
    Profile { id, user_id, wallet_balance: wallet, referred_by, is_vendor: vendor, vendor_admission: vendor }
}

/// Customer user 10 (profile 1) was referred by profile 2; vendor profile 5
/// sells product 1 at 90.00.
fn store_with_order() -> Store {
    let mut store = Store::new();
    store.products.push(Product {
        id: 1,
        name: "Lamp".to_string(),
        price: 9000,
        discount_price: None,
        stock: 5,
        is_active: true,
        vendor_id: 5,
    });
    store.profiles.push(profile(1, 10, 0, Some(2), false));
    store.profiles.push(profile(2, 20, 1000, None, false));
    store.profiles.push(profile(5, 50, 0, None, true));
    let req = CheckoutRequest {
        user_id: 10,
        items: vec![CartItem { product_id: 1, quantity: 1, size: None }],
        shipping_address: "1 Main Road, Townsville".to_string(),
        billing_address: "1 Main Road, Townsville".to_string(),
        phone: "5550101".to_string(),
        email: "c@example.com".to_string(),
        notes: Some("leave at door".to_string()),
        coupon_code: None,
    };
    store.checkout_at(&req, &CommerceConfig::standard(), 100, "ORD-ZZZZ0001".to_string()).unwrap();
    store
}

#[test]
fn delivery_credits_referrer_exactly_once() {
    let mut store = store_with_order();
    let cfg = CommerceConfig::standard();
    assert_eq!(store.suppliers[0].payout_amount, 8100);
    store.update_vendor_order_at(0, 5, OrderStatus::Processing, None, &cfg, 200).unwrap();
    store.update_vendor_order_at(0, 5, OrderStatus::Shipped, Some("TRK1".to_string()), &cfg, 300).unwrap();
    assert_eq!(store.suppliers[0].shipped_at, Some(300));
    assert_eq!(store.suppliers[0].tracking_number, Some("TRK1".to_string()));
    store.update_vendor_order_at(0, 5, OrderStatus::Delivered, None, &cfg, 400).unwrap();
    assert_eq!(store.suppliers[0].delivered_at, Some(400));
    assert!(store.suppliers[0].referral_settled);
    // 2.5% of 81.00 is 2.025, rounded to 2.03.
    assert_eq!(store.profiles[1].wallet_balance, 1203);
    assert_eq!(store.vendor_payments.len(), 1);
    assert_eq!(store.vendor_payments[0].vendor_id, 2);
    assert_eq!(store.vendor_payments[0].amount, 203);
    assert_eq!(store.vendor_payments[0].payment_type, PaymentKind::CommissionCredit);
    assert_eq!(store.vendor_payments[0].order_supplier_id, Some(0));
    store.update_vendor_order_at(0, 5, OrderStatus::Delivered, None, &cfg, 500).unwrap();
    assert_eq!(store.profiles[1].wallet_balance, 1203);
    assert_eq!(store.vendor_payments.len(), 1);
    assert_eq!(store.suppliers[0].delivered_at, Some(400));
}

#[test]
fn delivery_without_referrer_credits_nobody() {
    let mut store = store_with_order();
    store.profiles[0].referred_by = None;
    let cfg = CommerceConfig::standard();
    store.update_vendor_order_at(0, 5, OrderStatus::Processing, None, &cfg, 200).unwrap();
    store.update_vendor_order_at(0, 5, OrderStatus::Shipped, None, &cfg, 300).unwrap();
    store.update_vendor_order_at(0, 5, OrderStatus::Delivered, None, &cfg, 400).unwrap();
    assert_eq!(store.profiles[1].wallet_balance, 1000);
    assert!(store.vendor_payments.is_empty());
}

#[test]
fn transition_errors() {
    let mut store = store_with_order();
    let cfg = CommerceConfig::standard();
    assert_eq!(
        store.update_vendor_order_at(3, 5, OrderStatus::Processing, None, &cfg, 200),
        Err(LedgerError::NotFound(Missing::OrderSupplier(3)))
    );
    assert_eq!(
        store.update_vendor_order_at(0, 6, OrderStatus::Processing, None, &cfg, 200),
        Err(LedgerError::Forbidden)
    );
    assert_eq!(
        store.update_vendor_order_at(0, 5, OrderStatus::Delivered, None, &cfg, 200),
        Err(LedgerError::Validation(Invalid::IllegalTransition))
    );
    store.update_vendor_order_at(0, 5, OrderStatus::Cancelled, None, &cfg, 200).unwrap();
    assert_eq!(
        store.update_vendor_order_at(0, 5, OrderStatus::Processing, None, &cfg, 300),
        Err(LedgerError::Validation(Invalid::IllegalTransition))
    );
    assert_eq!(store.suppliers[0].status, OrderStatus::Cancelled);
}

#[test]
fn missing_customer_profile_stops_delivery() {
    let mut store = store_with_order();
    store.profiles.remove(0);
    let cfg = CommerceConfig::standard();
    store.update_vendor_order_at(0, 5, OrderStatus::Processing, None, &cfg, 200).unwrap();
    store.update_vendor_order_at(0, 5, OrderStatus::Shipped, None, &cfg, 300).unwrap();
    assert_eq!(
        store.update_vendor_order_at(0, 5, OrderStatus::Delivered, None, &cfg, 400),
        Err(LedgerError::NotFound(Missing::UserProfile(10)))
    );
    assert_eq!(store.suppliers[0].status, OrderStatus::Shipped);
}

#[test]
fn clock_reading_update() {
    let mut store = store_with_order();
    let cfg = CommerceConfig::standard();
    store.update_vendor_order(0, 5, OrderStatus::Processing, None, &cfg).unwrap();
    assert_eq!(store.suppliers[0].status, OrderStatus::Processing);
}

#[test]
fn payout_over_balance_fails_and_changes_nothing() {
    let mut store = store_with_order();
    store.profiles[2].wallet_balance = 5000;
    store.bank_accounts.push(BankAccount { id: 3, profile_id: 5 });
    let r = store.request_payout_at(5, 6000, 3, None, 100);
    assert_eq!(r, Err(LedgerError::Validation(Invalid::InsufficientBalance)));
    assert_eq!(store.profiles[2].wallet_balance, 5000);
    assert!(store.vendor_payments.is_empty());
    let id = store.request_payout_at(5, 3000, 3, Some("weekly".to_string()), 100).unwrap();
    assert_eq!(id, 0);
    assert_eq!(store.profiles[2].wallet_balance, 2000);
    let entry = &store.vendor_payments[0];
    assert_eq!(entry.amount, 3000);
    assert_eq!(entry.payment_type, PaymentKind::Payout);
    assert_eq!(entry.status, PaymentState::Pending);
    assert_eq!(entry.notes, Some("weekly".to_string()));
    store.request_payout(5, 2000, 3, None).unwrap();
    assert_eq!(store.profiles[2].wallet_balance, 0);
}

#[test]
fn payout_errors() {
    let mut store = store_with_order();
    store.profiles[2].wallet_balance = 5000;
    store.bank_accounts.push(BankAccount { id: 3, profile_id: 5 });
    store.bank_accounts.push(BankAccount { id: 4, profile_id: 2 });
    assert_eq!(store.request_payout_at(9, 1000, 3, None, 1), Err(LedgerError::NotFound(Missing::Profile(9))));
    assert_eq!(store.request_payout_at(2, 500, 4, None, 1), Err(LedgerError::Forbidden));
    assert_eq!(store.request_payout_at(5, 99, 3, None, 1), Err(LedgerError::Validation(Invalid::PayoutTooSmall)));
    assert_eq!(store.request_payout_at(5, 1000, 8, None, 1), Err(LedgerError::NotFound(Missing::BankAccount(8))));
    assert_eq!(store.request_payout_at(5, 1000, 4, None, 1), Err(LedgerError::Forbidden));
    assert_eq!(store.profiles[2].wallet_balance, 5000);
}

#[test]
fn payments_follow_gateway_events() {
    let mut store = store_with_order();
    assert_eq!(store.initiate_payment(11, 0, "card".to_string()), Err(LedgerError::NotFound(Missing::Order(0))));
    let id = store.initiate_payment(10, 0, "card".to_string()).unwrap();
    assert_eq!(store.payments[id].amount, store.orders[0].total);
    assert_eq!(store.payments[id].currency, "USD");
    assert_eq!(store.payments[id].status, PaymentState::Pending);
    store.apply_payment_event(0, marketplace::status::PaymentEvent::Failed).unwrap();
    assert_eq!(store.payments[id].status, PaymentState::Failed);
    assert_eq!(store.orders[0].status, OrderStatus::Pending);
    store.apply_payment_event(0, marketplace::status::PaymentEvent::Succeeded).unwrap();
    assert_eq!(store.payments[id].status, PaymentState::Completed);
    assert_eq!(store.orders[0].status, OrderStatus::Confirmed);
    assert_eq!(
        store.apply_payment_event(4, marketplace::status::PaymentEvent::Succeeded),
        Err(LedgerError::NotFound(Missing::Order(4)))
    );
}

#[test]
fn vendor_dashboard_figures() {
    let mut store = store_with_order();
    let cfg = CommerceConfig::standard();
    let s = store.vendor_stats(5);
    assert_eq!((s.total_orders, s.pending_orders, s.completed_orders, s.total_revenue), (1, 1, 0, 8100));
    store.update_vendor_order_at(0, 5, OrderStatus::Processing, None, &cfg, 200).unwrap();
    store.update_vendor_order_at(0, 5, OrderStatus::Shipped, None, &cfg, 300).unwrap();
    store.update_vendor_order_at(0, 5, OrderStatus::Delivered, None, &cfg, 400).unwrap();
    let s = store.vendor_stats(5);
    assert_eq!((s.total_orders, s.pending_orders, s.completed_orders, s.total_revenue), (1, 0, 1, 8100));
    let s = store.vendor_stats(6);
    assert_eq!((s.total_orders, s.total_revenue), (0, 0));
}

#[test]
fn store_rejects_duplicate_and_malformed_records() {
    let mut store = Store::new();
    let lamp = |id: i32, price: u64| Product {
        id,
        name: "Lamp".to_string(),
        price,
        discount_price: None,
        stock: 1,
        is_active: true,
        vendor_id: 5,
    };
    assert_eq!(store.add_product(lamp(1, 100)), Ok(()));
    assert_eq!(store.add_product(lamp(1, 200)), Err(LedgerError::Conflict));
    assert_eq!(
        store.add_product(lamp(2, 2_000_000_000_000_000)),
        Err(LedgerError::Validation(Invalid::AmountTooLarge))
    );
    let m = || ProductSize { product_id: 1, size: "M".to_string(), stock: 2 };
    assert_eq!(store.add_size(m()), Ok(()));
    assert_eq!(store.add_size(m()), Err(LedgerError::Conflict));
    let c = |code: &str, value: u64, used: u32| Coupon {
        id: 1,
        code: code.to_string(),
        discount_type: DiscountType::Percentage,
        discount_value: value,
        min_purchase: 0,
        max_uses: Some(3),
        used_count: used,
        valid_from: 0,
        valid_to: 10,
        is_active: true,
    };
    assert_eq!(store.add_coupon(c("A", 1000, 0)), Ok(()));
    assert_eq!(store.add_coupon(c("A", 1000, 0)), Err(LedgerError::Conflict));
    assert_eq!(store.add_coupon(c("B", 10001, 0)), Err(LedgerError::Validation(Invalid::MalformedCoupon)));
    assert_eq!(store.add_coupon(c("C", 1000, 4)), Err(LedgerError::Validation(Invalid::MalformedCoupon)));
    assert_eq!(store.add_profile(profile(1, 10, 0, None, false)), Ok(()));
    assert_eq!(store.add_profile(profile(1, 11, 0, None, false)), Err(LedgerError::Conflict));
    assert_eq!(store.add_profile(profile(2, 10, 0, None, false)), Err(LedgerError::Conflict));
    assert_eq!(store.add_bank_account(BankAccount { id: 1, profile_id: 1 }), Ok(()));
    assert_eq!(store.add_bank_account(BankAccount { id: 1, profile_id: 2 }), Err(LedgerError::Conflict));
    assert_eq!((store.products.len(), store.sizes.len(), store.coupons.len()), (1, 1, 1));
    assert_eq!((store.profiles.len(), store.bank_accounts.len()), (1, 1));
}

#[test]
fn gateway_events_reach_the_order() {
    let mut store = store_with_order();
    let id = store.initiate_payment(10, 0, "card".to_string()).unwrap();
    assert_eq!(store.handle_gateway_event(Gateway::Stripe, "charge.refunded", "0"), Ok(false));
    assert_eq!(store.payments[id].status, PaymentState::Pending);
    assert_eq!(
        store.handle_gateway_event(Gateway::Stripe, "payment_intent.succeeded", "x1"),
        Err(LedgerError::Validation(Invalid::MalformedPayload))
    );
    assert_eq!(
        store.handle_gateway_event(Gateway::Razorpay, "payment.captured", "7"),
        Err(LedgerError::NotFound(Missing::Order(7)))
    );
    assert_eq!(store.handle_gateway_event(Gateway::Paypal, "PAYMENT.CAPTURE.COMPLETED", "0"), Ok(true));
    assert_eq!(store.payments[id].status, PaymentState::Completed);
    assert_eq!(store.orders[0].status, OrderStatus::Confirmed);
}

#[test]
fn order_references() {
    assert_eq!(parse_order_ref("0"), Some(0));
    assert_eq!(parse_order_ref("042"), Some(42));
    assert_eq!(parse_order_ref("18446744073709551615"), Some(usize::MAX));
    assert_eq!(parse_order_ref("18446744073709551616"), None);
    assert_eq!(parse_order_ref(""), None);
    assert_eq!(parse_order_ref("-1"), None);
    assert_eq!(parse_order_ref("12a"), None);
}
