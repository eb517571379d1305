use marketplace::catalog::{CartItem, Product, ProductSize};
use marketplace::checkout::CheckoutRequest;
use marketplace::coupon::{Coupon, DiscountType};
use marketplace::error::{Invalid, LedgerError, Missing};
use marketplace::ledger::{OrderStatus, Store};
use marketplace::pricing::{compute_totals, effective_price, shipping_cost, CommerceConfig};

fn product(id: i32, price: u64, stock: u32, vendor_id: i32) -> Product {
    Product {
        id,
        name: format!("Product {}", id),
        price,
        discount_price: None,
        stock,
        is_active: true,
        vendor_id,
    }
}

fn item(product_id: i32, quantity: i32) -> CartItem {
    CartItem { product_id, quantity, size: None }
}

fn request(items: Vec<CartItem>, coupon: Option<&str>) -> CheckoutRequest {
    CheckoutRequest {
        user_id: 10,
        items,
        shipping_address: "12 Long Street, Springfield".to_string(),
        billing_address: "12 Long Street, Springfield".to_string(),
        phone: "5550100".to_string(),
        email: "buyer@example.com".to_string(),
        notes: None,
        coupon_code: coupon.map(|c| c.to_string()),
    }
}

fn coupon(code: &str, kind: DiscountType, value: u64, min_purchase: u64, max_uses: Option<u32>) -> Coupon {
    Coupon {
        id: 7,
        code: code.to_string(),
        discount_type: kind,
        discount_value: value,
        min_purchase,
        max_uses,
        used_count: 0,
        valid_from: 1_000,
        valid_to: 2_000,
        is_active: true,
    }
}

/// Product A at 50.00 from vendor 1, product B at 30.00 from vendor 2.
fn two_vendor_store() -> Store {
    let mut store = Store::new();
    store.products.push(product(1, 5000, 10, 1));
    store.products.push(product(2, 3000, 10, 2));
    store
}

#[test]
fn two_vendor_cart_without_coupon() {
    let mut store = two_vendor_store();
    let cfg = CommerceConfig::standard();
    let req = request(vec![item(1, 2), item(2, 1)], None);
    let id = store.checkout_at(&req, &cfg, 1_500, "ORD-AAAA1111".to_string()).unwrap();
    assert_eq!(id, 0);
    let order = &store.orders[0];
    assert_eq!(order.subtotal, 13000);
    assert_eq!(order.shipping_cost, 0);
    assert_eq!(order.tax, 1300);
    assert_eq!(order.discount, 0);
    assert_eq!(order.total, 14300);
    assert_eq!(order.status, OrderStatus::Pending);
    assert_eq!(order.order_number, "ORD-AAAA1111");
    assert_eq!(store.suppliers.len(), 2);
    assert_eq!(store.suppliers[0].vendor_id, 1);
    assert_eq!(store.suppliers[0].subtotal, 10000);
    assert_eq!(store.suppliers[1].vendor_id, 2);
    assert_eq!(store.suppliers[1].subtotal, 3000);
    assert_eq!(store.suppliers[0].commission_amount, 1000);
    assert_eq!(store.suppliers[0].payout_amount, 9000);
    assert_eq!(store.suppliers[1].commission_amount, 300);
    assert_eq!(store.suppliers[1].payout_amount, 2700);
    assert_eq!(store.details.len(), 2);
    assert_eq!(store.details[0].product_name, "Product 1");
    assert_eq!(store.details[0].total_price, 10000);
    assert_eq!(store.products[0].stock, 8);
    assert_eq!(store.products[1].stock, 9);
    assert_eq!(store.links.len(), 2);
    assert_eq!(store.links[0].order_detail_id, 0);
    assert_eq!(store.links[0].order_supplier_id, 0);
    assert_eq!(store.links[1].order_detail_id, 1);
    assert_eq!(store.links[1].order_supplier_id, 1);
}

#[test]
fn two_vendor_cart_with_percentage_coupon() {
    let mut store = two_vendor_store();
    store.coupons.push(coupon("SAVE10", DiscountType::Percentage, 1000, 5000, None));
    let cfg = CommerceConfig::standard();
    let req = request(vec![item(1, 2), item(2, 1)], Some("SAVE10"));
    store.checkout_at(&req, &cfg, 1_500, "ORD-BBBB2222".to_string()).unwrap();
    let order = &store.orders[0];
    assert_eq!(order.subtotal, 13000);
    assert_eq!(order.discount, 1300);
    assert_eq!(order.shipping_cost, 0);
    assert_eq!(order.tax, 1170);
    assert_eq!(order.total, 12870);
    assert_eq!(order.coupon_id, Some(7));
    assert_eq!(store.coupons[0].used_count, 1);
}

#[test]
fn balance_holds_for_every_order() {
    let mut store = two_vendor_store();
    store.products.push(product(3, 1999, 10, 1));
    let cfg = CommerceConfig::standard();
    let req = request(vec![item(3, 3), item(2, 1), item(1, 1)], None);
    store.checkout_at(&req, &cfg, 1_500, "ORD-CCCC3333".to_string()).unwrap();
    let o = &store.orders[0];
    assert_eq!(o.total, o.subtotal + o.shipping_cost + o.tax - o.discount);
    let sum: u64 = store.suppliers.iter().map(|s| s.subtotal).sum();
    assert_eq!(sum, o.subtotal);
    for s in &store.suppliers {
        assert_eq!(s.commission_amount + s.payout_amount, s.subtotal);
    }
    for (k, d) in store.details.iter().enumerate() {
        let links: Vec<_> = store.links.iter().filter(|l| l.order_detail_id == k).collect();
        assert_eq!(links.len(), 1);
        let vendor = store.products.iter().find(|p| p.id == d.product_id).unwrap().vendor_id;
        assert_eq!(store.suppliers[links[0].order_supplier_id].vendor_id, vendor);
    }
}

#[test]
fn shipping_charged_below_threshold() {
    let mut store = two_vendor_store();
    let cfg = CommerceConfig::standard();
    let req = request(vec![item(2, 1)], None);
    store.checkout_at(&req, &cfg, 1_500, "ORD-DDDD4444".to_string()).unwrap();
    let o = &store.orders[0];
    assert_eq!(o.shipping_cost, 1000);
    assert_eq!(o.tax, 300);
    assert_eq!(o.total, 4300);
}

#[test]
fn oversell_fails_and_changes_nothing() {
    let mut store = Store::new();
    store.products.push(product(1, 5000, 1, 1));
    store.coupons.push(coupon("SAVE10", DiscountType::Percentage, 1000, 0, None));
    let cfg = CommerceConfig::standard();
    let req = request(vec![item(1, 2)], Some("SAVE10"));
    let r = store.checkout_at(&req, &cfg, 1_500, "ORD-EEEE5555".to_string());
    assert_eq!(r, Err(LedgerError::Validation(Invalid::InsufficientStock(1))));
    assert_eq!(store.products[0].stock, 1);
    assert!(store.orders.is_empty());
    assert!(store.details.is_empty());
    assert!(store.suppliers.is_empty());
    assert_eq!(store.coupons[0].used_count, 0);
}

#[test]
fn repeated_lines_share_one_pool() {
    let mut store = Store::new();
    store.products.push(product(1, 5000, 3, 1));
    let cfg = CommerceConfig::standard();
    let req = request(vec![item(1, 2), item(1, 2)], None);
    let r = store.checkout_at(&req, &cfg, 1_500, "ORD-FFFF6666".to_string());
    assert_eq!(r, Err(LedgerError::Validation(Invalid::InsufficientStock(1))));
    assert_eq!(store.products[0].stock, 3);
}

#[test]
fn second_checkout_cannot_oversell() {
    let mut store = Store::new();
    store.products.push(product(1, 5000, 3, 1));
    let cfg = CommerceConfig::standard();
    store.checkout_at(&request(vec![item(1, 2)], None), &cfg, 1_500, "ORD-GGGG0001".to_string()).unwrap();
    let r = store.checkout_at(&request(vec![item(1, 2)], None), &cfg, 1_501, "ORD-GGGG0002".to_string());
    assert_eq!(r, Err(LedgerError::Validation(Invalid::InsufficientStock(1))));
    assert_eq!(store.products[0].stock, 1);
    store.checkout_at(&request(vec![item(1, 1)], None), &cfg, 1_502, "ORD-GGGG0003".to_string()).unwrap();
    assert_eq!(store.products[0].stock, 0);
    assert_eq!(store.orders.len(), 2);
}

#[test]
fn coupon_cap_allows_exactly_max_uses() {
    let mut store = Store::new();
    store.products.push(product(1, 5000, 100, 1));
    store.coupons.push(coupon("TWICE", DiscountType::Fixed, 500, 0, Some(2)));
    let cfg = CommerceConfig::standard();
    for n in 0..2 {
        let number = format!("ORD-HHHH000{}", n);
        store.checkout_at(&request(vec![item(1, 1)], Some("TWICE")), &cfg, 1_500, number).unwrap();
    }
    assert_eq!(store.coupons[0].used_count, 2);
    let r = store.checkout_at(&request(vec![item(1, 1)], Some("TWICE")), &cfg, 1_500, "ORD-HHHH0009".to_string());
    assert_eq!(r, Err(LedgerError::Validation(Invalid::CouponExhausted)));
    assert_eq!(store.coupons[0].used_count, 2);
    assert_eq!(store.products[0].stock, 98);
}

#[test]
fn coupon_rejections() {
    let mut store = Store::new();
    store.products.push(product(1, 5000, 100, 1));
    store.coupons.push(coupon("MIN", DiscountType::Fixed, 500, 10000, None));
    let mut off = coupon("OFF", DiscountType::Fixed, 500, 0, None);
    off.is_active = false;
    off.id = 8;
    store.coupons.push(off);
    let cfg = CommerceConfig::standard();
    let run = |store: &mut Store, code: &str, now: i64| {
        store.checkout_at(&request(vec![item(1, 1)], Some(code)), &cfg, now, "ORD-IIII0001".to_string())
    };
    assert_eq!(run(&mut store, "NOPE", 1_500), Err(LedgerError::Validation(Invalid::CouponUnknown)));
    assert_eq!(run(&mut store, "OFF", 1_500), Err(LedgerError::Validation(Invalid::CouponUnknown)));
    assert_eq!(run(&mut store, "MIN", 999), Err(LedgerError::Validation(Invalid::CouponExpired)));
    assert_eq!(run(&mut store, "MIN", 2_001), Err(LedgerError::Validation(Invalid::CouponExpired)));
    assert_eq!(run(&mut store, "MIN", 1_500), Err(LedgerError::Validation(Invalid::CouponBelowMinimum)));
    assert!(store.orders.is_empty());
}

#[test]
fn fixed_discount_is_capped_at_subtotal() {
    let mut store = Store::new();
    store.products.push(product(1, 1000, 100, 1));
    store.coupons.push(coupon("BIG", DiscountType::Fixed, 5000, 0, None));
    let cfg = CommerceConfig::standard();
    store.checkout_at(&request(vec![item(1, 1)], Some("BIG")), &cfg, 1_500, "ORD-JJJJ0001".to_string()).unwrap();
    let o = &store.orders[0];
    assert_eq!(o.discount, 1000);
    assert_eq!(o.tax, 0);
    assert_eq!(o.total, 1000);
}

#[test]
fn other_discount_kind_gives_nothing() {
    let mut store = Store::new();
    store.products.push(product(1, 1000, 100, 1));
    store.coupons.push(coupon("ODD", DiscountType::Other, 5000, 0, None));
    let cfg = CommerceConfig::standard();
    store.checkout_at(&request(vec![item(1, 1)], Some("ODD")), &cfg, 1_500, "ORD-JJJJ0002".to_string()).unwrap();
    assert_eq!(store.orders[0].discount, 0);
    assert_eq!(store.coupons[0].used_count, 1);
}

#[test]
fn product_errors() {
    let mut store = Store::new();
    store.products.push(product(1, 1000, 100, 1));
    let mut hidden = product(2, 1000, 100, 1);
    hidden.is_active = false;
    store.products.push(hidden);
    let cfg = CommerceConfig::standard();
    let run = |store: &mut Store, it: CartItem| {
        store.checkout_at(&request(vec![it], None), &cfg, 1_500, "ORD-KKKK0001".to_string())
    };
    assert_eq!(run(&mut store, item(9, 1)), Err(LedgerError::NotFound(Missing::Product(9))));
    assert_eq!(run(&mut store, item(2, 1)), Err(LedgerError::Validation(Invalid::ProductUnavailable(2))));
    assert_eq!(run(&mut store, item(1, 0)), Err(LedgerError::Validation(Invalid::Quantity(1))));
    assert_eq!(run(&mut store, item(1, -3)), Err(LedgerError::Validation(Invalid::Quantity(1))));
    let sized = CartItem { product_id: 1, quantity: 1, size: Some("XL".to_string()) };
    assert_eq!(run(&mut store, sized), Err(LedgerError::NotFound(Missing::Size(1))));
}

#[test]
fn size_pool_is_separate_from_product_pool() {
    let mut store = Store::new();
    store.products.push(product(1, 1000, 1, 1));
    store.sizes.push(ProductSize { product_id: 1, size: "M".to_string(), stock: 5 });
    let cfg = CommerceConfig::standard();
    let sized = CartItem { product_id: 1, quantity: 4, size: Some("M".to_string()) };
    store.checkout_at(&request(vec![sized], None), &cfg, 1_500, "ORD-LLLL0001".to_string()).unwrap();
    assert_eq!(store.sizes[0].stock, 1);
    assert_eq!(store.products[0].stock, 1);
    assert_eq!(store.details[0].size, Some("M".to_string()));
    let sized = CartItem { product_id: 1, quantity: 2, size: Some("M".to_string()) };
    let r = store.checkout_at(&request(vec![sized], None), &cfg, 1_500, "ORD-LLLL0002".to_string());
    assert_eq!(r, Err(LedgerError::Validation(Invalid::InsufficientStock(1))));
}

#[test]
fn amount_limit_is_enforced() {
    let mut store = Store::new();
    store.products.push(product(1, 1_000_000_000_000_000, 10, 1));
    let cfg = CommerceConfig::standard();
    let r = store.checkout_at(&request(vec![item(1, 2)], None), &cfg, 1_500, "ORD-MMMM0001".to_string());
    assert_eq!(r, Err(LedgerError::Validation(Invalid::AmountTooLarge)));
    assert_eq!(store.products[0].stock, 10);
}

#[test]
fn duplicate_order_number_conflicts() {
    let mut store = two_vendor_store();
    let cfg = CommerceConfig::standard();
    store.checkout_at(&request(vec![item(1, 1)], None), &cfg, 1_500, "ORD-NNNN0001".to_string()).unwrap();
    let r = store.checkout_at(&request(vec![item(1, 1)], None), &cfg, 1_500, "ORD-NNNN0001".to_string());
    assert_eq!(r, Err(LedgerError::Conflict));
    assert_eq!(store.products[0].stock, 9);
}

#[test]
fn checkout_draws_an_order_number() {
    let mut store = two_vendor_store();
    let cfg = CommerceConfig::standard();
    store.checkout(&request(vec![item(1, 1)], None), &cfg).unwrap();
    let n = &store.orders[0].order_number;
    assert_eq!(n.len(), 12);
    assert!(n.starts_with("ORD-"));
    assert!(n[4..].chars().all(|c| c.is_ascii_digit() || c.is_ascii_uppercase()));
}

#[test]
fn pricing_rules() {
    let cfg = CommerceConfig::standard();
    assert_eq!(effective_price(5000, Some(4000)), 4000);
    assert_eq!(effective_price(5000, Some(6000)), 5000);
    assert_eq!(effective_price(5000, None), 5000);
    assert_eq!(shipping_cost(&cfg, 9999), 1000);
    assert_eq!(shipping_cost(&cfg, 10000), 0);
    let t = compute_totals(&cfg, 13000, 1300);
    assert_eq!((t.subtotal, t.shipping, t.tax, t.discount, t.total), (13000, 0, 1170, 1300, 12870));
    let t = compute_totals(&cfg, 500, 900);
    assert_eq!((t.discount, t.tax, t.total), (500, 0, 1000));
}

#[test]
fn billing_address_defaults_to_shipping() {
    let create = marketplace::dto::order::CreateOrderRequest {
        items: vec![item(1, 1)],
        shipping_address: "12 Long Street, Springfield".to_string(),
        billing_address: None,
        phone: "5550100".to_string(),
        email: "buyer@example.com".to_string(),
        notes: None,
        coupon_code: Some("SAVE10".to_string()),
        payment_method: "card".to_string(),
    };
    let req = CheckoutRequest::from_create_order(4, create);
    assert_eq!(req.user_id, 4);
    assert_eq!(req.billing_address, "12 Long Street, Springfield");
    assert_eq!(req.coupon_code, Some("SAVE10".to_string()));
    assert_eq!(req.items.len(), 1);
}
