use marketplace::auth::{bearer_token, AuthError};
use marketplace::catalog::CartItem;
use marketplace::dto::common::{ApiResponse, ContactRequest, MessageResponse, NewsletterRequest, PaginationInfo, PaginationParams};
use marketplace::dto::order::CreateOrderRequest;
use marketplace::request::Field;
use marketplace::ledger::OrderStatus;
use marketplace::media::get_dimensions;
use marketplace::money::{apply_rate, cents_from_parts, format_amount, parse_amount};
use marketplace::status::{classify_event, Gateway, PaymentEvent};
use marketplace::text::{generate_order_number, generate_slug, generate_slug_with_counter, order_number_from_token};

#[test]
fn amounts_print_with_two_places() {
    assert_eq!(format_amount(13000), "130.00");
    assert_eq!(format_amount(5), "0.05");
    assert_eq!(format_amount(0), "0.00");
}

#[test]
fn amounts_parse_to_cents() {
    assert_eq!(parse_amount("130.5"), Some(13050));
    assert_eq!(parse_amount("12"), Some(1200));
    assert_eq!(parse_amount("0.10"), Some(10));
    assert_eq!(parse_amount("1.2500"), Some(125));
    assert_eq!(parse_amount("1.005"), None);
    assert_eq!(parse_amount("-3"), None);
    assert_eq!(parse_amount("abc"), None);
    assert_eq!(cents_from_parts(12345, 3), None);
    assert_eq!(cents_from_parts(12340, 3), Some(1234));
    assert_eq!(cents_from_parts(7, 0), Some(700));
}

#[test]
fn rates_round_half_up() {
    assert_eq!(apply_rate(13000, 1000), 1300);
    assert_eq!(apply_rate(8100, 250), 203);
    assert_eq!(apply_rate(2700, 250), 68);
    assert_eq!(apply_rate(1, 4999), 0);
    assert_eq!(apply_rate(1, 5000), 1);
    assert_eq!(apply_rate(777, 10000), 777);
}

#[test]
fn order_numbers() {
    let n = order_number_from_token("67e55044-10b1-426f-9247-bb680e5fe0c8").unwrap();
    assert_eq!(n, "ORD-67E55044");
    assert_eq!(order_number_from_token("abc"), None);
    assert_eq!(order_number_from_token("abc-defgh"), None);
    let g = generate_order_number();
    assert_eq!(g.len(), 12);
    assert!(g.starts_with("ORD-"));
    assert!(g[4..].chars().all(|c| c.is_ascii_digit() || ('A'..='F').contains(&c)));
    assert_ne!(generate_order_number(), generate_order_number());
}

#[test]
fn slugs() {
    assert_eq!(generate_slug("My Test String!!!1!1"), "my-test-string-1-1");
    assert_eq!(generate_slug("You & Me"), "you-me");
    assert_eq!(generate_slug_with_counter("Red Lamp", 0), "red-lamp");
    assert_eq!(generate_slug_with_counter("Red Lamp", 3), "red-lamp-3");
    assert_eq!(generate_slug_with_counter("Red Lamp", -12), "red-lamp--12");
    assert_eq!(generate_slug_with_counter("x", i32::MIN), "x--2147483648");
}

#[test]
fn image_dimensions() {
    let png: [u8; 68] = [
        137, 80, 78, 71, 13, 10, 26, 10, 0, 0, 0, 13, 73, 72, 68, 82, 0, 0, 0, 3, 0, 0, 0, 2, 8, 0, 0, 0, 0,
        184, 31, 57, 198, 0, 0, 0, 11, 73, 68, 65, 84, 120, 156, 99, 96, 128, 0, 0, 0, 8, 0, 1, 183, 88, 115,
        149, 0, 0, 0, 0, 73, 69, 78, 68, 174, 66, 96, 130,
    ];
    assert_eq!(get_dimensions(&png).unwrap(), (3, 2));
    assert!(get_dimensions(&[1, 2, 3]).is_err());
}

#[test]
fn pagination() {
    assert_eq!(PaginationInfo::new(1, 20, 45).total_pages, 3);
    assert_eq!(PaginationInfo::new(1, 20, 40).total_pages, 2);
    assert_eq!(PaginationInfo::new(1, 20, 0).total_pages, 0);
    assert_eq!(PaginationInfo::new(1, 1, i64::MAX).total_pages, i64::MAX);
    let p = PaginationParams { page: None, per_page: None };
    assert_eq!((p.page(), p.per_page(), p.offset()), (1, 20, 0));
    let p = PaginationParams { page: Some(3), per_page: Some(10) };
    assert_eq!((p.page(), p.per_page(), p.offset()), (3, 10, 20));
    let p = PaginationParams { page: Some(-2), per_page: Some(500) };
    assert_eq!((p.page(), p.per_page(), p.offset()), (1, 100, 0));
    let p = PaginationParams { page: Some(2), per_page: Some(0) };
    assert_eq!(p.per_page(), 1);
}

#[test]
fn envelopes() {
    let r = ApiResponse::success(5);
    assert!(r.success);
    assert_eq!(r.data, Some(5));
    assert_eq!(r.message, None);
    let r = ApiResponse::success_message("x", "done");
    assert_eq!(r.message, Some("done".to_string()));
    let m = MessageResponse::new("Added to cart");
    assert!(m.success);
    assert_eq!(m.message, "Added to cart");
}

#[test]
fn bearer_tokens() {
    assert_eq!(bearer_token(Some("Bearer abc.def")), Ok("abc.def".to_string()));
    assert_eq!(bearer_token(Some("Bearer ")), Ok(String::new()));
    assert_eq!(bearer_token(Some("Basic abc")), Err(AuthError::InvalidToken));
    assert_eq!(bearer_token(Some("bearer abc")), Err(AuthError::InvalidToken));
    assert_eq!(bearer_token(None), Err(AuthError::MissingToken));
}

#[test]
fn status_names() {
    assert_eq!(OrderStatus::Delivered.as_str(), "delivered");
    assert_eq!(OrderStatus::from_str("SHIPPED"), OrderStatus::Shipped);
    assert_eq!(OrderStatus::from_str("refunded"), OrderStatus::Refunded);
    assert_eq!(OrderStatus::from_str("lost"), OrderStatus::Pending);
}

#[test]
fn gateway_events() {
    assert_eq!(classify_event(Gateway::Stripe, "payment_intent.succeeded"), Some(PaymentEvent::Succeeded));
    assert_eq!(classify_event(Gateway::Stripe, "payment_intent.payment_failed"), Some(PaymentEvent::Failed));
    assert_eq!(classify_event(Gateway::Stripe, "charge.refunded"), None);
    assert_eq!(classify_event(Gateway::Razorpay, "payment.captured"), Some(PaymentEvent::Succeeded));
    assert_eq!(classify_event(Gateway::Razorpay, "payment.failed"), Some(PaymentEvent::Failed));
    assert_eq!(classify_event(Gateway::Paypal, "PAYMENT.CAPTURE.COMPLETED"), Some(PaymentEvent::Succeeded));
    assert_eq!(classify_event(Gateway::Paypal, "payment.capture.completed"), None);
}

#[test]
fn request_field_rules() {
    let order = CreateOrderRequest {
        items: vec![CartItem { product_id: 1, quantity: 1, size: None }],
        shipping_address: "12 Long Street".to_string(),
        billing_address: None,
        phone: "5550100".to_string(),
        email: "buyer@example.com".to_string(),
        notes: None,
        coupon_code: None,
        payment_method: "card".to_string(),
    };
    assert_eq!(order.validate(), Ok(()));
    let bad = CreateOrderRequest {
        shipping_address: "short".to_string(),
        phone: "12".to_string(),
        email: "no-at-sign".to_string(),
        ..order
    };
    assert_eq!(bad.validate(), Err(vec![Field::ShippingAddress, Field::Phone, Field::Email]));
    let contact = ContactRequest {
        name: "Ann".to_string(),
        email: "ann@example.com".to_string(),
        subject: "Hi".to_string(),
        message: "short".to_string(),
    };
    assert_eq!(contact.validate(), Err(vec![Field::Message]));
    assert_eq!(NewsletterRequest { email: "x@example.org".to_string() }.validate(), Ok(()));
    assert_eq!(NewsletterRequest { email: "x@".to_string() }.validate(), Err(vec![Field::Email]));
}
