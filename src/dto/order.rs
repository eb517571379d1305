//! Request and response shapes of the order, payment, coupon and vendor wallet endpoints.

use vstd::prelude::*;
use crate::catalog::CartItem;

verus! {

pub struct CreateOrderRequest {
    pub items: Vec<CartItem>,
    pub shipping_address: String,
    pub billing_address: Option<String>,
    pub phone: String,
    pub email: String,
    pub notes: Option<String>,
    pub coupon_code: Option<String>,
    pub payment_method: String,
}

pub struct OrderResponse {
    pub id: i32,
    pub order_number: String,
    pub status: String,
    pub items: Vec<OrderItemResponse>,
    pub subtotal: String,
    pub shipping_cost: String,
    pub tax: String,
    pub discount: String,
    pub total: String,
    pub shipping_address: String,
    pub billing_address: String,
    pub phone: String,
    pub email: String,
    pub notes: Option<String>,
    pub payment: Option<PaymentInfo>,
    pub created_at: String,
}

pub struct OrderItemResponse {
    pub id: i32,
    pub product_id: i32,
    pub product_name: String,
    pub product_image: Option<String>,
    pub size: Option<String>,
    pub quantity: i32,
    pub unit_price: String,
    pub total_price: String,
}

pub struct OrderListResponse {
    pub id: i32,
    pub order_number: String,
    pub status: String,
    pub total: String,
    pub items_count: i32,
    pub created_at: String,
}

pub struct PaymentInfo {
    pub id: i32,
    pub method: String,
    pub transaction_id: Option<String>,
    pub amount: String,
    pub status: String,
}

pub struct VendorOrderResponse {
    pub id: i32,
    pub order_id: i32,
    pub order_number: String,
    pub customer_name: String,
    pub status: String,
    pub items: Vec<OrderItemResponse>,
    pub subtotal: String,
    pub commission_amount: String,
    pub payout_amount: String,
    pub tracking_number: Option<String>,
    pub shipped_at: Option<String>,
    pub delivered_at: Option<String>,
    pub created_at: String,
}

pub struct UpdateVendorOrderRequest {
    pub status: Option<String>,
    pub tracking_number: Option<String>,
}

pub struct InitiatePaymentRequest {
    pub order_id: i32,
    pub payment_method: String,
    pub return_url: Option<String>,
}

pub struct PaymentIntentResponse {
    pub client_secret: Option<String>,
    pub payment_url: Option<String>,
    pub order_id: String,
}

pub struct CouponResponse {
    pub valid: bool,
    pub discount_type: String,
    pub discount_value: String,
    pub discount_amount: String,
    pub message: Option<String>,
}

pub struct VendorWalletResponse {
    pub balance: String,
    pub pending_payments: String,
    pub total_earned: String,
    pub recent_transactions: Vec<VendorTransactionResponse>,
}

pub struct VendorTransactionResponse {
    pub id: i32,
    pub amount: String,
    pub payment_type: String,
    pub status: String,
    pub reference: Option<String>,
    pub created_at: String,
}

} // verus!
