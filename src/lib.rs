//! Multi-vendor checkout and fulfilment ledger: pricing, coupons, order
//! creation split per vendor, fulfilment transitions, referral settlement and
//! vendor payouts, all over an in-memory unit of work.

pub mod money;
pub mod error;
pub mod catalog;
pub mod pricing;
pub mod coupon;
pub mod ledger;
pub mod checkout;
pub mod grouping;
pub mod checkout_lemmas;
pub mod fulfillment;
pub mod payout;
pub mod text;
pub mod service;
pub mod dto;
pub mod config;
pub mod auth;
pub mod media;
pub mod status;
pub mod payments;
pub mod stats;
pub mod request;
