//! Names of order statuses, and the payment events that gateways report.

use vstd::prelude::*;
use crate::ledger::OrderStatus;

verus! {

pub open spec fn lower(c: char) -> char {
    if 'A' <= c && c <= 'Z' {
        ((c as u32) + 32) as char
    } else {
        c
    }
}

/// Whether a text equals a name, ignoring the case of ASCII letters in the
/// text.
pub open spec fn matches_name(s: Seq<char>, name: Seq<char>) -> bool {
    s.map_values(|c: char| lower(c)) == name
}

/// Compares a text with a name, ignoring the case of ASCII letters in the
/// text when `fold` is set.
pub fn text_equals(s: &str, name: &str, fold: bool) -> (r: bool)
    ensures
        fold ==> r == matches_name(s@, name@),
        !fold ==> r == (s@ == name@),
{
    let n = s.unicode_len();
    if n != name.unicode_len() {
        proof {
            assert(s@.map_values(|c: char| lower(c)).len() == s@.len());
        }
        return false;
    }
    let mut i: usize = 0;
    while i < n
        invariant
            i <= n,
            n == s@.len(),
            n == name@.len(),
            fold ==> forall|k: int| 0 <= k < i ==> lower(s@[k]) == name@[k],
            !fold ==> forall|k: int| 0 <= k < i ==> s@[k] == name@[k],
        decreases n - i,
    {
        let c = s.get_char(i);
        let c = if fold && 'A' <= c && c <= 'Z' { ((c as u32 + 32) as u8) as char } else { c };
        assert(fold ==> c == lower(s@[i as int]));
        if c != name.get_char(i) {
            proof {
                if fold {
                    assert(c == lower(s@[i as int]));
                    assert(s@.map_values(|c: char| lower(c))[i as int] != name@[i as int]);
                }
            }
            return false;
        }
        i += 1;
    }
    proof {
        assert(fold ==> s@.map_values(|c: char| lower(c)) =~= name@);
        assert(!fold ==> s@ =~= name@);
    }
    true
}

pub open spec fn status_name(st: OrderStatus) -> Seq<char> {
    match st {
        OrderStatus::Pending => seq!['p', 'e', 'n', 'd', 'i', 'n', 'g'],
        OrderStatus::Confirmed => seq!['c', 'o', 'n', 'f', 'i', 'r', 'm', 'e', 'd'],
        OrderStatus::Processing => seq!['p', 'r', 'o', 'c', 'e', 's', 's', 'i', 'n', 'g'],
        OrderStatus::Shipped => seq!['s', 'h', 'i', 'p', 'p', 'e', 'd'],
        OrderStatus::Delivered => seq!['d', 'e', 'l', 'i', 'v', 'e', 'r', 'e', 'd'],
        OrderStatus::Cancelled => seq!['c', 'a', 'n', 'c', 'e', 'l', 'l', 'e', 'd'],
        OrderStatus::Refunded => seq!['r', 'e', 'f', 'u', 'n', 'd', 'e', 'd'],
    }
}

impl OrderStatus {
    /// The status's name in lower case.
    pub fn as_str(&self) -> (r: &'static str)
        ensures
            r@ == status_name(*self),
    {
        match self {
            OrderStatus::Pending => {
                proof { reveal_strlit("pending"); }
                "pending"
            },
            OrderStatus::Confirmed => {
                proof { reveal_strlit("confirmed"); }
                "confirmed"
            },
            OrderStatus::Processing => {
                proof { reveal_strlit("processing"); }
                "processing"
            },
            OrderStatus::Shipped => {
                proof { reveal_strlit("shipped"); }
                "shipped"
            },
            OrderStatus::Delivered => {
                proof { reveal_strlit("delivered"); }
                "delivered"
            },
            OrderStatus::Cancelled => {
                proof { reveal_strlit("cancelled"); }
                "cancelled"
            },
            OrderStatus::Refunded => {
                proof { reveal_strlit("refunded"); }
                "refunded"
            },
        }
    }

    /// The status named by a text, in any case; `Pending` for any other text.
    pub fn from_str(s: &str) -> (r: OrderStatus)
        ensures
            matches_name(s@, status_name(r)) || (r == OrderStatus::Pending && forall|st: OrderStatus|
                !matches_name(s@, #[trigger] status_name(st))),
    {
        let all = [
            OrderStatus::Confirmed,
            OrderStatus::Processing,
            OrderStatus::Shipped,
            OrderStatus::Delivered,
            OrderStatus::Cancelled,
            OrderStatus::Refunded,
            OrderStatus::Pending,
        ];
        let mut i: usize = 0;
        while i < 7
            invariant
                i <= 7,
                all@ == seq![
                    OrderStatus::Confirmed,
                    OrderStatus::Processing,
                    OrderStatus::Shipped,
                    OrderStatus::Delivered,
                    OrderStatus::Cancelled,
                    OrderStatus::Refunded,
                    OrderStatus::Pending,
                ],
                forall|k: int| 0 <= k < i ==> !matches_name(s@, status_name(#[trigger] all@[k])),
            decreases 7 - i,
        {
            let st = all[i];
            if text_equals(s, st.as_str(), true) {
                return st;
            }
            i += 1;
        }
        proof {
            assert forall|st: OrderStatus| !matches_name(s@, #[trigger] status_name(st)) by {
                match st {
                    OrderStatus::Confirmed => assert(all@[0] == st),
                    OrderStatus::Processing => assert(all@[1] == st),
                    OrderStatus::Shipped => assert(all@[2] == st),
                    OrderStatus::Delivered => assert(all@[3] == st),
                    OrderStatus::Cancelled => assert(all@[4] == st),
                    OrderStatus::Refunded => assert(all@[5] == st),
                    OrderStatus::Pending => assert(all@[6] == st),
                }
            }
        }
        OrderStatus::Pending
    }
}

/// What a payment gateway reports of an order's payment.
#[derive(Clone, Copy, Debug, PartialEq, Eq, Structural)]
pub enum PaymentEvent {
    Succeeded,
    Failed,
}

#[derive(Clone, Copy, Debug, PartialEq, Eq, Structural)]
pub enum Gateway {
    Stripe,
    Razorpay,
    Paypal,
}

/// The event types that each gateway names success and failure by.
pub open spec fn event_names(g: Gateway) -> (Seq<char>, Option<Seq<char>>) {
    match g {
        Gateway::Stripe => (
            seq!['p', 'a', 'y', 'm', 'e', 'n', 't', '_', 'i', 'n', 't', 'e', 'n', 't', '.', 's', 'u', 'c', 'c', 'e', 'e', 'd', 'e', 'd'],
            Some(seq!['p', 'a', 'y', 'm', 'e', 'n', 't', '_', 'i', 'n', 't', 'e', 'n', 't', '.', 'p', 'a', 'y', 'm', 'e', 'n', 't', '_', 'f', 'a', 'i', 'l', 'e', 'd']),
        ),
        Gateway::Razorpay => (
            seq!['p', 'a', 'y', 'm', 'e', 'n', 't', '.', 'c', 'a', 'p', 't', 'u', 'r', 'e', 'd'],
            Some(seq!['p', 'a', 'y', 'm', 'e', 'n', 't', '.', 'f', 'a', 'i', 'l', 'e', 'd']),
        ),
        Gateway::Paypal => (
            seq!['P', 'A', 'Y', 'M', 'E', 'N', 'T', '.', 'C', 'A', 'P', 'T', 'U', 'R', 'E', '.', 'C', 'O', 'M', 'P', 'L', 'E', 'T', 'E', 'D'],
            None,
        ),
    }
}

/// The payment event that a gateway's event type reports; other event types
/// are ignored.
pub fn classify_event(gateway: Gateway, event_type: &str) -> (r: Option<PaymentEvent>)
    ensures
        event_type@ == event_names(gateway).0 ==> r == Some(PaymentEvent::Succeeded),
        event_names(gateway).1 == Some(event_type@) ==> r == Some(PaymentEvent::Failed),
        event_type@ != event_names(gateway).0 && event_names(gateway).1 != Some(event_type@) ==> r is None,
{
    let (succeeded, failed): (&str, Option<&str>) = match gateway {
        Gateway::Stripe => {
            proof {
                reveal_strlit("payment_intent.succeeded");
                reveal_strlit("payment_intent.payment_failed");
            }
            ("payment_intent.succeeded", Some("payment_intent.payment_failed"))
        },
        Gateway::Razorpay => {
            proof {
                reveal_strlit("payment.captured");
                reveal_strlit("payment.failed");
            }
            ("payment.captured", Some("payment.failed"))
        },
        Gateway::Paypal => {
            proof {
                reveal_strlit("PAYMENT.CAPTURE.COMPLETED");
            }
            ("PAYMENT.CAPTURE.COMPLETED", None)
        },
    };
    assert(succeeded@ =~= event_names(gateway).0);
    assert(failed matches Some(f) ==> event_names(gateway).1 == Some(f@) && f@ != succeeded@);
    assert(failed is None ==> event_names(gateway).1 is None);
    if text_equals(event_type, succeeded, false) {
        return Some(PaymentEvent::Succeeded);
    }
    match failed {
        Some(f) => if text_equals(event_type, f, false) { Some(PaymentEvent::Failed) } else { None },
        None => None,
    }
}

} // verus!
