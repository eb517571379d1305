//! Customer payments of orders, and the reaction to gateway events.

use vstd::prelude::*;
use crate::catalog::copy_text;
use crate::error::{Invalid, LedgerError, Missing};
use crate::ledger::{Order, OrderStatus, Payment, PaymentState, Store, StoreView};
use crate::status::{classify_event, event_names, Gateway, PaymentEvent};

verus! {

pub open spec fn currency_usd() -> Seq<char> {
    seq!['U', 'S', 'D']
}

/// Whether `t` is `s` with one pending payment of order `order_id`'s total
/// appended, in dollars, by `method`.
pub open spec fn payment_started(s: StoreView, t: StoreView, order_id: usize, method: String) -> bool {
    let p = t.payments.last();
    &&& t.payments.len() == s.payments.len() + 1
    &&& t.payments.drop_last() == s.payments
    &&& p.id == s.payments.len()
    &&& p.order_id == order_id
    &&& p.payment_method == method
    &&& p.amount == s.orders[order_id as int].total
    &&& p.currency@ == currency_usd()
    &&& p.status == PaymentState::Pending
    &&& t == StoreView { payments: t.payments, ..s }
}

pub open spec fn order_owned(s: StoreView, user_id: i32, order_id: usize) -> bool {
    order_id < s.orders.len() && s.orders[order_id as int].user_id == user_id
}

/// The store after a gateway reports an event on order `order_id`: success
/// confirms a pending order and completes its payments; failure fails them.
pub open spec fn event_spec(s: StoreView, order_id: usize, event: PaymentEvent) -> Result<StoreView, LedgerError> {
    if order_id >= s.orders.len() {
        Err(LedgerError::NotFound(Missing::Order(order_id)))
    } else {
        let o = s.orders[order_id as int];
        let state = if event == PaymentEvent::Succeeded { PaymentState::Completed } else { PaymentState::Failed };
        Ok(StoreView {
            orders: if event == PaymentEvent::Succeeded && o.status == OrderStatus::Pending {
                s.orders.update(order_id as int, Order { status: OrderStatus::Confirmed, ..o })
            } else {
                s.orders
            },
            payments: Seq::new(
                s.payments.len(),
                |i: int| if s.payments[i].order_id == order_id {
                    Payment { status: state, ..s.payments[i] }
                } else {
                    s.payments[i]
                },
            ),
            ..s
        })
    }
}

/// The payment event that a gateway's event type reports, if any.
pub open spec fn classify_spec(g: Gateway, event_type: Seq<char>) -> Option<PaymentEvent> {
    if event_type == event_names(g).0 {
        Some(PaymentEvent::Succeeded)
    } else if event_names(g).1 == Some(event_type) {
        Some(PaymentEvent::Failed)
    } else {
        None
    }
}

pub open spec fn is_digit(c: char) -> bool {
    '0' <= c && c <= '9'
}

/// The value of a string of decimal digits.
pub open spec fn digits_value(s: Seq<char>) -> int
    decreases s.len(),
{
    if s.len() == 0 {
        0
    } else {
        digits_value(s.drop_last()) * 10 + (s.last() as int - '0' as int)
    }
}

pub open spec fn all_digits(s: Seq<char>) -> bool {
    forall|i: int| 0 <= i < s.len() ==> is_digit(#[trigger] s[i])
}

/// The order that a reference names: a non-empty string of decimal digits
/// whose value is a position.
pub open spec fn order_ref_spec(s: Seq<char>) -> Option<usize> {
    if s.len() > 0 && all_digits(s) && digits_value(s) <= usize::MAX {
        Some(digits_value(s) as usize)
    } else {
        None
    }
}

proof fn lemma_digits_grow(s: Seq<char>, k: int)
    requires
        0 <= k <= s.len(),
        all_digits(s),
    ensures
        0 <= digits_value(s.take(k)) <= digits_value(s),
    decreases s.len(),
{
    if s.len() > 0 {
        if k == s.len() {
            assert(s.take(k) =~= s);
        } else {
            assert(s.drop_last().take(k) =~= s.take(k));
        }
        if k < s.len() {
            lemma_digits_grow(s.drop_last(), k);
        } else {
            lemma_digits_grow(s.drop_last(), k - 1);
        }
    }
}

pub fn parse_order_ref(text: &str) -> (r: Option<usize>)
    ensures
        r == order_ref_spec(text@),
{
    let n = text.unicode_len();
    if n == 0 {
        return None;
    }
    let mut acc: usize = 0;
    let mut i: usize = 0;
    let ghost s = text@;
    while i < n
        invariant
            i <= n,
            n == s.len(),
            s == text@,
            all_digits(s.take(i as int)),
            acc == digits_value(s.take(i as int)),
        decreases n - i,
    {
        let c = text.get_char(i);
        proof {
            assert(s.take((i + 1) as int).drop_last() =~= s.take(i as int));
        }
        if !('0' <= c && c <= '9') {
            proof {
                assert(!is_digit(s[i as int]));
            }
            return None;
        }
        let d = (c as u32 - '0' as u32) as usize;
        if acc > (usize::MAX - d) / 10 {
            proof {
                assert(digits_value(s.take((i + 1) as int)) > usize::MAX);
                if all_digits(s) {
                    lemma_digits_grow(s, (i + 1) as int);
                }
            }
            return None;
        }
        acc = acc * 10 + d;
        proof {
            assert(all_digits(s.take((i + 1) as int)));
        }
        i += 1;
    }
    proof {
        assert(s.take(n as int) =~= s);
    }
    Some(acc)
}

fn order_with_status(o: &Order, status: OrderStatus) -> (r: Order)
    ensures
        r == (Order { status, ..*o }),
{
    Order {
        id: o.id,
        user_id: o.user_id,
        order_number: o.order_number.clone(),
        status,
        subtotal: o.subtotal,
        shipping_cost: o.shipping_cost,
        tax: o.tax,
        discount: o.discount,
        total: o.total,
        shipping_address: o.shipping_address.clone(),
        billing_address: o.billing_address.clone(),
        phone: o.phone.clone(),
        email: o.email.clone(),
        notes: copy_text(&o.notes),
        coupon_id: o.coupon_id,
        created_at: o.created_at,
    }
}

fn payment_with_status(p: &Payment, status: PaymentState) -> (r: Payment)
    ensures
        r == (Payment { status, ..*p }),
{
    Payment {
        id: p.id,
        order_id: p.order_id,
        payment_method: p.payment_method.clone(),
        amount: p.amount,
        currency: p.currency.clone(),
        status,
    }
}

impl Store {
    /// A customer starts paying one of their orders; returns the position of
    /// the payment record.
    pub fn initiate_payment(&mut self, user_id: i32, order_id: usize, method: String) -> (r: Result<usize, LedgerError>)
        requires
            old(self)@.wf(),
        ensures
            final(self)@.wf(),
            match r {
                Ok(id) => {
                    &&& order_owned(old(self)@, user_id, order_id)
                    &&& id == old(self)@.payments.len()
                    &&& payment_started(old(self)@, final(self)@, order_id, method)
                },
                Err(e) => {
                    &&& !order_owned(old(self)@, user_id, order_id)
                    &&& e == LedgerError::NotFound(Missing::Order(order_id))
                    &&& final(self)@ == old(self)@
                },
            },
    {
        if order_id >= self.orders.len() || self.orders[order_id].user_id != user_id {
            return Err(LedgerError::NotFound(Missing::Order(order_id)));
        }
        let id = self.payments.len();
        proof {
            reveal_strlit("USD");
        }
        let payment = Payment {
            id,
            order_id,
            payment_method: method,
            amount: self.orders[order_id].total,
            currency: "USD".to_owned(),
            status: PaymentState::Pending,
        };
        self.payments.push(payment);
        proof {
            assert(self@.payments.drop_last() =~= old(self)@.payments);
            assert(self@.payments.last().currency@ =~= currency_usd());
            assert(self@ == StoreView { payments: self@.payments, ..old(self)@ });
        }
        Ok(id)
    }

    /// Reacts to a gateway event: event types that report no payment outcome
    /// are ignored (`Ok(false)`); a reference that names no order position is
    /// rejected without any write; otherwise the outcome is applied to the
    /// order (`Ok(true)`).
    pub fn handle_gateway_event(&mut self, gateway: Gateway, event_type: &str, order_ref: &str) -> (r: Result<bool, LedgerError>)
        requires
            old(self)@.wf(),
        ensures
            final(self)@.wf(),
            match classify_spec(gateway, event_type@) {
                None => r == Ok::<bool, LedgerError>(false) && final(self)@ == old(self)@,
                Some(event) => match order_ref_spec(order_ref@) {
                    None => r == Err::<bool, LedgerError>(LedgerError::Validation(Invalid::MalformedPayload))
                        && final(self)@ == old(self)@,
                    Some(id) => match event_spec(old(self)@, id, event) {
                        Ok(t) => r == Ok::<bool, LedgerError>(true) && final(self)@ == t,
                        Err(e) => r == Err::<bool, LedgerError>(e) && final(self)@ == old(self)@,
                    },
                },
            },
    {
        let event = match classify_event(gateway, event_type) {
            None => {
                return Ok(false);
            },
            Some(e) => e,
        };
        let id = match parse_order_ref(order_ref) {
            None => {
                return Err(LedgerError::Validation(Invalid::MalformedPayload));
            },
            Some(id) => id,
        };
        match self.apply_payment_event(id, event) {
            Ok(()) => Ok(true),
            Err(e) => Err(e),
        }
    }

    /// Applies a gateway's payment event to an order.
    pub fn apply_payment_event(&mut self, order_id: usize, event: PaymentEvent) -> (r: Result<(), LedgerError>)
        requires
            old(self)@.wf(),
        ensures
            final(self)@.wf(),
            match r {
                Ok(()) => event_spec(old(self)@, order_id, event) == Ok::<StoreView, LedgerError>(final(self)@),
                Err(e) => {
                    &&& event_spec(old(self)@, order_id, event) == Err::<StoreView, LedgerError>(e)
                    &&& final(self)@ == old(self)@
                },
            },
    {
        if order_id >= self.orders.len() {
            return Err(LedgerError::NotFound(Missing::Order(order_id)));
        }
        let ghost s = self@;
        let succeeded = event == PaymentEvent::Succeeded;
        if succeeded && self.orders[order_id].status == OrderStatus::Pending {
            let confirmed = order_with_status(&self.orders[order_id], OrderStatus::Confirmed);
            self.orders.set(order_id, confirmed);
        }
        let state = if succeeded { PaymentState::Completed } else { PaymentState::Failed };
        let mut payments: Vec<Payment> = Vec::new();
        let mut i: usize = 0;
        while i < self.payments.len()
            invariant
                i <= self.payments.len(),
                self.payments@ == s.payments,
                payments@ =~= Seq::new(
                    i as nat,
                    |k: int| if s.payments[k].order_id == order_id {
                        Payment { status: state, ..s.payments[k] }
                    } else {
                        s.payments[k]
                    },
                ),
            decreases self.payments.len() - i,
        {
            let p = &self.payments[i];
            let q = if p.order_id == order_id {
                payment_with_status(p, state)
            } else {
                payment_with_status(p, p.status)
            };
            payments.push(q);
            i += 1;
        }
        self.payments = payments;
        proof {
            let want = event_spec(s, order_id, event)->Ok_0;
            assert(self@.orders =~= want.orders);
            assert(self@.payments =~= want.payments);
        }
        Ok(())
    }
}

} // verus!
