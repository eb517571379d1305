//! The field rules that the API's request shapes declare.

use vstd::prelude::*;
use crate::dto::common::{ContactRequest, NewsletterRequest};
use crate::dto::order::CreateOrderRequest;

verus! {

/// Whether `validator` accepts a text as an email address.
pub uninterp spec fn email_valid(s: Seq<char>) -> bool;

/// Relies on `validator::validate_email`: its verdict depends on the text
/// alone, and it refuses a text without `@`.
#[verifier::external_body]
fn check_email(s: &str) -> (r: bool)
    ensures
        r == email_valid(s@),
        r ==> exists|i: int| 0 <= i < s@.len() && s@[i] == '@',
{
    validator::validate_email(s)
}

/// A field of a request that breaks its rule.
#[derive(Clone, Copy, Debug, PartialEq, Eq, Structural)]
pub enum Field {
    ShippingAddress,
    Phone,
    Email,
    Name,
    Subject,
    Message,
}

pub open spec fn failing(broken: bool, f: Field) -> Seq<Field> {
    if broken { seq![f] } else { Seq::empty() }
}

fn push_if(v: &mut Vec<Field>, broken: bool, f: Field)
    ensures
        final(v)@ == old(v)@ + failing(broken, f),
{
    if broken {
        v.push(f);
    }
    proof {
        assert(final(v)@ =~= old(v)@ + failing(broken, f));
    }
}

/// The fields that break their rules, in declaration order, if any.
pub open spec fn verdict(fields: Seq<Field>) -> Result<(), Seq<Field>> {
    if fields.len() == 0 { Ok(()) } else { Err(fields) }
}

fn finish(v: Vec<Field>) -> (r: Result<(), Vec<Field>>)
    ensures
        match r {
            Ok(()) => verdict(v@) == Ok::<(), Seq<Field>>(()),
            Err(f) => verdict(v@) == Err::<(), Seq<Field>>(f@),
        },
{
    if v.len() == 0 { Ok(()) } else { Err(v) }
}

impl CreateOrderRequest {
    /// A shipping address of at least ten characters, a phone number of at
    /// least five, and an email address.
    pub fn validate(&self) -> (r: Result<(), Vec<Field>>)
        ensures
            ({
                let fields = failing(self.shipping_address@.len() < 10, Field::ShippingAddress)
                    + failing(self.phone@.len() < 5, Field::Phone)
                    + failing(!email_valid(self.email@), Field::Email);
                match r {
                    Ok(()) => verdict(fields) == Ok::<(), Seq<Field>>(()),
                    Err(f) => verdict(fields) == Err::<(), Seq<Field>>(f@),
                }
            }),
    {
        let mut v: Vec<Field> = Vec::new();
        push_if(&mut v, self.shipping_address.as_str().unicode_len() < 10, Field::ShippingAddress);
        push_if(&mut v, self.phone.as_str().unicode_len() < 5, Field::Phone);
        push_if(&mut v, !check_email(self.email.as_str()), Field::Email);
        proof {
            assert(v@ =~= Seq::<Field>::empty() + failing(self.shipping_address@.len() < 10, Field::ShippingAddress)
                + failing(self.phone@.len() < 5, Field::Phone) + failing(!email_valid(self.email@), Field::Email));
            assert(Seq::<Field>::empty() + failing(self.shipping_address@.len() < 10, Field::ShippingAddress)
                =~= failing(self.shipping_address@.len() < 10, Field::ShippingAddress));
        }
        finish(v)
    }
}

impl ContactRequest {
    /// A name and a subject, a message of at least ten characters, and an
    /// email address.
    pub fn validate(&self) -> (r: Result<(), Vec<Field>>)
        ensures
            ({
                let fields = failing(self.name@.len() < 1, Field::Name) + failing(!email_valid(self.email@), Field::Email)
                    + failing(self.subject@.len() < 1, Field::Subject) + failing(self.message@.len() < 10, Field::Message);
                match r {
                    Ok(()) => verdict(fields) == Ok::<(), Seq<Field>>(()),
                    Err(f) => verdict(fields) == Err::<(), Seq<Field>>(f@),
                }
            }),
    {
        let mut v: Vec<Field> = Vec::new();
        push_if(&mut v, self.name.as_str().unicode_len() < 1, Field::Name);
        push_if(&mut v, !check_email(self.email.as_str()), Field::Email);
        push_if(&mut v, self.subject.as_str().unicode_len() < 1, Field::Subject);
        push_if(&mut v, self.message.as_str().unicode_len() < 10, Field::Message);
        proof {
            assert(Seq::<Field>::empty() + failing(self.name@.len() < 1, Field::Name) =~= failing(self.name@.len() < 1, Field::Name));
        }
        finish(v)
    }
}

impl NewsletterRequest {
    /// An email address.
    pub fn validate(&self) -> (r: Result<(), Vec<Field>>)
        ensures
            match r {
                Ok(()) => email_valid(self.email@),
                Err(f) => !email_valid(self.email@) && f@ == seq![Field::Email],
            },
    {
        if check_email(self.email.as_str()) {
            Ok(())
        } else {
            let mut v: Vec<Field> = Vec::new();
            v.push(Field::Email);
            Err(v)
        }
    }
}

} // verus!
