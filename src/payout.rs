//! The vendor payout service: debits a vendor's wallet against a payout
//! request and records the pending payout.

use vstd::prelude::*;
use crate::error::{Invalid, LedgerError, Missing};
use crate::ledger::{
    bank_account_index, profile_index, PaymentKind, PaymentState, Profile, Store, StoreView, VendorPayment,
};

verus! {

/// The smallest payout, in cents.
pub const MIN_PAYOUT: u64 = 100;

/// A payout request of vendor `vendor_id`: the account must be an admitted
/// vendor, the amount at least the minimum and at most the wallet balance,
/// and the bank account the vendor's own. On success the wallet is debited
/// and a pending payout entry written.
pub open spec fn payout_spec(
    s: StoreView,
    vendor_id: i32,
    amount: u64,
    bank_account_id: i32,
    notes: Option<String>,
    now: i64,
) -> Result<StoreView, LedgerError> {
    match profile_index(s.profiles, vendor_id) {
        None => Err(LedgerError::NotFound(Missing::Profile(vendor_id))),
        Some(pi) => {
            let vendor = s.profiles[pi];
            if !(vendor.is_vendor && vendor.vendor_admission) {
                Err(LedgerError::Forbidden)
            } else if amount < MIN_PAYOUT {
                Err(LedgerError::Validation(Invalid::PayoutTooSmall))
            } else if vendor.wallet_balance < amount {
                Err(LedgerError::Validation(Invalid::InsufficientBalance))
            } else {
                match bank_account_index(s.bank_accounts, bank_account_id) {
                    None => Err(LedgerError::NotFound(Missing::BankAccount(bank_account_id))),
                    Some(bi) => if s.bank_accounts[bi].profile_id != vendor_id {
                        Err(LedgerError::Forbidden)
                    } else {
                        Ok(StoreView {
                            profiles: s.profiles.update(
                                pi,
                                Profile { wallet_balance: (vendor.wallet_balance - amount) as u64, ..vendor },
                            ),
                            vendor_payments: s.vendor_payments.push(
                                VendorPayment {
                                    id: s.vendor_payments.len() as usize,
                                    vendor_id,
                                    order_supplier_id: None,
                                    amount,
                                    payment_type: PaymentKind::Payout,
                                    status: PaymentState::Pending,
                                    notes,
                                    created_at: now,
                                },
                            ),
                            ..s
                        })
                    },
                }
            }
        },
    }
}

impl Store {
    /// Requests a payout for a vendor; returns the position of the payout
    /// entry. On error nothing is written.
    pub fn request_payout_at(
        &mut self,
        vendor_id: i32,
        amount: u64,
        bank_account_id: i32,
        notes: Option<String>,
        now: i64,
    ) -> (r: Result<usize, LedgerError>)
        requires
            old(self)@.wf(),
        ensures
            final(self)@.wf(),
            match r {
                Ok(id) => {
                    &&& id == old(self)@.vendor_payments.len()
                    &&& payout_spec(old(self)@, vendor_id, amount, bank_account_id, notes, now)
                        == Ok::<StoreView, LedgerError>(final(self)@)
                },
                Err(e) => {
                    &&& payout_spec(old(self)@, vendor_id, amount, bank_account_id, notes, now)
                        == Err::<StoreView, LedgerError>(e)
                    &&& final(self)@ == old(self)@
                },
            },
    {
        let pi = match self.find_profile(vendor_id) {
            None => {
                return Err(LedgerError::NotFound(Missing::Profile(vendor_id)));
            },
            Some(pi) => pi,
        };
        let mut vendor = self.profiles[pi];
        if !(vendor.is_vendor && vendor.vendor_admission) {
            return Err(LedgerError::Forbidden);
        }
        if amount < MIN_PAYOUT {
            return Err(LedgerError::Validation(Invalid::PayoutTooSmall));
        }
        if vendor.wallet_balance < amount {
            return Err(LedgerError::Validation(Invalid::InsufficientBalance));
        }
        let bi = match self.find_bank_account(bank_account_id) {
            None => {
                return Err(LedgerError::NotFound(Missing::BankAccount(bank_account_id)));
            },
            Some(bi) => bi,
        };
        if self.bank_accounts[bi].profile_id != vendor_id {
            return Err(LedgerError::Forbidden);
        }
        vendor.wallet_balance = vendor.wallet_balance - amount;
        self.profiles.set(pi, vendor);
        let id = self.vendor_payments.len();
        let entry = VendorPayment {
            id,
            vendor_id,
            order_supplier_id: None,
            amount,
            payment_type: PaymentKind::Payout,
            status: PaymentState::Pending,
            notes,
            created_at: now,
        };
        self.vendor_payments.push(entry);
        proof {
            let want = payout_spec(old(self)@, vendor_id, amount, bank_account_id, notes, now)->Ok_0;
            assert(self@.profiles =~= want.profiles);
            assert(self@.vendor_payments =~= want.vendor_payments);
        }
        Ok(id)
    }
}

/// A payout of more than the wallet holds fails with a validation error and
/// writes nothing; a payout that succeeds leaves a balance of at least zero
/// that is exactly the old balance less the amount.
pub proof fn payout_never_overdraws(
    s: StoreView,
    vendor_id: i32,
    amount: u64,
    bank_account_id: i32,
    notes: Option<String>,
    now: i64,
)
    requires
        profile_index(s.profiles, vendor_id) matches Some(pi) && s.profiles[pi].is_vendor
            && s.profiles[pi].vendor_admission,
        amount >= MIN_PAYOUT,
    ensures
        ({
            let pi = profile_index(s.profiles, vendor_id)->Some_0;
            let r = payout_spec(s, vendor_id, amount, bank_account_id, notes, now);
            &&& amount > s.profiles[pi].wallet_balance ==> r == Err::<StoreView, LedgerError>(
                LedgerError::Validation(Invalid::InsufficientBalance),
            )
            &&& r matches Ok(t) ==> t.profiles[pi].wallet_balance == s.profiles[pi].wallet_balance - amount
            &&& r matches Ok(t) ==> t.vendor_payments.len() == s.vendor_payments.len() + 1
        }),
{
}

} // verus!
