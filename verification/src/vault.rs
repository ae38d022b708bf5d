//! The custodial balance that backs one channel.

use vstd::prelude::*;
use crate::error::ErrorCode;
use crate::identity::Address;

verus! {

/// An outbound transfer from a vault: `amount` is owed to `recipient`.
#[derive(Clone, Copy, Debug, PartialEq, Eq)]
pub struct Payout {
    pub recipient: Address,
    pub amount: u64,
}

/// The funds held in escrow for one channel.
///
/// Anyone may pay in. Funds leave only when the owning channel settles: the
/// balance is private, and the one function that lowers it is not visible
/// outside this library.
#[derive(Clone, Debug, PartialEq, Eq)]
pub struct Vault {
    balance: u64,
}

impl View for Vault {
    type V = nat;

    /// The amount held.
    closed spec fn view(&self) -> nat {
        self.balance as nat
    }
}

impl Vault {
    /// A vault that holds nothing.
    pub fn new() -> (r: Vault)
        ensures
            r@ == 0,
    {
        Vault { balance: 0 }
    }

    /// The amount held.
    pub fn balance(&self) -> (r: u64)
        ensures
            r == self@,
    {
        self.balance
    }

    /// Pays `amount` into the vault, unless the balance would leave the range
    /// of `u64`.
    pub fn deposit(&mut self, amount: u64) -> (r: Result<(), ErrorCode>)
        ensures
            old(self)@ + amount <= u64::MAX ==> r == Ok::<(), ErrorCode>(()) && final(self)@
                == old(self)@ + amount,
            old(self)@ + amount > u64::MAX ==> r == Err::<(), ErrorCode>(
                ErrorCode::ArithmeticOverflow,
            ) && *final(self) == *old(self),
    {
        match self.balance.checked_add(amount) {
            Some(sum) => {
                self.balance = sum;
                Ok(())
            },
            None => Err(ErrorCode::ArithmeticOverflow),
        }
    }

    /// Takes `amount` out of the vault for `recipient`, unless the vault holds
    /// less than that.
    pub(crate) fn payout(&mut self, recipient: Address, amount: u64) -> (r: Result<
        Payout,
        ErrorCode,
    >)
        ensures
            amount <= old(self)@ ==> r == Ok::<Payout, ErrorCode>(Payout { recipient, amount })
                && final(self)@ == old(self)@ - amount,
            amount > old(self)@ ==> r == Err::<Payout, ErrorCode>(ErrorCode::ArithmeticUnderflow)
                && *final(self) == *old(self),
    {
        match self.balance.checked_sub(amount) {
            Some(rest) => {
                self.balance = rest;
                Ok(Payout { recipient, amount })
            },
            None => Err(ErrorCode::ArithmeticUnderflow),
        }
    }
}

} // verus!
