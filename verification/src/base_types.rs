//! Numeric and identifier types shared by the messages and the bridge.

use crate::error::FastPayError;
use vstd::prelude::*;

verus! {

/// A non-negative quantity of coins.
#[derive(Clone, Copy, Debug, PartialEq, Eq, PartialOrd, Ord, Hash, Structural)]
pub struct Amount(pub u64);

/// The position of a request among those of one account.
#[derive(Clone, Copy, Debug, PartialEq, Eq, PartialOrd, Ord, Hash, Structural)]
pub struct SequenceNumber(pub u64);

/// The number of transactions that the bridge has committed to its log.
#[derive(Clone, Copy, Debug, PartialEq, Eq, PartialOrd, Ord, Hash, Structural)]
pub struct VersionNumber(pub u64);

/// The identity of a FastPay account.
#[derive(Clone, Copy, Debug, PartialEq, Eq, PartialOrd, Ord, Hash, Structural)]
pub struct AccountId(pub u64);

/// The identity of an account on Primary.
#[derive(Clone, Copy, Debug, PartialEq, Eq, PartialOrd, Ord, Hash, Structural)]
pub struct PrimaryAddress(pub u64);

/// The identity of whoever may sign requests for a FastPay account.
#[derive(Clone, Copy, Debug, PartialEq, Eq, PartialOrd, Ord, Hash, Structural)]
pub struct AccountOwner(pub u64);

impl View for Amount {
    type V = nat;

    open spec fn view(&self) -> nat {
        self.0 as nat
    }
}

impl View for SequenceNumber {
    type V = nat;

    open spec fn view(&self) -> nat {
        self.0 as nat
    }
}

impl View for VersionNumber {
    type V = nat;

    open spec fn view(&self) -> nat {
        self.0 as nat
    }
}

impl Amount {
    /// The empty amount, which no amount is below.
    pub fn zero() -> (amount: Amount)
        ensures
            amount@ == 0,
    {
        Amount(0)
    }

    /// The sum of two amounts, unless it exceeds what an amount can hold.
    pub fn try_add(self, other: Amount) -> (sum: Result<Amount, FastPayError>)
        ensures
            self@ + other@ <= u64::MAX ==> sum is Ok && sum->Ok_0@ == self@ + other@,
            self@ + other@ > u64::MAX ==> sum == Err::<Amount, FastPayError>(
                FastPayError::BalanceOverflow,
            ),
    {
        match self.0.checked_add(other.0) {
            Some(total) => Ok(Amount(total)),
            None => Err(FastPayError::BalanceOverflow),
        }
    }

    /// What is left of this amount once `other` is taken from it, unless
    /// `other` is the larger one.
    pub fn try_sub(self, other: Amount) -> (difference: Result<Amount, FastPayError>)
        ensures
            other@ <= self@ ==> difference is Ok && difference->Ok_0@ == self@ - other@,
            other@ > self@ ==> difference == Err::<Amount, FastPayError>(
                FastPayError::BalanceUnderflow,
            ),
    {
        match self.0.checked_sub(other.0) {
            Some(rest) => Ok(Amount(rest)),
            None => Err(FastPayError::BalanceUnderflow),
        }
    }
}

impl VersionNumber {
    /// The version of a bridge that has committed nothing.
    pub fn new() -> (version: VersionNumber)
        ensures
            version@ == 0,
    {
        VersionNumber(0)
    }

    /// The version that follows this one, unless this is the last one.
    pub fn increment(self) -> (next: Result<VersionNumber, FastPayError>)
        ensures
            self@ < u64::MAX ==> next is Ok && next->Ok_0@ == self@ + 1,
            self@ >= u64::MAX ==> next == Err::<VersionNumber, FastPayError>(
                FastPayError::IndexOverflow,
            ),
    {
        match self.0.checked_add(1) {
            Some(following) => Ok(VersionNumber(following)),
            None => Err(FastPayError::IndexOverflow),
        }
    }
}

} // verus!
