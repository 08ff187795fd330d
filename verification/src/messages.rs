//! What account owners ask for and what the committee certifies.

use crate::base_types::{AccountId, AccountOwner, Amount, PrimaryAddress, SequenceNumber};
use vstd::prelude::*;

verus! {

/// Where a transfer goes.
#[derive(Clone, Copy, Debug, PartialEq, Eq, Hash, Structural)]
pub enum Address {
    /// An account on Primary: the coins leave FastPay.
    Primary(PrimaryAddress),
    /// Another FastPay account: the coins stay inside FastPay.
    FastPay(AccountId),
}

/// What a request does to the account that issues it.
#[derive(Clone, Copy, Debug, PartialEq, Eq, Hash, Structural)]
pub enum Operation {
    /// Moves `amount` out of the account to `recipient`.
    Transfer { recipient: Address, amount: Amount },
    /// Spends the account's coins and moves `amount` of them to `recipient`.
    SpendAndTransfer { recipient: Address, amount: Amount },
    /// Opens the account `new_id` for `new_owner`.
    OpenAccount { new_id: AccountId, new_owner: AccountOwner },
    /// Closes the account.
    CloseAccount,
    /// Spends the whole `account_balance`.
    Spend { account_balance: Amount },
    /// Hands the account over to `new_owner`.
    ChangeOwner { new_owner: AccountOwner },
}

/// One operation of one account, at one position among that account's
/// requests.
#[derive(Clone, Copy, Debug, PartialEq, Eq, Hash, Structural)]
pub struct Request {
    pub account_id: AccountId,
    pub operation: Operation,
    pub sequence_number: SequenceNumber,
}

/// What a certificate vouches for.
#[derive(Clone, Copy, Debug, PartialEq, Eq, Hash, Structural)]
pub enum Value {
    /// The request is locked: no other request may take its sequence number.
    Lock(Request),
    /// The request is confirmed: its operation has taken effect in FastPay.
    Confirm(Request),
}

/// The identity of a member of the committee.
#[derive(Clone, Copy, Debug, PartialEq, Eq, PartialOrd, Ord, Hash, Structural)]
pub struct AuthorityName(pub u64);

/// The signature of one committee member on a value.
#[derive(Clone, Debug, PartialEq, Eq, Hash)]
pub struct Signature(pub Vec<u8>);

/// A value together with the signatures of the committee members that
/// endorse it.
///
/// Whether the signatures make a quorum is for the committee to say: see
/// [`crate::committee::Committee`].
#[derive(Clone, Debug, PartialEq, Eq)]
pub struct Certificate {
    pub value: Value,
    pub signatures: Vec<(AuthorityName, Signature)>,
}

impl Operation {
    /// The recipient on Primary and the amount, where the operation moves
    /// coins out of FastPay; `None` for every other operation.
    pub open spec fn spec_primary_transfer(&self) -> Option<(PrimaryAddress, Amount)> {
        match *self {
            Operation::Transfer { recipient: Address::Primary(recipient), amount } => Some(
                (recipient, amount),
            ),
            Operation::SpendAndTransfer { recipient: Address::Primary(recipient), amount } => Some(
                (recipient, amount),
            ),
            _ => None,
        }
    }

    /// The recipient on Primary and the amount, where the operation moves
    /// coins out of FastPay; `None` for every other operation.
    #[verifier::when_used_as_spec(spec_primary_transfer)]
    pub fn primary_transfer(&self) -> (transfer: Option<(PrimaryAddress, Amount)>)
        ensures
            transfer == self.spec_primary_transfer(),
    {
        match self {
            Operation::Transfer { recipient: Address::Primary(recipient), amount } => Some(
                (*recipient, *amount),
            ),
            Operation::SpendAndTransfer { recipient: Address::Primary(recipient), amount } => Some(
                (*recipient, *amount),
            ),
            Operation::Transfer { .. }
            | Operation::SpendAndTransfer { .. }
            | Operation::OpenAccount { .. }
            | Operation::CloseAccount
            | Operation::Spend { .. }
            | Operation::ChangeOwner { .. } => None,
        }
    }
}

impl Value {
    /// The request that the value confirms, if it confirms one.
    pub open spec fn spec_confirmed_request(&self) -> Option<Request> {
        match *self {
            Value::Confirm(request) => Some(request),
            Value::Lock(_) => None,
        }
    }

    /// The request that the value confirms, if it confirms one.
    #[verifier::when_used_as_spec(spec_confirmed_request)]
    pub fn confirmed_request(&self) -> (request: Option<Request>)
        ensures
            request == self.spec_confirmed_request(),
    {
        match self {
            Value::Confirm(request) => Some(*request),
            Value::Lock(_) => None,
        }
    }
}

} // verus!
