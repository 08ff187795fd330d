//! The FastPay smart contract on Primary: the bridge itself.

use crate::base_types::{AccountId, Amount, PrimaryAddress, SequenceNumber, VersionNumber};
use crate::committee::Committee;
use crate::error::FastPayError;
use crate::ledger::{admits, Event, Ledger};
use crate::messages::Certificate;
use crate::theorems::theorem_step_preserves_well_formed;
use std::collections::BTreeMap;
use vstd::prelude::*;

verus! {

/// A deposit made on Primary in favour of a FastPay account.
#[derive(Clone, Copy, Debug, PartialEq, Eq, Structural)]
pub struct FundingTransaction {
    pub recipient: AccountId,
    pub primary_coins: Amount,
}

/// A withdrawal to Primary, authorised by a certificate of the committee.
#[derive(Clone, Debug, PartialEq, Eq)]
pub struct RedeemTransaction {
    pub certificate: Certificate,
}

/// The replay guard of one account.
#[derive(Clone, Copy, Debug, PartialEq, Eq, Hash, Structural)]
pub struct AccountState {
    /// The sequence number of the last request that the account has
    /// redeemed. A request is redeemed only if it comes after this one, so
    /// none is redeemed twice.
    pub last_redeemed: Option<SequenceNumber>,
}

/// The bridge: what the FastPay smart contract holds on Primary.
///
/// It changes only through [`FastPaySmartContract`] and
/// [`FastPaySmartContractState::redeem_with_verdict`]; everything else
/// reads it.
#[derive(Clone, Debug, PartialEq, Eq)]
pub struct FastPaySmartContractState<C> {
    /// The committee of this FastPay instance.
    committee: C,
    /// The replay guard of every account that has redeemed, by the
    /// account's number.
    accounts: BTreeMap<u64, AccountState>,
    /// The coins that the bridge holds.
    total_balance: Amount,
    /// The number of deposits committed to the log.
    last_transaction_index: VersionNumber,
    /// The deposits, oldest first.
    blockchain: Vec<FundingTransaction>,
}

/// The two ways in which a transaction changes the bridge.
///
/// Each method either applies its transaction as [`Ledger`] describes or
/// rejects it and leaves the bridge as it was.
pub trait FastPaySmartContract: View<V = Ledger> + Sized {
    /// Initiates a transfer from Primary to FastPay.
    ///
    /// The deposit is applied, or rejected for the reason given, exactly as
    /// [`Ledger::apply_funding`] says.
    fn handle_funding_transaction(&mut self, transaction: FundingTransaction) -> (outcome: Result<
        (),
        FastPayError,
    >)
        ensures
            match old(self)@.apply_funding(transaction) {
                Ok(next) => outcome is Ok && final(self)@ == next,
                Err(error) => outcome == Err::<(), FastPayError>(error) && final(self)@ == old(
                    self,
                )@,
            },
            old(self)@.well_formed() ==> final(self)@.well_formed(),
    ;

    /// Finalizes a transfer from FastPay to Primary.
    ///
    /// The committee is asked about the certificate. Either it does not
    /// endorse it, and the transaction is rejected for that reason, or the
    /// withdrawal is applied, or rejected for the reason given, exactly as
    /// [`Ledger::apply_redeem`] says of an endorsed certificate.
    fn handle_redeem_transaction(&mut self, transaction: RedeemTransaction) -> (outcome: Result<
        (),
        FastPayError,
    >)
        ensures
            (outcome == Err::<(), FastPayError>(FastPayError::CertificateInvalid) && final(self)@
                == old(self)@) || match old(self)@.apply_redeem(transaction, true) {
                Ok(next) => outcome is Ok && final(self)@ == next,
                Err(error) => outcome == Err::<(), FastPayError>(error) && final(self)@ == old(
                    self,
                )@,
            },
            old(self)@.well_formed() ==> final(self)@.well_formed(),
    ;
}

impl<C> View for FastPaySmartContractState<C> {
    type V = Ledger;

    closed spec fn view(&self) -> Ledger {
        Ledger {
            accounts: Map::new(
                |account: AccountId| self.accounts@.contains_key(account.0),
                |account: AccountId| self.accounts@[account.0],
            ),
            total_balance: self.total_balance@ as int,
            last_transaction_index: self.last_transaction_index@,
            blockchain: self.blockchain@,
        }
    }
}

impl<C> FastPaySmartContractState<C> {
    /// The committee that judges the certificates of this bridge.
    pub closed spec fn spec_committee(&self) -> C {
        self.committee
    }

    /// A bridge that has seen no transaction, under `committee`.
    pub fn new(committee: C) -> (state: Self)
        ensures
            state@ == Ledger::fresh(),
            state@.well_formed(),
            state.spec_committee() == committee,
    {
        let state = FastPaySmartContractState {
            committee,
            total_balance: Amount::zero(),
            last_transaction_index: VersionNumber::new(),
            blockchain: Vec::new(),
            accounts: BTreeMap::new(),
        };
        assert(state@ =~= Ledger::fresh());
        state
    }

    /// The committee that judges the certificates of this bridge.
    pub fn committee(&self) -> (committee: &C)
        ensures
            *committee == self.spec_committee(),
    {
        &self.committee
    }

    /// The coins that the bridge holds.
    pub fn total_balance(&self) -> (balance: Amount)
        ensures
            balance@ == self@.total_balance,
    {
        self.total_balance
    }

    /// The number of deposits committed to the log.
    pub fn last_transaction_index(&self) -> (index: VersionNumber)
        ensures
            index@ == self@.last_transaction_index,
    {
        self.last_transaction_index
    }

    /// The deposits committed so far, oldest first.
    pub fn blockchain(&self) -> (log: &Vec<FundingTransaction>)
        ensures
            log@ == self@.blockchain,
    {
        &self.blockchain
    }

    /// The replay guard of `account`, if the account has redeemed.
    pub fn account(&self, account: AccountId) -> (state: Option<AccountState>)
        ensures
            state == if self@.accounts.contains_key(account) {
                Some(self@.accounts[account])
            } else {
                None
            },
    {
        match self.accounts.get(&account.0) {
            Some(state) => Some(*state),
            None => None,
        }
    }
}

impl<C> FastPaySmartContractState<C> {
    /// Applies a withdrawal on whose certificate the committee has answered
    /// `endorsed`.
    ///
    /// The withdrawal is applied, or rejected for the reason given, exactly
    /// as [`Ledger::apply_redeem`] says. Every condition is tested before
    /// anything is written, so a rejected withdrawal uses up no sequence
    /// number.
    pub fn redeem_with_verdict(&mut self, transaction: &RedeemTransaction, endorsed: bool) -> (outcome:
        Result<(), FastPayError>)
        ensures
            match old(self)@.apply_redeem(*transaction, endorsed) {
                Ok(next) => outcome is Ok && final(self)@ == next,
                Err(error) => outcome == Err::<(), FastPayError>(error) && final(self)@ == old(
                    self,
                )@,
            },
            old(self)@.well_formed() ==> final(self)@.well_formed(),
            final(self).spec_committee() == old(self).spec_committee(),
    {
        if !endorsed {
            return Err(FastPayError::CertificateInvalid);
        }
        let request = match transaction.certificate.value.confirmed_request() {
            Some(request) => request,
            None => {
                return Err(FastPayError::InvalidRedeemTransaction);
            },
        };
        let account = match self.accounts.get(&request.account_id.0) {
            Some(account) => *account,
            None => AccountState::new(),
        };
        if !account.admits(request.sequence_number) {
            return Err(FastPayError::ReplayedOrStaleSequenceNumber);
        }
        let amount = match request.operation.primary_transfer() {
            Some((_, amount)) => amount,
            None => {
                return Err(FastPayError::InvalidRedeemTransaction);
            },
        };
        if self.total_balance.0 < amount.0 {
            return Err(FastPayError::InsufficientBalance);
        }
        let balance = self.total_balance.try_sub(amount)?;
        self.accounts.insert(
            request.account_id.0,
            AccountState { last_redeemed: Some(request.sequence_number) },
        );
        self.total_balance = balance;
        proof {
            let event = Event::Redeem { transaction: *transaction, endorsed };
            assert(self@ =~= old(self)@.step(event));
            if old(self)@.well_formed() {
                theorem_step_preserves_well_formed(old(self)@, event);
            }
        }
        Ok(())
    }
}

impl<C: Committee> FastPaySmartContract for FastPaySmartContractState<C> {
    fn handle_funding_transaction(&mut self, transaction: FundingTransaction) -> (outcome: Result<
        (),
        FastPayError,
    >)
        ensures
            final(self).spec_committee() == old(self).spec_committee(),
    {
        let amount = transaction.primary_coins;
        if amount.0 == Amount::zero().0 {
            return Err(FastPayError::InvalidAmount);
        }
        let index = self.last_transaction_index.increment()?;
        let balance = self.total_balance.try_add(amount)?;
        self.last_transaction_index = index;
        self.blockchain.push(transaction);
        self.total_balance = balance;
        proof {
            let event = Event::Funding(transaction);
            assert(self@ =~= old(self)@.step(event));
            if old(self)@.well_formed() {
                theorem_step_preserves_well_formed(old(self)@, event);
            }
        }
        Ok(())
    }

    fn handle_redeem_transaction(&mut self, transaction: RedeemTransaction) -> (outcome: Result<
        (),
        FastPayError,
    >)
        ensures
            final(self).spec_committee() == old(self).spec_committee(),
            (call_ensures(
                C::endorses,
                (&old(self).spec_committee(), &transaction.certificate),
                false,
            ) && final(self)@ == old(self)@ && outcome == Err::<(), FastPayError>(
                FastPayError::CertificateInvalid,
            )) || (call_ensures(
                C::endorses,
                (&old(self).spec_committee(), &transaction.certificate),
                true,
            ) && match old(self)@.apply_redeem(transaction, true) {
                Ok(next) => outcome is Ok && final(self)@ == next,
                Err(error) => outcome == Err::<(), FastPayError>(error) && final(self)@ == old(
                    self,
                )@,
            }),
    {
        let verdict = transaction.certificate.check(&self.committee);
        self.redeem_with_verdict(&transaction, verdict.is_ok())
    }
}

impl RedeemTransaction {
    /// The withdrawal that `certificate` authorises.
    pub fn new(certificate: Certificate) -> (transaction: RedeemTransaction)
        ensures
            transaction.certificate == certificate,
    {
        Self { certificate }
    }

    /// The recipient on Primary and the amount that the withdrawal asks
    /// for; `None` where the certificate confirms no request, or one that
    /// moves nothing to Primary.
    pub open spec fn spec_primary_transfer(&self) -> Option<(PrimaryAddress, Amount)> {
        match self.certificate.value.confirmed_request() {
            Some(request) => request.operation.primary_transfer(),
            None => None,
        }
    }

    /// The recipient on Primary and the amount that the withdrawal asks
    /// for; `None` where the certificate confirms no request, or one that
    /// moves nothing to Primary.
    ///
    /// Once the bridge has accepted the withdrawal, this is the payment
    /// that is due on Primary.
    #[verifier::when_used_as_spec(spec_primary_transfer)]
    pub fn primary_transfer(&self) -> (transfer: Option<(PrimaryAddress, Amount)>)
        ensures
            transfer == self.spec_primary_transfer(),
    {
        match self.certificate.value.confirmed_request() {
            Some(request) => request.operation.primary_transfer(),
            None => None,
        }
    }
}

impl AccountState {
    /// The guard of an account that has redeemed nothing.
    pub fn new() -> (state: AccountState)
        ensures
            state.last_redeemed is None,
    {
        Self { last_redeemed: None }
    }

    /// Whether the account may redeem a request with the sequence number
    /// `next`: only one that comes after the last one it has redeemed.
    pub fn admits(&self, next: SequenceNumber) -> (admitted: bool)
        ensures
            admitted == admits(self.last_redeemed, next),
    {
        match self.last_redeemed {
            None => true,
            Some(previous) => previous.0 < next.0,
        }
    }
}

} // verus!
