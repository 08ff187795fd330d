//! A mathematical model of the bridge.
//!
//! A [`Ledger`] is what the bridge knows at one moment. The two transitions
//! are functions from a ledger and a transaction to the next ledger, or to
//! the reason for which the transaction is rejected. A rejected transaction
//! changes nothing.

use crate::base_types::{AccountId, SequenceNumber};
use crate::error::FastPayError;
use crate::fastpay_smart_contract::{AccountState, FundingTransaction, RedeemTransaction};
use vstd::prelude::*;

verus! {

/// What the bridge knows at one moment.
#[verifier::ext_equal]
pub struct Ledger {
    /// The replay guard of every account that has redeemed.
    pub accounts: Map<AccountId, AccountState>,
    /// The coins that the bridge holds.
    pub total_balance: int,
    /// The number of deposits committed to the log.
    pub last_transaction_index: nat,
    /// The deposits, oldest first.
    pub blockchain: Seq<FundingTransaction>,
}

/// One transaction as the sequencer delivers it to the bridge.
pub enum Event {
    /// A deposit made on Primary.
    Funding(FundingTransaction),
    /// A withdrawal to Primary, with the committee's answer on its
    /// certificate.
    Redeem { transaction: RedeemTransaction, endorsed: bool },
}

/// Whether a request with the sequence number `next` may follow `last`, the
/// last one that its account has redeemed: it must be a later one.
pub open spec fn admits(last: Option<SequenceNumber>, next: SequenceNumber) -> bool {
    match last {
        None => true,
        Some(previous) => previous@ < next@,
    }
}

/// Whether the replay guard `later` is at or after the replay guard
/// `earlier`.
pub open spec fn not_before(earlier: Option<SequenceNumber>, later: Option<SequenceNumber>) -> bool {
    match earlier {
        None => true,
        Some(previous) => later matches Some(following) && previous@ <= following@,
    }
}

/// `deposits`, each as the sequencer delivers it.
pub open spec fn fundings(deposits: Seq<FundingTransaction>) -> Seq<Event> {
    Seq::new(deposits.len(), |i: int| Event::Funding(deposits[i]))
}

/// The sum of the coins of `deposits`.
pub open spec fn deposited(deposits: Seq<FundingTransaction>) -> int
    decreases deposits.len(),
{
    if deposits.len() == 0 {
        0
    } else {
        deposited(deposits.drop_last()) + deposits.last().primary_coins@
    }
}

impl Ledger {
    /// The ledger of a bridge that has seen no transaction.
    pub open spec fn fresh() -> Ledger {
        Ledger {
            accounts: Map::empty(),
            total_balance: 0,
            last_transaction_index: 0,
            blockchain: Seq::empty(),
        }
    }

    /// The sequence number of the last request that `account` has redeemed.
    pub open spec fn last_redeemed(self, account: AccountId) -> Option<SequenceNumber> {
        if self.accounts.contains_key(account) {
            self.accounts[account].last_redeemed
        } else {
            None
        }
    }

    /// The ledger after `transaction`, or why the bridge rejects it.
    ///
    /// A deposit must carry coins, and neither the index nor the balance
    /// may leave the range of 64 bits. An accepted deposit is appended to
    /// the log, advances the index by one and adds its coins to the
    /// balance.
    pub open spec fn apply_funding(self, transaction: FundingTransaction) -> Result<
        Ledger,
        FastPayError,
    > {
        if transaction.primary_coins@ == 0 {
            Err(FastPayError::InvalidAmount)
        } else if self.last_transaction_index >= u64::MAX {
            Err(FastPayError::IndexOverflow)
        } else if self.total_balance + transaction.primary_coins@ > u64::MAX {
            Err(FastPayError::BalanceOverflow)
        } else {
            Ok(
                Ledger {
                    total_balance: self.total_balance + transaction.primary_coins@,
                    last_transaction_index: self.last_transaction_index + 1,
                    blockchain: self.blockchain.push(transaction),
                    ..self
                },
            )
        }
    }

    /// The ledger after `transaction`, or why the bridge rejects it, where
    /// `endorsed` is the committee's answer on the certificate.
    ///
    /// The certificate must be endorsed and confirm a request; the request
    /// must come after the last one that its account has redeemed; its
    /// operation must move coins to Primary, and no more of them than the
    /// bridge holds. An accepted withdrawal advances the account's replay
    /// guard to the request and takes the coins from the balance.
    pub open spec fn apply_redeem(self, transaction: RedeemTransaction, endorsed: bool) -> Result<
        Ledger,
        FastPayError,
    > {
        if !endorsed {
            Err(FastPayError::CertificateInvalid)
        } else {
            match transaction.certificate.value.confirmed_request() {
                None => Err(FastPayError::InvalidRedeemTransaction),
                Some(request) => {
                    if !admits(self.last_redeemed(request.account_id), request.sequence_number) {
                        Err(FastPayError::ReplayedOrStaleSequenceNumber)
                    } else {
                        match request.operation.primary_transfer() {
                            None => Err(FastPayError::InvalidRedeemTransaction),
                            Some((_, amount)) => {
                                if self.total_balance < amount@ {
                                    Err(FastPayError::InsufficientBalance)
                                } else {
                                    Ok(
                                        Ledger {
                                            accounts: self.accounts.insert(
                                                request.account_id,
                                                AccountState {
                                                    last_redeemed: Some(request.sequence_number),
                                                },
                                            ),
                                            total_balance: self.total_balance - amount@,
                                            ..self
                                        },
                                    )
                                }
                            },
                        }
                    }
                },
            }
        }
    }

    /// The ledger after `event`, or why the bridge rejects it.
    pub open spec fn apply(self, event: Event) -> Result<Ledger, FastPayError> {
        match event {
            Event::Funding(transaction) => self.apply_funding(transaction),
            Event::Redeem { transaction, endorsed } => self.apply_redeem(transaction, endorsed),
        }
    }

    /// The ledger after `event`: the one it leads to where the bridge
    /// accepts it, and this one where not.
    pub open spec fn step(self, event: Event) -> Ledger {
        match self.apply(event) {
            Ok(next) => next,
            Err(_) => self,
        }
    }

    /// The ledger after `events`, delivered in order.
    pub open spec fn run(self, events: Seq<Event>) -> Ledger
        decreases events.len(),
    {
        if events.len() == 0 {
            self
        } else {
            self.run(events.drop_last()).step(events.last())
        }
    }

    /// What the bridge answers to each of `events`, delivered in order.
    pub open spec fn outcomes(self, events: Seq<Event>) -> Seq<Result<(), FastPayError>> {
        Seq::new(
            events.len(),
            |i: int|
                match self.run(events.take(i)).apply(events[i]) {
                    Ok(_) => Ok(()),
                    Err(error) => Err(error),
                },
        )
    }

    /// The coins that `event` brings to the bridge: those of a deposit that
    /// the bridge accepts, less those of a withdrawal that it accepts, and
    /// none where it rejects the event.
    pub open spec fn inflow(self, event: Event) -> int {
        if self.apply(event) is Err {
            0
        } else {
            match event {
                Event::Funding(transaction) => transaction.primary_coins@ as int,
                Event::Redeem { transaction, .. } => match transaction.primary_transfer() {
                    Some((_, amount)) => -(amount@ as int),
                    None => 0,
                },
            }
        }
    }

    /// The coins that `events`, delivered in order, bring to the bridge.
    pub open spec fn net_inflow(self, events: Seq<Event>) -> int
        decreases events.len(),
    {
        if events.len() == 0 {
            0
        } else {
            self.net_inflow(events.drop_last()) + self.run(events.drop_last()).inflow(
                events.last(),
            )
        }
    }

    /// What holds of every ledger that a fresh bridge can reach: the balance
    /// is not negative and not above what the log has deposited, and the
    /// index counts the entries of the log.
    pub open spec fn well_formed(self) -> bool {
        &&& 0 <= self.total_balance <= deposited(self.blockchain)
        &&& self.blockchain.len() == self.last_transaction_index
    }
}

} // verus!
