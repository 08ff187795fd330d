use fastpay_core::base_types::{
    AccountId, AccountOwner, Amount, PrimaryAddress, SequenceNumber, VersionNumber,
};
use fastpay_core::committee::Committee;
use fastpay_core::error::FastPayError;
use fastpay_core::fastpay_smart_contract::{
    AccountState, FastPaySmartContract, FastPaySmartContractState, FundingTransaction,
    RedeemTransaction,
};
use fastpay_core::messages::{
    Address, AuthorityName, Certificate, Operation, Request, Signature, Value,
};

/// A committee of `members` authorities that endorses a certificate signed
/// by more than two thirds of them, each at most once.
#[derive(Clone, Debug, PartialEq, Eq)]
struct Quorum {
    members: u64,
}

impl Committee for Quorum {
    fn endorses(&self, certificate: &Certificate) -> bool {
        let mut seen = Vec::new();
        for (name, _) in certificate.signatures.iter() {
            if name.0 >= self.members || seen.contains(name) {
                return false;
            }
            seen.push(*name);
        }
        3 * u64::try_from(seen.len()).unwrap_or(u64::MAX) > 2 * self.members
    }
}

const X: AccountId = AccountId(1);
const Y: AccountId = AccountId(2);

fn bridge() -> FastPaySmartContractState<Quorum> {
    FastPaySmartContractState::new(Quorum { members: 4 })
}

fn fund(recipient: AccountId, coins: u64) -> FundingTransaction {
    FundingTransaction { recipient, primary_coins: Amount(coins) }
}

fn certified(value: Value, signers: u64) -> RedeemTransaction {
    let mut signatures = Vec::new();
    for name in 0..signers {
        signatures.push((AuthorityName(name), Signature(vec![1, 2, 3])));
    }
    RedeemTransaction::new(Certificate { value, signatures })
}

fn withdrawal(account: AccountId, sequence_number: u64, coins: u64) -> Request {
    Request {
        account_id: account,
        operation: Operation::Transfer {
            recipient: Address::Primary(PrimaryAddress(77)),
            amount: Amount(coins),
        },
        sequence_number: SequenceNumber(sequence_number),
    }
}

fn redeem(account: AccountId, sequence_number: u64, coins: u64) -> RedeemTransaction {
    certified(Value::Confirm(withdrawal(account, sequence_number, coins)), 3)
}

fn guard(state: &FastPaySmartContractState<Quorum>, account: AccountId) -> Option<SequenceNumber> {
    match state.account(account) {
        Some(account) => account.last_redeemed,
        None => None,
    }
}

/// A bridge in which account X has been funded with 100.
fn funded() -> FastPaySmartContractState<Quorum> {
    let mut state = bridge();
    assert_eq!(state.handle_funding_transaction(fund(X, 100)), Ok(()));
    state
}

/// A bridge in which X has redeemed 40 of its 100 under sequence number 1.
fn redeemed() -> FastPaySmartContractState<Quorum> {
    let mut state = funded();
    assert_eq!(state.handle_redeem_transaction(redeem(X, 1, 40)), Ok(()));
    state
}

#[test]
fn a_new_bridge_is_empty() {
    let state = bridge();
    assert_eq!(state.total_balance(), Amount(0));
    assert_eq!(state.total_balance(), Amount::zero());
    assert_eq!(state.last_transaction_index(), VersionNumber(0));
    assert!(state.blockchain().is_empty());
    assert_eq!(state.account(X), None);
    assert_eq!(state.committee(), &Quorum { members: 4 });
}

#[test]
fn funding_raises_balance_and_index() {
    let state = funded();
    assert_eq!(state.total_balance(), Amount(100));
    assert_eq!(state.last_transaction_index(), VersionNumber(1));
    assert_eq!(state.blockchain(), &vec![fund(X, 100)]);
    assert_eq!(state.account(X), None);
}

#[test]
fn redeem_lowers_balance_and_advances_guard() {
    let state = redeemed();
    assert_eq!(state.total_balance(), Amount(60));
    assert_eq!(state.account(X), Some(AccountState { last_redeemed: Some(SequenceNumber(1)) }));
    assert_eq!(state.last_transaction_index(), VersionNumber(1));
    assert_eq!(state.blockchain(), &vec![fund(X, 100)]);
}

#[test]
fn repeated_redeem_is_rejected() {
    let mut state = redeemed();
    let before = state.clone();
    assert_eq!(
        state.handle_redeem_transaction(redeem(X, 1, 40)),
        Err(FastPayError::ReplayedOrStaleSequenceNumber)
    );
    assert_eq!(state.total_balance(), Amount(60));
    assert_eq!(state, before);
}

#[test]
fn redeem_beyond_balance_is_rejected_and_keeps_guard() {
    let mut state = redeemed();
    let before = state.clone();
    assert_eq!(
        state.handle_redeem_transaction(redeem(X, 2, 1000)),
        Err(FastPayError::InsufficientBalance)
    );
    assert_eq!(state.total_balance(), Amount(60));
    assert_eq!(guard(&state, X), Some(SequenceNumber(1)));
    assert_eq!(state, before);
}

#[test]
fn empty_funding_is_rejected() {
    let mut state = redeemed();
    let before = state.clone();
    assert_eq!(state.handle_funding_transaction(fund(X, 0)), Err(FastPayError::InvalidAmount));
    assert_eq!(state, before);
    let mut fresh = bridge();
    assert_eq!(fresh.handle_funding_transaction(fund(X, 0)), Err(FastPayError::InvalidAmount));
    assert_eq!(fresh, bridge());
}

#[test]
fn redeem_to_fastpay_recipient_is_rejected() {
    let mut state = redeemed();
    let before = state.clone();
    let inside = Request {
        account_id: X,
        operation: Operation::Transfer { recipient: Address::FastPay(Y), amount: Amount(10) },
        sequence_number: SequenceNumber(2),
    };
    assert_eq!(
        state.handle_redeem_transaction(certified(Value::Confirm(inside), 3)),
        Err(FastPayError::InvalidRedeemTransaction)
    );
    assert_eq!(state, before);
    let spent_inside = Request {
        account_id: X,
        operation: Operation::SpendAndTransfer {
            recipient: Address::FastPay(Y),
            amount: Amount(10),
        },
        sequence_number: SequenceNumber(2),
    };
    assert_eq!(
        state.handle_redeem_transaction(certified(Value::Confirm(spent_inside), 3)),
        Err(FastPayError::InvalidRedeemTransaction)
    );
    assert_eq!(state, before);
}

#[test]
fn a_rejected_redeem_uses_up_no_sequence_number() {
    let mut state = redeemed();
    assert_eq!(
        state.handle_redeem_transaction(redeem(X, 2, 1000)),
        Err(FastPayError::InsufficientBalance)
    );
    assert_eq!(state.handle_redeem_transaction(redeem(X, 2, 60)), Ok(()));
    assert_eq!(state.total_balance(), Amount(0));
    assert_eq!(guard(&state, X), Some(SequenceNumber(2)));
}

#[test]
fn spend_and_transfer_to_primary_is_redeemed() {
    let mut state = funded();
    let request = Request {
        account_id: Y,
        operation: Operation::SpendAndTransfer {
            recipient: Address::Primary(PrimaryAddress(3)),
            amount: Amount(25),
        },
        sequence_number: SequenceNumber(0),
    };
    assert_eq!(state.handle_redeem_transaction(certified(Value::Confirm(request), 4)), Ok(()));
    assert_eq!(state.total_balance(), Amount(75));
    assert_eq!(guard(&state, Y), Some(SequenceNumber(0)));
    assert_eq!(guard(&state, X), None);
}

#[test]
fn operations_that_move_nothing_are_rejected() {
    let operations = vec![
        Operation::OpenAccount { new_id: Y, new_owner: AccountOwner(5) },
        Operation::CloseAccount,
        Operation::Spend { account_balance: Amount(10) },
        Operation::ChangeOwner { new_owner: AccountOwner(5) },
    ];
    for operation in operations {
        let mut state = funded();
        let request = Request { account_id: X, operation, sequence_number: SequenceNumber(1) };
        assert_eq!(
            state.handle_redeem_transaction(certified(Value::Confirm(request), 3)),
            Err(FastPayError::InvalidRedeemTransaction)
        );
        assert_eq!(state, funded());
    }
}

#[test]
fn a_certificate_that_only_locks_is_rejected() {
    let mut state = funded();
    assert_eq!(
        state.handle_redeem_transaction(certified(Value::Lock(withdrawal(X, 1, 40)), 3)),
        Err(FastPayError::InvalidRedeemTransaction)
    );
    assert_eq!(state, funded());
}

#[test]
fn a_certificate_without_quorum_is_rejected() {
    let mut state = funded();
    let short = certified(Value::Confirm(withdrawal(X, 1, 40)), 2);
    assert_eq!(state.handle_redeem_transaction(short), Err(FastPayError::CertificateInvalid));
    assert_eq!(state, funded());
    let mut twice = redeem(X, 1, 40);
    twice.certificate.signatures[2] = twice.certificate.signatures[0].clone();
    assert_eq!(state.handle_redeem_transaction(twice), Err(FastPayError::CertificateInvalid));
    assert_eq!(state, funded());
    assert_eq!(state.handle_redeem_transaction(redeem(X, 1, 40)), Ok(()));
    assert_eq!(state.total_balance(), Amount(60));
}

#[test]
fn the_certificate_is_judged_before_anything_else() {
    let mut state = redeemed();
    let stale_and_short = certified(Value::Confirm(withdrawal(X, 1, 40)), 1);
    assert_eq!(
        state.handle_redeem_transaction(stale_and_short),
        Err(FastPayError::CertificateInvalid)
    );
    let lock_and_short = certified(Value::Lock(withdrawal(X, 1, 40)), 1);
    assert_eq!(
        state.handle_redeem_transaction(lock_and_short),
        Err(FastPayError::CertificateInvalid)
    );
    assert_eq!(state, redeemed());
}

#[test]
fn a_stale_sequence_number_is_reported_before_the_operation() {
    let mut state = redeemed();
    let inside_and_stale = Request {
        account_id: X,
        operation: Operation::Transfer { recipient: Address::FastPay(Y), amount: Amount(10) },
        sequence_number: SequenceNumber(1),
    };
    assert_eq!(
        state.handle_redeem_transaction(certified(Value::Confirm(inside_and_stale), 3)),
        Err(FastPayError::ReplayedOrStaleSequenceNumber)
    );
    assert_eq!(
        state.handle_redeem_transaction(redeem(X, 0, 1000)),
        Err(FastPayError::ReplayedOrStaleSequenceNumber)
    );
    assert_eq!(state, redeemed());
}

#[test]
fn redeem_with_verdict_follows_the_verdict() {
    let mut state = funded();
    let unsigned = certified(Value::Confirm(withdrawal(X, 1, 40)), 0);
    assert_eq!(
        state.redeem_with_verdict(&unsigned, false),
        Err(FastPayError::CertificateInvalid)
    );
    assert_eq!(state, funded());
    assert_eq!(state.redeem_with_verdict(&unsigned, true), Ok(()));
    assert_eq!(state.total_balance(), Amount(60));
    assert_eq!(guard(&state, X), Some(SequenceNumber(1)));
    assert_eq!(
        state.redeem_with_verdict(&unsigned, true),
        Err(FastPayError::ReplayedOrStaleSequenceNumber)
    );
    assert_eq!(
        state.redeem_with_verdict(&redeem(X, 2, 61), true),
        Err(FastPayError::InsufficientBalance)
    );
    assert_eq!(
        state.redeem_with_verdict(&certified(Value::Lock(withdrawal(X, 2, 1)), 3), true),
        Err(FastPayError::InvalidRedeemTransaction)
    );
    assert_eq!(state.total_balance(), Amount(60));
    assert_eq!(guard(&state, X), Some(SequenceNumber(1)));
}

#[test]
fn accepted_deposits_add_up() {
    let mut state = bridge();
    let deposits = vec![fund(X, 100), fund(Y, 1), fund(X, 2500), fund(Y, 7)];
    for deposit in deposits.iter() {
        assert_eq!(state.handle_funding_transaction(*deposit), Ok(()));
    }
    assert_eq!(state.total_balance(), Amount(2608));
    assert_eq!(state.last_transaction_index(), VersionNumber(4));
    assert_eq!(state.blockchain(), &deposits);
}

#[test]
fn the_balance_is_deposits_less_withdrawals() {
    let mut state = bridge();
    assert_eq!(state.handle_funding_transaction(fund(X, 100)), Ok(()));
    assert_eq!(state.handle_redeem_transaction(redeem(X, 1, 30)), Ok(()));
    assert_eq!(state.handle_funding_transaction(fund(Y, 50)), Ok(()));
    assert_eq!(state.handle_funding_transaction(fund(Y, 0)), Err(FastPayError::InvalidAmount));
    assert_eq!(state.handle_redeem_transaction(redeem(Y, 4, 120)), Ok(()));
    assert_eq!(
        state.handle_redeem_transaction(redeem(Y, 5, 1)),
        Err(FastPayError::InsufficientBalance)
    );
    assert_eq!(state.total_balance(), Amount(0));
    assert_eq!(state.last_transaction_index(), VersionNumber(2));
    assert_eq!(state.blockchain().len(), 2);
}

#[test]
fn the_log_is_as_long_as_the_index_says() {
    let mut state = bridge();
    let coins: Vec<u64> = vec![5, 0, 7, 0, 0, 11, 13];
    let mut accepted: u64 = 0;
    for amount in coins {
        if state.handle_funding_transaction(fund(X, amount)).is_ok() {
            accepted += 1;
        }
        let _ = state.handle_redeem_transaction(redeem(X, amount, 3));
        assert_eq!(state.last_transaction_index(), VersionNumber(accepted));
        assert_eq!(u64::try_from(state.blockchain().len()), Ok(accepted));
    }
    assert_eq!(state.last_transaction_index(), VersionNumber(4));
}

#[test]
fn a_deposit_beyond_the_largest_balance_changes_nothing() {
    let mut state = bridge();
    assert_eq!(state.handle_funding_transaction(fund(X, u64::MAX - 5)), Ok(()));
    let before = state.clone();
    assert_eq!(state.handle_funding_transaction(fund(X, 6)), Err(FastPayError::BalanceOverflow));
    assert_eq!(state, before);
    assert_eq!(state.last_transaction_index(), VersionNumber(1));
    assert_eq!(state.blockchain().len(), 1);
    assert_eq!(state.handle_funding_transaction(fund(X, 5)), Ok(()));
    assert_eq!(state.total_balance(), Amount(u64::MAX));
    assert_eq!(state.last_transaction_index(), VersionNumber(2));
}

#[test]
fn a_redeemed_sequence_number_stays_rejected() {
    let mut state = funded();
    assert_eq!(state.handle_redeem_transaction(redeem(X, 5, 10)), Ok(()));
    assert_eq!(state.handle_funding_transaction(fund(X, 20)), Ok(()));
    assert_eq!(state.handle_redeem_transaction(redeem(Y, 1, 10)), Ok(()));
    assert_eq!(state.handle_redeem_transaction(redeem(X, 9, 10)), Ok(()));
    for stale in vec![0, 1, 4, 5, 8, 9] {
        let before = state.clone();
        assert_eq!(
            state.handle_redeem_transaction(redeem(X, stale, 1)),
            Err(FastPayError::ReplayedOrStaleSequenceNumber)
        );
        assert_eq!(state.total_balance(), Amount(90));
        assert_eq!(state, before);
    }
    assert_eq!(state.handle_redeem_transaction(redeem(Y, 2, 1)), Ok(()));
    assert_eq!(state.handle_redeem_transaction(redeem(X, 10, 1)), Ok(()));
    assert_eq!(state.total_balance(), Amount(88));
}

#[test]
fn equal_inputs_give_equal_bridges() {
    let mut first = bridge();
    let mut second = bridge();
    let mut first_outcomes = Vec::new();
    let mut second_outcomes = Vec::new();
    for round in 0..6u64 {
        first_outcomes.push(first.handle_funding_transaction(fund(X, round * 10)));
        first_outcomes.push(first.handle_redeem_transaction(redeem(X, round / 2, 15)));
        first_outcomes.push(first.handle_redeem_transaction(redeem(Y, 1, round * 30)));
    }
    for round in 0..6u64 {
        second_outcomes.push(second.handle_funding_transaction(fund(X, round * 10)));
        second_outcomes.push(second.handle_redeem_transaction(redeem(X, round / 2, 15)));
        second_outcomes.push(second.handle_redeem_transaction(redeem(Y, 1, round * 30)));
    }
    assert_eq!(first_outcomes, second_outcomes);
    assert_eq!(first, second);
    assert!(first_outcomes.contains(&Ok(())));
    assert!(first_outcomes.contains(&Err(FastPayError::InvalidAmount)));
    assert!(first_outcomes.contains(&Err(FastPayError::ReplayedOrStaleSequenceNumber)));
    assert!(first_outcomes.contains(&Err(FastPayError::InsufficientBalance)));
}
