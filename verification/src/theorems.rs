//! What holds of the bridge, proved of its model.
//!
//! The transitions of
//! [`crate::fastpay_smart_contract::FastPaySmartContractState`] follow
//! [`Ledger`] step by step, so every theorem here holds of the states that
//! a bridge goes through.

use crate::base_types::AccountId;
use crate::error::FastPayError;
use crate::fastpay_smart_contract::{FundingTransaction, RedeemTransaction};
use crate::ledger::{deposited, fundings, not_before, Event, Ledger};
use vstd::prelude::*;

verus! {

/// A deposit appended to a log adds its coins to what the log has
/// deposited.
pub proof fn lemma_deposited_push(deposits: Seq<FundingTransaction>, transaction: FundingTransaction)
    ensures
        deposited(deposits.push(transaction)) == deposited(deposits) + transaction.primary_coins@,
{
    assert(deposits.push(transaction).drop_last() =~= deposits);
}

/// No transaction, accepted or rejected, leads from a well-formed ledger to
/// one that is not.
pub proof fn theorem_step_preserves_well_formed(ledger: Ledger, event: Event)
    requires
        ledger.well_formed(),
    ensures
        ledger.step(event).well_formed(),
{
    match event {
        Event::Funding(transaction) => {
            lemma_deposited_push(ledger.blockchain, transaction);
        },
        Event::Redeem { .. } => {},
    }
}

/// No sequence of transactions leads from a well-formed ledger to one that
/// is not.
pub proof fn theorem_run_preserves_well_formed(ledger: Ledger, events: Seq<Event>)
    requires
        ledger.well_formed(),
    ensures
        ledger.run(events).well_formed(),
    decreases events.len(),
{
    if events.len() > 0 {
        theorem_run_preserves_well_formed(ledger, events.drop_last());
        theorem_step_preserves_well_formed(ledger.run(events.drop_last()), events.last());
    }
}

/// Whatever a fresh bridge is sent, its balance is never negative.
pub proof fn theorem_balance_never_negative(events: Seq<Event>)
    ensures
        Ledger::fresh().run(events).total_balance >= 0,
{
    theorem_run_preserves_well_formed(Ledger::fresh(), events);
}

/// Whatever a fresh bridge is sent, its log has as many entries as its index
/// says.
pub proof fn theorem_log_matches_index(events: Seq<Event>)
    ensures
        Ledger::fresh().run(events).blockchain.len() == Ledger::fresh().run(
            events,
        ).last_transaction_index,
{
    theorem_run_preserves_well_formed(Ledger::fresh(), events);
}

/// Whatever a fresh bridge is sent, it never holds more than its log has
/// deposited.
pub proof fn theorem_balance_covered_by_deposits(events: Seq<Event>)
    ensures
        Ledger::fresh().run(events).total_balance <= deposited(
            Ledger::fresh().run(events).blockchain,
        ),
{
    theorem_run_preserves_well_formed(Ledger::fresh(), events);
}

/// The balance after a sequence of transactions is the balance before it
/// plus the coins of the deposits that were accepted, less the coins of the
/// withdrawals that were accepted.
pub proof fn theorem_balance_is_net_inflow(ledger: Ledger, events: Seq<Event>)
    ensures
        ledger.run(events).total_balance == ledger.total_balance + ledger.net_inflow(events),
    decreases events.len(),
{
    if events.len() > 0 {
        theorem_balance_is_net_inflow(ledger, events.drop_last());
    }
}

/// Deposits that are all accepted add up: after them the balance has grown
/// by the sum of their coins, and the log by the deposits themselves.
pub proof fn lemma_accepted_deposits_add_up(ledger: Ledger, deposits: Seq<FundingTransaction>)
    requires
        forall|i: int|
            0 <= i < deposits.len() ==> (#[trigger] ledger.outcomes(fundings(deposits))[i]) is Ok,
    ensures
        ledger.run(fundings(deposits)).total_balance == ledger.total_balance + deposited(deposits),
        ledger.run(fundings(deposits)).blockchain == ledger.blockchain + deposits,
        ledger.run(fundings(deposits)).last_transaction_index == ledger.last_transaction_index
            + deposits.len(),
        ledger.run(fundings(deposits)).accounts == ledger.accounts,
    decreases deposits.len(),
{
    let events = fundings(deposits);
    if deposits.len() == 0 {
        assert(ledger.blockchain + deposits =~= ledger.blockchain);
    } else {
        let earlier = deposits.drop_last();
        let last = deposits.len() - 1;
        assert(events.drop_last() =~= fundings(earlier));
        assert(events.take(last) =~= fundings(earlier));
        assert forall|i: int| 0 <= i < earlier.len() implies (#[trigger] ledger.outcomes(
            fundings(earlier),
        )[i]) is Ok by {
            assert(fundings(earlier).take(i) =~= events.take(i));
            assert(ledger.outcomes(events)[i] is Ok);
        }
        lemma_accepted_deposits_add_up(ledger, earlier);
        assert(ledger.outcomes(events)[last] is Ok);
        assert(ledger.blockchain + deposits =~= (ledger.blockchain + earlier).push(
            deposits.last(),
        ));
    }
}

/// Conservation: after deposits with the coins `a1`, ..., `an`, all
/// accepted by a fresh bridge that is sent nothing else, the balance is
/// `a1 + ... + an`, and the log holds exactly these deposits.
pub proof fn theorem_conservation(deposits: Seq<FundingTransaction>)
    requires
        forall|i: int|
            0 <= i < deposits.len() ==> (#[trigger] Ledger::fresh().outcomes(
                fundings(deposits),
            )[i]) is Ok,
    ensures
        Ledger::fresh().run(fundings(deposits)).total_balance == deposited(deposits),
        Ledger::fresh().run(fundings(deposits)).blockchain == deposits,
{
    lemma_accepted_deposits_add_up(Ledger::fresh(), deposits);
    assert(Ledger::fresh().blockchain + deposits =~= deposits);
}

/// No transaction, accepted or rejected, moves the replay guard of an
/// account backwards.
pub proof fn theorem_guard_never_recedes(ledger: Ledger, event: Event, account: AccountId)
    ensures
        not_before(ledger.last_redeemed(account), ledger.step(event).last_redeemed(account)),
{
}

/// No sequence of transactions moves the replay guard of an account
/// backwards.
pub proof fn theorem_guard_never_recedes_over_run(
    ledger: Ledger,
    events: Seq<Event>,
    account: AccountId,
)
    ensures
        not_before(ledger.last_redeemed(account), ledger.run(events).last_redeemed(account)),
    decreases events.len(),
{
    if events.len() > 0 {
        theorem_guard_never_recedes_over_run(ledger, events.drop_last(), account);
        theorem_guard_never_recedes(ledger.run(events.drop_last()), events.last(), account);
    }
}

/// Replay rejection: once the bridge has accepted a withdrawal of an
/// account, then, whatever it is sent afterwards, it rejects every
/// withdrawal of that account whose sequence number is not a later one, and
/// the rejected attempt changes nothing: neither the balance nor anything
/// else. Where the committee endorses the certificate of the attempt, the
/// reason is [`FastPayError::ReplayedOrStaleSequenceNumber`]; where it does
/// not, the certificate is the reason.
pub proof fn theorem_replay_rejected(
    ledger: Ledger,
    accepted: RedeemTransaction,
    events: Seq<Event>,
    attempt: RedeemTransaction,
    endorsed: bool,
)
    requires
        ledger.apply_redeem(accepted, true) is Ok,
        attempt.certificate.value.confirmed_request() is Some,
        attempt.certificate.value.confirmed_request()->Some_0.account_id
            == accepted.certificate.value.confirmed_request()->Some_0.account_id,
        attempt.certificate.value.confirmed_request()->Some_0.sequence_number@
            <= accepted.certificate.value.confirmed_request()->Some_0.sequence_number@,
    ensures
        ({
            let later = ledger.step(Event::Redeem { transaction: accepted, endorsed: true }).run(
                events,
            );
            &&& later.apply_redeem(attempt, endorsed) is Err
            &&& endorsed ==> later.apply_redeem(attempt, endorsed) == Err::<Ledger, FastPayError>(
                FastPayError::ReplayedOrStaleSequenceNumber,
            )
            &&& !endorsed ==> later.apply_redeem(attempt, endorsed) == Err::<Ledger, FastPayError>(
                FastPayError::CertificateInvalid,
            )
            &&& later.step(Event::Redeem { transaction: attempt, endorsed }) == later
        }),
{
    let account = accepted.certificate.value.confirmed_request()->Some_0.account_id;
    let after = ledger.step(Event::Redeem { transaction: accepted, endorsed: true });
    theorem_guard_never_recedes_over_run(after, events, account);
}

/// Determinism: two fresh bridges that are sent the same transactions, with
/// the same answers of the committee, give the same answer to each of them
/// and end in the same state.
pub proof fn theorem_determinism(first: Ledger, second: Ledger, events: Seq<Event>)
    requires
        first == Ledger::fresh(),
        second == Ledger::fresh(),
    ensures
        first.run(events) == second.run(events),
        first.outcomes(events) == second.outcomes(events),
{
}

} // verus!
