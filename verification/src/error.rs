//! The reasons for which the bridge rejects a transaction.

use vstd::prelude::*;

verus! {

/// Why a transaction, or an arithmetic step on behalf of one, was rejected.
///
/// Every rejection leaves the bridge as it was.
#[derive(Clone, Copy, Debug, PartialEq, Eq, Hash, Structural)]
pub enum FastPayError {
    /// A funding transaction carried no coins.
    InvalidAmount,
    /// The index of the last transaction cannot be advanced any further.
    IndexOverflow,
    /// Adding to a balance would exceed the largest representable amount.
    BalanceOverflow,
    /// Subtracting from a balance would go below zero.
    BalanceUnderflow,
    /// The committee does not endorse the certificate.
    CertificateInvalid,
    /// The certificate does not confirm a request, or the confirmed operation
    /// moves nothing to Primary.
    InvalidRedeemTransaction,
    /// The account has already redeemed a request with this sequence number
    /// or a later one.
    ReplayedOrStaleSequenceNumber,
    /// The bridge holds fewer coins than the redeem asks for.
    InsufficientBalance,
}

} // verus!
