//! The committee, as far as the bridge depends on it.

use crate::error::FastPayError;
use crate::messages::Certificate;
use vstd::prelude::*;

verus! {

/// The parties that validate FastPay, seen as the capability to judge a
/// certificate.
///
/// Who the members are, how their votes are weighted and how their
/// signatures are verified is the implementor's business. The bridge relies
/// on nothing but the answer, so nothing is promised of it here.
pub trait Committee {
    /// Whether the signatures of `certificate` make a quorum of this
    /// committee on its value.
    fn endorses(&self, certificate: &Certificate) -> bool;
}

impl Certificate {
    /// Submits the certificate to `committee`.
    ///
    /// The answer is the committee's: the certificate passes where
    /// [`Committee::endorses`] answers yes on it, and fails with
    /// [`FastPayError::CertificateInvalid`] where it answers no.
    pub fn check<C: Committee>(&self, committee: &C) -> (verdict: Result<(), FastPayError>)
        ensures
            match verdict {
                Ok(_) => call_ensures(C::endorses, (committee, self), true),
                Err(error) => error == FastPayError::CertificateInvalid && call_ensures(
                    C::endorses,
                    (committee, self),
                    false,
                ),
            },
    {
        if committee.endorses(self) {
            Ok(())
        } else {
            Err(FastPayError::CertificateInvalid)
        }
    }
}

} // verus!
