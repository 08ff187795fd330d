//! Settlement bridge between a primary ledger and the FastPay ledger.
//!
//! Value enters FastPay through funding transactions and leaves it through
//! redeem transactions that a committee has certified. The bridge keeps the
//! total of the locked value, a log of the deposits and, for every account,
//! the sequence number of its last redeemed request.
//!
//! The transitions are specified against [`ledger::Ledger`], a mathematical
//! model of the bridge, and the theorems about that model are in
//! [`theorems`].

pub mod base_types;
pub mod error;
pub mod committee;
pub mod messages;
pub mod fastpay_smart_contract;
pub mod ledger;
pub mod theorems;
