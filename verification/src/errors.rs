//! Typed failures of the ledger operations.
//!
//! Every operation either commits its whole effect or returns one of these
//! codes with no state change at all ("whole-instruction rollback").

use vstd::prelude::*;

verus! {

/// The failure taxonomy of the ledger.
#[derive(Clone, Copy, Debug, PartialEq, Eq, Structural)]
pub enum ErrorCode {
    /// A funds-bearing call was given an amount that is not positive.
    InvalidAmount,
    /// A balance subtraction would take an account below zero.
    InsufficientFunds,
    /// The caller identity does not hold the role the operation demands.
    InvalidSigner,
    /// Creation targeted a derived address that is already occupied.
    AlreadyExists,
    /// A derived address resolved to no record.
    NotFound,
    /// The friend list already holds its maximum number of entries.
    CapacityExceeded,
}

impl ErrorCode {
    /// The user-visible message attached to this code.
    pub open spec fn message_spec(self) -> Seq<char> {
        match self {
            ErrorCode::InvalidAmount => "The provided amount must be greater than zero."@,
            ErrorCode::InsufficientFunds => "Insufficient funds to perform the transfer."@,
            ErrorCode::InvalidSigner => "Signer does not have access to call this instruction."@,
            ErrorCode::AlreadyExists => "A record already exists at the derived address."@,
            ErrorCode::NotFound => "No record exists at the derived address."@,
            ErrorCode::CapacityExceeded => "The friend list is full."@,
        }
    }

    /// Returns the user-visible message for this code.
    pub fn message(&self) -> (r: &'static str)
        ensures
            r@ == self.message_spec(),
    {
        match self {
            ErrorCode::InvalidAmount => "The provided amount must be greater than zero.",
            ErrorCode::InsufficientFunds => "Insufficient funds to perform the transfer.",
            ErrorCode::InvalidSigner => "Signer does not have access to call this instruction.",
            ErrorCode::AlreadyExists => "A record already exists at the derived address.",
            ErrorCode::NotFound => "No record exists at the derived address.",
            ErrorCode::CapacityExceeded => "The friend list is full.",
        }
    }
}

} // verus!
