//! Command rejections. Every failure aborts the whole command; the host
//! persists nothing and reports the error to the caller.

use vstd::prelude::*;

verus! {

/// Why a command was rejected.
#[derive(Debug)]
pub enum ContractError {
    /// The caller is not the configured admin.
    Unauthorized,
    /// Rerolling is switched off in the configuration.
    NotEnabled,
    /// The caller does not own the token it asked to reroll.
    NotOwner,
    /// A reroll record for this token already exists.
    AlreadyRequested,
    /// The attached payment is missing or differs from the configured
    /// fee denomination or amount.
    PaymentFailed,
    /// The embedded message of a token-receive callback did not decode.
    InvalidReceiveMsg { detail: String },
    /// A token-receive callback came from some identity other than the
    /// registered collection.
    WrongCollection { expected: String, received: String },
    /// A confirmation arrived for a token with no reroll record.
    NftNotFound,
    /// A confirmation arrived for a token whose record is already marked
    /// rerolled; paying out twice is refused.
    AlreadyConfirmed,
    /// An external collaborator call failed; its report is passed on.
    External { detail: String },
}

#[verifier::ext_equal]
pub ghost enum ErrorV {
    Unauthorized,
    NotEnabled,
    NotOwner,
    AlreadyRequested,
    PaymentFailed,
    InvalidReceiveMsg { detail: Seq<char> },
    WrongCollection { expected: Seq<char>, received: Seq<char> },
    NftNotFound,
    AlreadyConfirmed,
    External { detail: Seq<char> },
}

impl View for ContractError {
    type V = ErrorV;

    open spec fn view(&self) -> ErrorV {
        match self {
            ContractError::Unauthorized => ErrorV::Unauthorized,
            ContractError::NotEnabled => ErrorV::NotEnabled,
            ContractError::NotOwner => ErrorV::NotOwner,
            ContractError::AlreadyRequested => ErrorV::AlreadyRequested,
            ContractError::PaymentFailed => ErrorV::PaymentFailed,
            ContractError::InvalidReceiveMsg { detail } => (ErrorV::InvalidReceiveMsg {
                detail: detail@,
            }),
            ContractError::WrongCollection { expected, received } => (ErrorV::WrongCollection {
                expected: expected@,
                received: received@,
            }),
            ContractError::NftNotFound => ErrorV::NftNotFound,
            ContractError::AlreadyConfirmed => ErrorV::AlreadyConfirmed,
            ContractError::External { detail } => (ErrorV::External { detail: detail@ }),
        }
    }
}

} // verus!
