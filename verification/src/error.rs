//! The ways a request can be refused, and the kinds they fall into.

use vstd::prelude::*;

verus! {

/// The refusals that the program itself raises.
#[derive(Clone, Copy, Debug, PartialEq, Eq, Structural)]
pub enum TipfinityError {
    /// The requested username is longer than the record's username field.
    UsernameTooLong,
    /// The tip moves no value.
    InvalidAmount,
    /// The annotation is longer than a tip record may hold.
    MessageTooLong,
    /// A counter of the creator record would leave the unsigned 64-bit range.
    Overflow,
}

/// The kinds of refusal that a caller tells apart.
#[derive(Clone, Copy, Debug, PartialEq, Eq, Structural)]
pub enum ErrorKind {
    /// A username, an amount or an annotation is out of its allowed range.
    ValidationError,
    /// A counter would leave its range.
    OverflowError,
    /// The declared wallet is not vouched for by a recorded owner.
    AuthorizationMismatch,
    /// The value could not be moved.
    TransferFailure,
    /// The record could not be created.
    HostAllocationFailure,
}

/// Every way in which a transition can end without effect.
#[derive(Clone, Copy, Debug, PartialEq, Eq, Structural)]
pub enum TransitionError {
    /// The program refused the request.
    Program(TipfinityError),
    /// The declared creator wallet is not the owner that the creator record
    /// names.
    WalletMismatch,
    /// No creator record lies at the address that the request names, so no
    /// recorded owner vouches for the declared wallet.
    UnknownCreator,
    /// The tipper holds less than the amount.
    InsufficientFunds,
    /// The receiving wallet cannot hold the amount on top of what it holds.
    BalanceOverflow,
    /// The address of the new record is already occupied.
    AddressInUse,
    /// No address could be derived for the new record.
    NoViableAddress,
}

impl TipfinityError {
    /// The kind that this refusal falls into.
    pub open spec fn kind_spec(self) -> ErrorKind {
        match self {
            TipfinityError::UsernameTooLong => ErrorKind::ValidationError,
            TipfinityError::InvalidAmount => ErrorKind::ValidationError,
            TipfinityError::MessageTooLong => ErrorKind::ValidationError,
            TipfinityError::Overflow => ErrorKind::OverflowError,
        }
    }

    /// The kind that this refusal falls into.
    #[verifier::when_used_as_spec(kind_spec)]
    pub fn kind(self) -> (k: ErrorKind)
        ensures
            k == self.kind_spec(),
    {
        match self {
            TipfinityError::UsernameTooLong => ErrorKind::ValidationError,
            TipfinityError::InvalidAmount => ErrorKind::ValidationError,
            TipfinityError::MessageTooLong => ErrorKind::ValidationError,
            TipfinityError::Overflow => ErrorKind::OverflowError,
        }
    }

    /// The text shown to a caller for this refusal.
    pub open spec fn message_spec(self) -> Seq<char> {
        match self {
            TipfinityError::UsernameTooLong => "Username too long (max 32 bytes)"@,
            TipfinityError::InvalidAmount => "Invalid tip amount"@,
            TipfinityError::MessageTooLong => "Message too long (max 256 bytes)"@,
            TipfinityError::Overflow => "Overflow error"@,
        }
    }

    /// The text shown to a caller for this refusal.
    pub fn message(self) -> (text: &'static str)
        ensures
            text@ == self.message_spec(),
    {
        match self {
            TipfinityError::UsernameTooLong => "Username too long (max 32 bytes)",
            TipfinityError::InvalidAmount => "Invalid tip amount",
            TipfinityError::MessageTooLong => "Message too long (max 256 bytes)",
            TipfinityError::Overflow => "Overflow error",
        }
    }
}

impl TransitionError {
    /// The kind that this refusal falls into.
    pub open spec fn kind_spec(self) -> ErrorKind {
        match self {
            TransitionError::Program(e) => e.kind_spec(),
            TransitionError::WalletMismatch => ErrorKind::AuthorizationMismatch,
            TransitionError::UnknownCreator => ErrorKind::AuthorizationMismatch,
            TransitionError::InsufficientFunds => ErrorKind::TransferFailure,
            TransitionError::BalanceOverflow => ErrorKind::TransferFailure,
            TransitionError::AddressInUse => ErrorKind::HostAllocationFailure,
            TransitionError::NoViableAddress => ErrorKind::HostAllocationFailure,
        }
    }

    /// The kind that this refusal falls into.
    #[verifier::when_used_as_spec(kind_spec)]
    pub fn kind(self) -> (k: ErrorKind)
        ensures
            k == self.kind_spec(),
    {
        match self {
            TransitionError::Program(e) => e.kind(),
            TransitionError::WalletMismatch => ErrorKind::AuthorizationMismatch,
            TransitionError::UnknownCreator => ErrorKind::AuthorizationMismatch,
            TransitionError::InsufficientFunds => ErrorKind::TransferFailure,
            TransitionError::BalanceOverflow => ErrorKind::TransferFailure,
            TransitionError::AddressInUse => ErrorKind::HostAllocationFailure,
            TransitionError::NoViableAddress => ErrorKind::HostAllocationFailure,
        }
    }
}

} // verus!
