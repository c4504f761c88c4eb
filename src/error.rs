//! The errors that the engine reports, and the kind each belongs to.
use vstd::prelude::*;

verus! {

/// The broad class of an error, stable for callers that only need to tell
/// classes apart.
#[derive(Clone, Copy, Debug, PartialEq, Eq, Structural)]
pub enum ErrorKind {
    /// A size or shape over capacity, or a target that does not fit the action.
    Validation,
    /// The caller is not a member, or not a required signer.
    Authorization,
    /// The operation does not fit the proposal's current status or kind.
    State,
    /// The signature has already been recorded.
    Conflict,
    /// Not every required signer has signed.
    Quorum,
    /// The vault or the caller holds too little.
    Resource,
}

/// Why an operation was refused. A refused operation changes nothing.
#[derive(Clone, Copy, Debug, PartialEq, Eq, Structural)]
pub enum GovernanceError {
    /// No proposal has the given id.
    ProposalNotFound,
    /// The proposal belongs to the other pipeline (membership or transfer).
    WrongProposalKind,
    /// The key to unregister is not a member.
    NotRegistered,
    /// The key to register is already a member.
    AlreadyRegistered,
    /// The registry holds as many members as it may.
    MemberLimitReached,
    /// The proposal holds as many signatures as it may.
    SignatureLimitReached,
    /// An id domain has issued its last id.
    IdSpaceExhausted,
    /// The vault balance would exceed what it can hold.
    BalanceOverflow,
    /// Only members may create proposals, and the caller is not one.
    NotAMember,
    /// The signer is not in the proposal's required-signer snapshot.
    NotARequiredSigner,
    /// The proposal is no longer pending.
    AlreadyProcessed,
    /// The signer has already signed this proposal.
    AlreadySigned,
    /// Some required signer has not signed yet.
    IncompleteSignatures,
    /// The vault holds less than the transfer amount.
    InsufficientBalance,
    /// The depositor holds less than the deposit amount.
    InsufficientFunds,
}

pub open spec fn kind_of(e: GovernanceError) -> ErrorKind {
    match e {
        GovernanceError::ProposalNotFound => ErrorKind::Validation,
        GovernanceError::WrongProposalKind => ErrorKind::State,
        GovernanceError::NotRegistered => ErrorKind::Validation,
        GovernanceError::AlreadyRegistered => ErrorKind::Validation,
        GovernanceError::MemberLimitReached => ErrorKind::Validation,
        GovernanceError::SignatureLimitReached => ErrorKind::Validation,
        GovernanceError::IdSpaceExhausted => ErrorKind::Validation,
        GovernanceError::BalanceOverflow => ErrorKind::Resource,
        GovernanceError::NotAMember => ErrorKind::Authorization,
        GovernanceError::NotARequiredSigner => ErrorKind::Authorization,
        GovernanceError::AlreadyProcessed => ErrorKind::State,
        GovernanceError::AlreadySigned => ErrorKind::Conflict,
        GovernanceError::IncompleteSignatures => ErrorKind::Quorum,
        GovernanceError::InsufficientBalance => ErrorKind::Resource,
        GovernanceError::InsufficientFunds => ErrorKind::Resource,
    }
}

impl GovernanceError {
    pub fn kind(&self) -> (k: ErrorKind)
        ensures
            k == kind_of(*self),
    {
        match self {
            GovernanceError::ProposalNotFound => ErrorKind::Validation,
            GovernanceError::WrongProposalKind => ErrorKind::State,
            GovernanceError::NotRegistered => ErrorKind::Validation,
            GovernanceError::AlreadyRegistered => ErrorKind::Validation,
            GovernanceError::MemberLimitReached => ErrorKind::Validation,
            GovernanceError::SignatureLimitReached => ErrorKind::Validation,
            GovernanceError::IdSpaceExhausted => ErrorKind::Validation,
            GovernanceError::BalanceOverflow => ErrorKind::Resource,
            GovernanceError::NotAMember => ErrorKind::Authorization,
            GovernanceError::NotARequiredSigner => ErrorKind::Authorization,
            GovernanceError::AlreadyProcessed => ErrorKind::State,
            GovernanceError::AlreadySigned => ErrorKind::Conflict,
            GovernanceError::IncompleteSignatures => ErrorKind::Quorum,
            GovernanceError::InsufficientBalance => ErrorKind::Resource,
            GovernanceError::InsufficientFunds => ErrorKind::Resource,
        }
    }
}

} // verus!
