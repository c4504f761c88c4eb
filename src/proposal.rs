//! Proposals: the action proposed, the snapshot of required signers taken at
//! creation, the signatures collected since, and the status.
use vstd::prelude::*;
use crate::keys::{IdentityKey, contains_key};
use crate::error::GovernanceError;
use crate::consensus::{quorum, satisfied};

verus! {

/// A proposal is pending until it is approved; approval is final.
#[derive(Clone, Copy, Debug, PartialEq, Eq, Structural)]
pub enum ProposalStatus {
    Pending,
    Approved,
}

/// The two changes that a membership proposal can make to the registry.
#[derive(Clone, Copy, Debug, PartialEq, Eq, Structural)]
pub enum MembershipChange {
    Register,
    Unregister,
}

/// What a proposal does once approved.
#[derive(Clone, Debug, PartialEq, Eq)]
pub enum ProposalAction {
    /// Adds a member with this key and name.
    Register { key: IdentityKey, name: String },
    /// Removes the member with this key.
    Unregister { key: IdentityKey },
    /// Pays `amount` out of the vault to `recipient`.
    TransferAsset { recipient: IdentityKey, amount: u64 },
}

/// A proposal as a mathematical value.
pub struct ProposalView {
    pub id: u64,
    pub action: ProposalAction,
    pub required_signers: Seq<IdentityKey>,
    pub signatures: Seq<IdentityKey>,
    pub status: ProposalStatus,
}

impl ProposalView {
    /// The same proposal with one more signature.
    pub open spec fn with_signature(self, signer: IdentityKey) -> ProposalView {
        ProposalView { signatures: self.signatures.push(signer), ..self }
    }

    /// The same proposal, approved.
    pub open spec fn approved(self) -> ProposalView {
        ProposalView { status: ProposalStatus::Approved, ..self }
    }

    /// Whether the consensus gate holds for this proposal.
    pub open spec fn has_quorum(self) -> bool {
        quorum(self.required_signers, self.signatures)
    }

    pub open spec fn is_transfer(self) -> bool {
        self.action is TransferAsset
    }

    /// Each key signs at most once, and only a required signer signs where
    /// the snapshot is not empty.
    pub open spec fn wf(self) -> bool {
        &&& self.signatures.no_duplicates()
        &&& self.required_signers.len() > 0 ==> forall|i: int|
            0 <= i < self.signatures.len() ==> self.required_signers.contains(
                #[trigger] self.signatures[i],
            )
    }

    /// Why `signer` may not sign this proposal, which may hold at most
    /// `max_signatures` signatures, if it may not.
    pub open spec fn sign_error(self, signer: IdentityKey, max_signatures: nat) -> Option<
        GovernanceError,
    > {
        if self.status != ProposalStatus::Pending {
            Some(GovernanceError::AlreadyProcessed)
        } else if self.required_signers.len() > 0 && !self.required_signers.contains(signer) {
            Some(GovernanceError::NotARequiredSigner)
        } else if self.signatures.contains(signer) {
            Some(GovernanceError::AlreadySigned)
        } else if self.signatures.len() >= max_signatures {
            Some(GovernanceError::SignatureLimitReached)
        } else {
            None
        }
    }
}

/// A proposal record.
#[derive(Debug)]
pub struct Proposal {
    pub id: u64,
    pub action: ProposalAction,
    pub required_signers: Vec<IdentityKey>,
    pub signatures: Vec<IdentityKey>,
    pub status: ProposalStatus,
}

impl View for Proposal {
    type V = ProposalView;

    open spec fn view(&self) -> ProposalView {
        ProposalView {
            id: self.id,
            action: self.action,
            required_signers: self.required_signers@,
            signatures: self.signatures@,
            status: self.status,
        }
    }
}

impl Proposal {
    /// A pending proposal with no signatures yet.
    pub fn new(id: u64, action: ProposalAction, required_signers: Vec<IdentityKey>) -> (p: Proposal)
        ensures
            p@ == (ProposalView {
                id,
                action,
                required_signers: required_signers@,
                signatures: Seq::empty(),
                status: ProposalStatus::Pending,
            }),
            p@.wf(),
    {
        Proposal {
            id,
            action,
            required_signers,
            signatures: Vec::new(),
            status: ProposalStatus::Pending,
        }
    }

    /// Whether each key signs at most once and, where the snapshot is not
    /// empty, only required signers have signed.
    pub fn is_well_formed(&self) -> (r: bool)
        ensures
            r == self@.wf(),
    {
        let n = self.signatures.len();
        let mut i: usize = 0;
        while i < n
            invariant
                n == self.signatures@.len(),
                0 <= i <= n,
                forall|a: int, b: int|
                    0 <= a < i && 0 <= b < i && a != b ==> self.signatures@[a]
                        != self.signatures@[b],
                self.required_signers@.len() > 0 ==> forall|a: int|
                    0 <= a < i ==> self.required_signers@.contains(#[trigger] self.signatures@[a]),
            decreases n - i,
        {
            if self.required_signers.len() > 0 && !contains_key(
                &self.required_signers,
                &self.signatures[i],
            ) {
                return false;
            }
            let mut j: usize = 0;
            while j < i
                invariant
                    n == self.signatures@.len(),
                    0 <= j <= i < n,
                    forall|b: int| 0 <= b < j ==> self.signatures@[b] != self.signatures@[i as int],
                decreases i - j,
            {
                if self.signatures[j].same_as(&self.signatures[i]) {
                    return false;
                }
                j = j + 1;
            }
            i = i + 1;
        }
        true
    }

    pub fn is_pending(&self) -> (r: bool)
        ensures
            r == (self@.status == ProposalStatus::Pending),
    {
        match self.status {
            ProposalStatus::Pending => true,
            ProposalStatus::Approved => false,
        }
    }

    pub fn is_transfer(&self) -> (r: bool)
        ensures
            r == self@.is_transfer(),
    {
        match self.action {
            ProposalAction::TransferAsset { .. } => true,
            _ => false,
        }
    }

    /// Whether every required signer has signed.
    pub fn quorum_reached(&self) -> (r: bool)
        ensures
            r == self@.has_quorum(),
    {
        satisfied(&self.required_signers, &self.signatures)
    }

    /// Appends `signer` to the signatures, or says why it may not sign; the
    /// proposal holds at most `max_signatures` signatures.
    pub fn record_signature(&mut self, signer: IdentityKey, max_signatures: usize) -> (r: Result<
        (),
        GovernanceError,
    >)
        requires
            old(self)@.wf(),
        ensures
            old(self)@.sign_error(signer, max_signatures as nat) matches Some(e) ==> r == Err::<(), GovernanceError>(e)
                && final(self)@ == old(self)@,
            old(self)@.sign_error(signer, max_signatures as nat) is None ==> r is Ok && final(self)@ == old(
                self,
            )@.with_signature(signer),
            final(self)@.wf(),
    {
        if !self.is_pending() {
            return Err(GovernanceError::AlreadyProcessed);
        }
        if self.required_signers.len() > 0 && !contains_key(&self.required_signers, &signer) {
            return Err(GovernanceError::NotARequiredSigner);
        }
        if contains_key(&self.signatures, &signer) {
            return Err(GovernanceError::AlreadySigned);
        }
        if self.signatures.len() >= max_signatures {
            return Err(GovernanceError::SignatureLimitReached);
        }
        let ghost before = self@;
        self.signatures.push(signer);
        assert(self@.signatures == before.signatures.push(signer));
        assert forall|i: int, j: int|
            0 <= i < self@.signatures.len() && 0 <= j < self@.signatures.len() && i != j implies
            self@.signatures[i] != self@.signatures[j] by {
            if i == before.signatures.len() {
                assert(before.signatures.contains(before.signatures[j]));
            } else if j == before.signatures.len() {
                assert(before.signatures.contains(before.signatures[i]));
            }
        }
        Ok(())
    }

    /// Marks the proposal approved.
    pub fn mark_approved(&mut self)
        ensures
            final(self)@ == old(self)@.approved(),
    {
        self.status = ProposalStatus::Approved;
    }
}

} // verus!
