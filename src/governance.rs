//! The engine: membership proposals that change the registry, transfer
//! proposals that pay out of the vault, and free deposits. Each operation
//! either succeeds whole or fails and leaves everything as it was.
use vstd::prelude::*;
use crate::keys::IdentityKey;
use crate::error::GovernanceError;
use crate::allocator::{IdAllocator, IdDomain};
use crate::registry::{Member, Registry, is_member, keys_unique, member_keys};
use crate::proposal::{
    MembershipChange, Proposal, ProposalAction, ProposalStatus, ProposalView,
};
use crate::vault::{Direction, LedgerEntry, Vault, VaultView, ledger_entry};

verus! {

/// Settings fixed when the engine is set up.
#[derive(Clone, Copy, Debug, PartialEq, Eq, Structural)]
pub struct GovernanceConfig {
    /// The most members the registry may hold.
    pub max_members: usize,
    /// Whether only members may create proposals. While the registry is
    /// empty anyone may, or no first member could ever be proposed.
    pub members_only_proposals: bool,
    /// What a depositor pays into the vault on top of each deposit.
    pub deposit_fee: u64,
}

/// The whole engine as a mathematical value.
pub struct GovernanceState {
    pub config: GovernanceConfig,
    pub members: Seq<Member>,
    pub proposals: Seq<ProposalView>,
    pub vault: VaultView,
}

/// The index of the member with `key` (meaningful where there is one).
pub open spec fn member_index(members: Seq<Member>, key: IdentityKey) -> int {
    choose|i: int| 0 <= i < members.len() && (#[trigger] members[i]).key == key
}

/// The action a membership proposal carries.
pub open spec fn membership_action(
    change: MembershipChange,
    target: IdentityKey,
    name: String,
) -> ProposalAction {
    match change {
        MembershipChange::Register => ProposalAction::Register { key: target, name },
        MembershipChange::Unregister => ProposalAction::Unregister { key: target },
    }
}

/// The registry after an approved membership action.
pub open spec fn apply_action(members: Seq<Member>, action: ProposalAction) -> Seq<Member> {
    match action {
        ProposalAction::Register { key, name } => members.push(Member { name, key }),
        ProposalAction::Unregister { key } => members.remove(member_index(members, key)),
        ProposalAction::TransferAsset { .. } => members,
    }
}

impl GovernanceState {
    /// Members are unique by key and within the limit; proposal `i` has id
    /// `i + 1` and well-formed signatures, no more of them than the member
    /// limit; the ledger is well formed.
    pub open spec fn wf(self) -> bool {
        &&& keys_unique(self.members)
        &&& self.members.len() <= self.config.max_members
        &&& forall|i: int|
            0 <= i < self.proposals.len() ==> (#[trigger] self.proposals[i]).id == i + 1
                && self.proposals[i].wf() && self.proposals[i].signatures.len()
                <= self.config.max_members
        &&& self.vault.wf()
    }

    pub open spec fn has_proposal(self, id: u64) -> bool {
        1 <= id <= self.proposals.len()
    }

    /// The proposal with `id` (meaningful where there is one).
    pub open spec fn proposal(self, id: u64) -> ProposalView {
        self.proposals[id - 1]
    }

    /// The id the next proposal gets.
    pub open spec fn next_proposal_id(self) -> u64 {
        (self.proposals.len() + 1) as u64
    }

    /// Whether `caller` may create a proposal.
    pub open spec fn may_propose(self, caller: IdentityKey) -> bool {
        !self.config.members_only_proposals || self.members.len() == 0 || is_member(
            self.members,
            caller,
        )
    }

    /// The state with a new pending proposal for `action`, whose required
    /// signers are the current members.
    pub open spec fn with_new_proposal(self, action: ProposalAction) -> GovernanceState {
        GovernanceState {
            proposals: self.proposals.push(
                ProposalView {
                    id: self.next_proposal_id(),
                    action,
                    required_signers: member_keys(self.members),
                    signatures: Seq::empty(),
                    status: ProposalStatus::Pending,
                },
            ),
            ..self
        }
    }

    pub open spec fn create_membership_error(
        self,
        caller: IdentityKey,
        change: MembershipChange,
        target: IdentityKey,
    ) -> Option<GovernanceError> {
        if !self.may_propose(caller) {
            Some(GovernanceError::NotAMember)
        } else if change == MembershipChange::Unregister && !is_member(self.members, target) {
            Some(GovernanceError::NotRegistered)
        } else if change == MembershipChange::Register && is_member(self.members, target) {
            Some(GovernanceError::AlreadyRegistered)
        } else if self.proposals.len() >= u64::MAX {
            Some(GovernanceError::IdSpaceExhausted)
        } else {
            None
        }
    }

    pub open spec fn create_transfer_error(self, caller: IdentityKey) -> Option<
        GovernanceError,
    > {
        if !self.may_propose(caller) {
            Some(GovernanceError::NotAMember)
        } else if self.proposals.len() >= u64::MAX {
            Some(GovernanceError::IdSpaceExhausted)
        } else {
            None
        }
    }

    /// Why `signer` may not sign proposal `id` through the pipeline for
    /// transfers (`transfer`) or for membership changes, if it may not.
    pub open spec fn sign_error(self, signer: IdentityKey, id: u64, transfer: bool) -> Option<
        GovernanceError,
    > {
        if !self.has_proposal(id) {
            Some(GovernanceError::ProposalNotFound)
        } else if self.proposal(id).is_transfer() != transfer {
            Some(GovernanceError::WrongProposalKind)
        } else {
            self.proposal(id).sign_error(signer, self.config.max_members as nat)
        }
    }

    pub open spec fn after_sign(self, signer: IdentityKey, id: u64) -> GovernanceState {
        GovernanceState {
            proposals: self.proposals.update(id - 1, self.proposal(id).with_signature(signer)),
            ..self
        }
    }

    /// Why the registry cannot take `action` now, if it cannot.
    pub open spec fn action_error(self, action: ProposalAction) -> Option<GovernanceError> {
        match action {
            ProposalAction::Register { key, .. } => if is_member(self.members, key) {
                Some(GovernanceError::AlreadyRegistered)
            } else if self.members.len() >= self.config.max_members {
                Some(GovernanceError::MemberLimitReached)
            } else {
                None
            },
            ProposalAction::Unregister { key } => if !is_member(self.members, key) {
                Some(GovernanceError::NotRegistered)
            } else {
                None
            },
            ProposalAction::TransferAsset { .. } => None,
        }
    }

    pub open spec fn approve_error(self, id: u64) -> Option<GovernanceError> {
        if !self.has_proposal(id) {
            Some(GovernanceError::ProposalNotFound)
        } else if self.proposal(id).is_transfer() {
            Some(GovernanceError::WrongProposalKind)
        } else if self.proposal(id).status != ProposalStatus::Pending {
            Some(GovernanceError::AlreadyProcessed)
        } else if !self.proposal(id).has_quorum() {
            Some(GovernanceError::IncompleteSignatures)
        } else {
            self.action_error(self.proposal(id).action)
        }
    }

    pub open spec fn after_approve(self, id: u64) -> GovernanceState {
        GovernanceState {
            members: apply_action(self.members, self.proposal(id).action),
            proposals: self.proposals.update(id - 1, self.proposal(id).approved()),
            ..self
        }
    }

    /// The amount a transfer proposal pays out.
    pub open spec fn transfer_amount(self, id: u64) -> u64 {
        self.proposal(id).action->TransferAsset_amount
    }

    pub open spec fn transfer_recipient(self, id: u64) -> IdentityKey {
        self.proposal(id).action->TransferAsset_recipient
    }

    pub open spec fn execute_error(self, id: u64) -> Option<GovernanceError> {
        if !self.has_proposal(id) {
            Some(GovernanceError::ProposalNotFound)
        } else if !self.proposal(id).is_transfer() {
            Some(GovernanceError::WrongProposalKind)
        } else if self.proposal(id).status != ProposalStatus::Pending {
            Some(GovernanceError::AlreadyProcessed)
        } else if !self.proposal(id).has_quorum() {
            Some(GovernanceError::IncompleteSignatures)
        } else {
            self.vault.payout_error(self.transfer_amount(id))
        }
    }

    /// The ledger entry an accepted execution of proposal `id` writes.
    pub open spec fn payout_entry(self, id: u64) -> LedgerEntry {
        ledger_entry(
            self.vault.next_entry_id(),
            self.transfer_recipient(id),
            self.transfer_amount(id),
            0,
            Direction::Outflow,
        )
    }

    pub open spec fn after_execute(self, id: u64) -> GovernanceState {
        GovernanceState {
            vault: self.vault.after_payout(self.transfer_recipient(id), self.transfer_amount(id)),
            proposals: self.proposals.update(id - 1, self.proposal(id).approved()),
            ..self
        }
    }

    /// Why a deposit of `amount` by a caller holding `funds` is refused, if
    /// it is; the configured fee is charged on top.
    pub open spec fn deposit_error(self, amount: u64, funds: u64) -> Option<GovernanceError> {
        self.vault.deposit_error(amount, self.config.deposit_fee, funds)
    }

    /// The ledger entry an accepted deposit writes.
    pub open spec fn deposit_entry(self, depositor: IdentityKey, amount: u64) -> LedgerEntry {
        ledger_entry(
            self.vault.next_entry_id(),
            depositor,
            amount,
            self.config.deposit_fee,
            Direction::Inflow,
        )
    }

    pub open spec fn after_deposit(self, depositor: IdentityKey, amount: u64) -> GovernanceState {
        GovernanceState {
            vault: self.vault.after_deposit(depositor, amount, self.config.deposit_fee),
            ..self
        }
    }
}

/// One call into the engine, as a value: what the laws quantify over.
pub enum Operation {
    CreateMembershipProposal {
        caller: IdentityKey,
        change: MembershipChange,
        target: IdentityKey,
        name: String,
    },
    SignMembershipProposal { signer: IdentityKey, id: u64 },
    ApproveMembershipProposal { id: u64 },
    CreateTransferProposal { caller: IdentityKey, recipient: IdentityKey, amount: u64 },
    SignTransferProposal { signer: IdentityKey, id: u64 },
    ExecuteTransferProposal { id: u64 },
    Deposit { depositor: IdentityKey, amount: u64, funds: u64 },
}

impl GovernanceState {
    /// The state after `op`: unchanged where `op` is refused.
    pub open spec fn step(self, op: Operation) -> GovernanceState {
        match op {
            Operation::CreateMembershipProposal { caller, change, target, name } => {
                if self.create_membership_error(caller, change, target) is Some {
                    self
                } else {
                    self.with_new_proposal(membership_action(change, target, name))
                }
            },
            Operation::SignMembershipProposal { signer, id } => {
                if self.sign_error(signer, id, false) is Some {
                    self
                } else {
                    self.after_sign(signer, id)
                }
            },
            Operation::ApproveMembershipProposal { id } => {
                if self.approve_error(id) is Some {
                    self
                } else {
                    self.after_approve(id)
                }
            },
            Operation::CreateTransferProposal { caller, recipient, amount } => {
                if self.create_transfer_error(caller) is Some {
                    self
                } else {
                    self.with_new_proposal(ProposalAction::TransferAsset { recipient, amount })
                }
            },
            Operation::SignTransferProposal { signer, id } => {
                if self.sign_error(signer, id, true) is Some {
                    self
                } else {
                    self.after_sign(signer, id)
                }
            },
            Operation::ExecuteTransferProposal { id } => {
                if self.execute_error(id) is Some {
                    self
                } else {
                    self.after_execute(id)
                }
            },
            Operation::Deposit { depositor, amount, funds } => {
                if self.deposit_error(amount, funds) is Some {
                    self
                } else {
                    self.after_deposit(depositor, amount)
                }
            },
        }
    }
}

/// The governance engine.
#[derive(Debug)]
pub struct Governance {
    config: GovernanceConfig,
    registry: Registry,
    proposals: Vec<Proposal>,
    proposal_ids: IdAllocator,
    vault: Vault,
}

impl View for Governance {
    type V = GovernanceState;

    closed spec fn view(&self) -> GovernanceState {
        GovernanceState {
            config: self.config,
            members: self.registry@,
            proposals: self.proposals@.map_values(|p: Proposal| p@),
            vault: self.vault@,
        }
    }
}

impl Governance {
    /// The parts agree with each other: the registry's limit is the
    /// configured one, and each allocator has issued one id per record.
    pub closed spec fn parts_agree(&self) -> bool {
        &&& self.registry.wf()
        &&& self.registry.capacity() == self.config.max_members
        &&& self.vault.wf()
        &&& self.proposal_ids.last_issued == self.proposals@.len()
    }

    pub open spec fn wf(&self) -> bool {
        self.parts_agree() && self@.wf()
    }

    /// An engine with no members, no proposals, and an empty vault.
    pub fn new(config: GovernanceConfig) -> (g: Governance)
        ensures
            g.wf(),
            g@.config == config,
            g@.members == Seq::<Member>::empty(),
            g@.proposals == Seq::<ProposalView>::empty(),
            g@.vault.balance == 0,
            g@.vault.ledger == Seq::<LedgerEntry>::empty(),
    {
        let g = Governance {
            config,
            registry: Registry::new(config.max_members),
            proposals: Vec::new(),
            proposal_ids: IdAllocator::new(IdDomain::Proposals),
            vault: Vault::new(0),
        };
        assert(g@.proposals =~= Seq::<ProposalView>::empty());
        g
    }

    /// Rebuilds an engine from stored records, if they form a well-formed
    /// state: member keys unique and within the limit, proposal `i` with id
    /// `i + 1` and well-formed signatures no more than the member limit,
    /// ledger entry `i` with id `i + 1` and an amount whose sign matches
    /// its direction.
    pub fn restore(
        config: GovernanceConfig,
        members: Vec<Member>,
        proposals: Vec<Proposal>,
        balance: u64,
        ledger: Vec<LedgerEntry>,
    ) -> (r: Option<Governance>)
        ensures
            r is Some <==> (GovernanceState {
                config,
                members: members@,
                proposals: proposals@.map_values(|p: Proposal| p@),
                vault: VaultView { balance, ledger: ledger@ },
            }).wf(),
            r matches Some(g) ==> g.wf() && g@ == (GovernanceState {
                config,
                members: members@,
                proposals: proposals@.map_values(|p: Proposal| p@),
                vault: VaultView { balance, ledger: ledger@ },
            }),
    {
        let ghost target = GovernanceState {
            config,
            members: members@,
            proposals: proposals@.map_values(|p: Proposal| p@),
            vault: VaultView { balance, ledger: ledger@ },
        };
        let registry = match Registry::from_members(members, config.max_members) {
            None => return None,
            Some(registry) => registry,
        };
        let vault = match Vault::restore(balance, ledger) {
            None => return None,
            Some(vault) => vault,
        };
        let mut i: usize = 0;
        while i < proposals.len()
            invariant
                0 <= i <= proposals@.len(),
                target.proposals == proposals@.map_values(|p: Proposal| p@),
                forall|j: int|
                    0 <= j < i ==> (#[trigger] target.proposals[j]).id == j + 1
                        && target.proposals[j].wf() && target.proposals[j].signatures.len()
                        <= config.max_members,
            decreases proposals@.len() - i,
        {
            assert(target.proposals[i as int] == proposals@[i as int]@);
            if proposals[i].id != i as u64 + 1 || !proposals[i].is_well_formed()
                || proposals[i].signatures.len() > config.max_members {
                return None;
            }
            i = i + 1;
        }
        let count = proposals.len() as u64;
        let g = Governance {
            config,
            registry,
            proposals,
            proposal_ids: IdAllocator { domain: IdDomain::Proposals, last_issued: count },
            vault,
        };
        assert(g@.proposals =~= target.proposals);
        Some(g)
    }

    pub fn proposals(&self) -> (r: &Vec<Proposal>)
        ensures
            r@.map_values(|p: Proposal| p@) == self@.proposals,
    {
        &self.proposals
    }

    pub fn config(&self) -> (r: GovernanceConfig)
        ensures
            r == self@.config,
    {
        self.config
    }

    pub fn members(&self) -> (r: &Vec<Member>)
        ensures
            r@ == self@.members,
    {
        self.registry.list()
    }

    pub fn find_member(&self, key: &IdentityKey) -> (r: Option<&Member>)
        ensures
            r is None <==> !is_member(self@.members, *key),
            r matches Some(m) ==> m.key == *key && self@.members.contains(*m),
    {
        self.registry.find(key)
    }

    pub fn is_member(&self, key: &IdentityKey) -> (r: bool)
        ensures
            r == is_member(self@.members, *key),
    {
        self.registry.contains(key)
    }

    pub fn vault_balance(&self) -> (r: u64)
        ensures
            r == self@.vault.balance,
    {
        self.vault.balance()
    }

    pub fn ledger(&self) -> (r: &Vec<LedgerEntry>)
        ensures
            r@ == self@.vault.ledger,
    {
        self.vault.ledger()
    }

    pub fn proposal_count(&self) -> (r: usize)
        ensures
            r == self@.proposals.len(),
    {
        self.proposals.len()
    }

    /// The position of proposal `id` in the table, if there is one.
    fn index_of(&self, id: u64) -> (r: Option<usize>)
        ensures
            r is None <==> !self@.has_proposal(id),
            r matches Some(i) ==> i == id - 1 && i < self.proposals@.len(),
    {
        if id == 0 || id > self.proposals.len() as u64 {
            None
        } else {
            Some((id - 1) as usize)
        }
    }

    /// The proposal with `id`, if there is one.
    pub fn proposal(&self, id: u64) -> (r: Option<&Proposal>)
        ensures
            r is None <==> !self@.has_proposal(id),
            r matches Some(p) ==> p@ == self@.proposal(id),
    {
        match self.index_of(id) {
            None => None,
            Some(i) => Some(&self.proposals[i]),
        }
    }

    fn may_propose(&self, caller: &IdentityKey) -> (r: bool)
        requires
            self.wf(),
        ensures
            r == self@.may_propose(*caller),
    {
        !self.config.members_only_proposals || self.registry.len() == 0 || self.registry.contains(
            caller,
        )
    }

    /// Stores a new pending proposal for `action` whose required signers are
    /// the current members, and returns its id.
    fn open_proposal(&mut self, action: ProposalAction) -> (r: Result<u64, GovernanceError>)
        requires
            old(self).wf(),
        ensures
            final(self).wf(),
            old(self)@.proposals.len() >= u64::MAX ==> r == Err::<u64, GovernanceError>(
                GovernanceError::IdSpaceExhausted,
            ) && final(self)@ == old(self)@,
            old(self)@.proposals.len() < u64::MAX ==> r == Ok::<u64, GovernanceError>(
                old(self)@.next_proposal_id(),
            ) && final(self)@ == old(self)@.with_new_proposal(action),
    {
        let id = match self.proposal_ids.next_id() {
            None => return Err(GovernanceError::IdSpaceExhausted),
            Some(id) => id,
        };
        let required = self.registry.keys();
        let ghost before = self@;
        let p = Proposal::new(id, action, required);
        self.proposals.push(p);
        assert(self@.proposals =~= before.with_new_proposal(action).proposals);
        assert forall|i: int| 0 <= i < self@.proposals.len() implies (#[trigger] self@.proposals[
            i]).id == i + 1 && self@.proposals[i].wf()
            && self@.proposals[i].signatures.len() <= self@.config.max_members by {
            if i < before.proposals.len() {
                assert(self@.proposals[i] == before.proposals[i]);
            }
        }
        Ok(id)
    }

    /// Proposes registering `target` under `name`, or unregistering it, on
    /// behalf of `caller`. The required signers are the members now.
    pub fn create_membership_proposal(
        &mut self,
        caller: IdentityKey,
        change: MembershipChange,
        target: IdentityKey,
        name: String,
    ) -> (r: Result<u64, GovernanceError>)
        requires
            old(self).wf(),
        ensures
            final(self).wf(),
            final(self)@ == old(self)@.step(Operation::CreateMembershipProposal { caller, change, target, name }),
            old(self)@.create_membership_error(caller, change, target) matches Some(e) ==> r
                == Err::<u64, GovernanceError>(e) && final(self)@ == old(self)@,
            old(self)@.create_membership_error(caller, change, target) is None ==> r == Ok::<
                u64,
                GovernanceError,
            >(old(self)@.next_proposal_id()) && final(self)@ == old(self)@.with_new_proposal(
                membership_action(change, target, name),
            ),
    {
        if !self.may_propose(&caller) {
            return Err(GovernanceError::NotAMember);
        }
        let registered = self.registry.contains(&target);
        let action = match change {
            MembershipChange::Register => {
                if registered {
                    return Err(GovernanceError::AlreadyRegistered);
                }
                ProposalAction::Register { key: target, name }
            },
            MembershipChange::Unregister => {
                if !registered {
                    return Err(GovernanceError::NotRegistered);
                }
                ProposalAction::Unregister { key: target }
            },
        };
        self.open_proposal(action)
    }

    /// Proposes paying `amount` out of the vault to `recipient`, on behalf of
    /// `caller`. The required signers are the members now.
    pub fn create_transfer_proposal(
        &mut self,
        caller: IdentityKey,
        recipient: IdentityKey,
        amount: u64,
    ) -> (r: Result<u64, GovernanceError>)
        requires
            old(self).wf(),
        ensures
            final(self).wf(),
            final(self)@ == old(self)@.step(Operation::CreateTransferProposal { caller, recipient, amount }),
            old(self)@.create_transfer_error(caller) matches Some(e) ==> r == Err::<
                u64,
                GovernanceError,
            >(e) && final(self)@ == old(self)@,
            old(self)@.create_transfer_error(caller) is None ==> r == Ok::<u64, GovernanceError>(
                old(self)@.next_proposal_id(),
            ) && final(self)@ == old(self)@.with_new_proposal(
                ProposalAction::TransferAsset { recipient, amount },
            ),
    {
        if !self.may_propose(&caller) {
            return Err(GovernanceError::NotAMember);
        }
        self.open_proposal(ProposalAction::TransferAsset { recipient, amount })
    }

    /// Records `signer`'s signature on proposal `id` of the given kind.
    fn sign(&mut self, signer: IdentityKey, id: u64, transfer: bool) -> (r: Result<
        (),
        GovernanceError,
    >)
        requires
            old(self).wf(),
        ensures
            final(self).wf(),
            old(self)@.sign_error(signer, id, transfer) matches Some(e) ==> r == Err::<
                (),
                GovernanceError,
            >(e) && final(self)@ == old(self)@,
            old(self)@.sign_error(signer, id, transfer) is None ==> r is Ok && final(self)@
                == old(self)@.after_sign(signer, id),
    {
        let i = match self.index_of(id) {
            None => return Err(GovernanceError::ProposalNotFound),
            Some(i) => i,
        };
        let ghost before = self@;
        assert(self.proposals@[i as int]@ == before.proposal(id));
        if self.proposals[i].is_transfer() != transfer {
            return Err(GovernanceError::WrongProposalKind);
        }
        let r = self.proposals[i].record_signature(signer, self.config.max_members);
        assert(self@.proposals =~= before.proposals.update(i as int, self.proposals@[i as int]@));
        if r.is_ok() {
            assert(self@.proposals =~= before.after_sign(signer, id).proposals);
        } else {
            assert(self@.proposals =~= before.proposals);
        }
        assert forall|j: int| 0 <= j < self@.proposals.len() implies (#[trigger] self@.proposals[
            j]).id == j + 1 && self@.proposals[j].wf()
            && self@.proposals[j].signatures.len() <= self@.config.max_members by {
            if j != i {
                assert(self@.proposals[j] == before.proposals[j]);
            }
        }
        r
    }

    /// Records `signer`'s signature on membership proposal `id`.
    pub fn sign_membership_proposal(&mut self, signer: IdentityKey, id: u64) -> (r: Result<
        (),
        GovernanceError,
    >)
        requires
            old(self).wf(),
        ensures
            final(self).wf(),
            final(self)@ == old(self)@.step(Operation::SignMembershipProposal { signer, id }),
            old(self)@.sign_error(signer, id, false) matches Some(e) ==> r == Err::<
                (),
                GovernanceError,
            >(e) && final(self)@ == old(self)@,
            old(self)@.sign_error(signer, id, false) is None ==> r is Ok && final(self)@ == old(
                self,
            )@.after_sign(signer, id),
    {
        self.sign(signer, id, false)
    }

    /// Records `signer`'s signature on transfer proposal `id`.
    pub fn sign_transfer_proposal(&mut self, signer: IdentityKey, id: u64) -> (r: Result<
        (),
        GovernanceError,
    >)
        requires
            old(self).wf(),
        ensures
            final(self).wf(),
            final(self)@ == old(self)@.step(Operation::SignTransferProposal { signer, id }),
            old(self)@.sign_error(signer, id, true) matches Some(e) ==> r == Err::<
                (),
                GovernanceError,
            >(e) && final(self)@ == old(self)@,
            old(self)@.sign_error(signer, id, true) is None ==> r is Ok && final(self)@ == old(
                self,
            )@.after_sign(signer, id),
    {
        self.sign(signer, id, true)
    }

    /// Approves membership proposal `id` once every required signer has
    /// signed, applying its change to the registry.
    pub fn approve_membership_proposal(&mut self, id: u64) -> (r: Result<(), GovernanceError>)
        requires
            old(self).wf(),
        ensures
            final(self).wf(),
            final(self)@ == old(self)@.step(Operation::ApproveMembershipProposal { id }),
            old(self)@.approve_error(id) matches Some(e) ==> r == Err::<(), GovernanceError>(e)
                && final(self)@ == old(self)@,
            old(self)@.approve_error(id) is None ==> r is Ok && final(self)@ == old(
                self,
            )@.after_approve(id),
    {
        let i = match self.index_of(id) {
            None => return Err(GovernanceError::ProposalNotFound),
            Some(i) => i,
        };
        let ghost before = self@;
        assert(self.proposals@[i as int]@ == before.proposal(id));
        if self.proposals[i].is_transfer() {
            return Err(GovernanceError::WrongProposalKind);
        }
        if !self.proposals[i].is_pending() {
            return Err(GovernanceError::AlreadyProcessed);
        }
        if !self.proposals[i].quorum_reached() {
            return Err(GovernanceError::IncompleteSignatures);
        }
        match &self.proposals[i].action {
            ProposalAction::Register { key, name } => {
                if self.registry.contains(key) {
                    return Err(GovernanceError::AlreadyRegistered);
                }
                if self.registry.len() >= self.registry.max_members() {
                    return Err(GovernanceError::MemberLimitReached);
                }
                let member = Member::new(name.clone(), *key);
                self.registry.apply_register(member);
            },
            ProposalAction::Unregister { key } => {
                if !self.registry.contains(key) {
                    return Err(GovernanceError::NotRegistered);
                }
                let key = *key;
                self.registry.apply_remove(&key);
                proof {
                    let k = choose|k: int|
                        0 <= k < before.members.len() && (#[trigger] before.members[k]).key == key
                            && self.registry@ == before.members.remove(k);
                    assert(k == member_index(before.members, key));
                }
            },
            ProposalAction::TransferAsset { .. } => {},
        }
        assert(self@.members == apply_action(before.members, before.proposal(id).action));
        self.proposals[i].mark_approved();
        assert(self@.proposals =~= before.after_approve(id).proposals);
        assert forall|j: int| 0 <= j < self@.proposals.len() implies (#[trigger] self@.proposals[
            j]).id == j + 1 && self@.proposals[j].wf()
            && self@.proposals[j].signatures.len() <= self@.config.max_members by {
            if j != i {
                assert(self@.proposals[j] == before.proposals[j]);
            }
        }
        Ok(())
    }

    /// Executes transfer proposal `id` once every required signer has signed
    /// and the vault holds the amount: debits the vault, records the outflow,
    /// and returns the entry, which names whom to pay and how much.
    pub fn execute_transfer_proposal(&mut self, id: u64) -> (r: Result<
        LedgerEntry,
        GovernanceError,
    >)
        requires
            old(self).wf(),
        ensures
            final(self).wf(),
            final(self)@ == old(self)@.step(Operation::ExecuteTransferProposal { id }),
            old(self)@.execute_error(id) matches Some(e) ==> r == Err::<
                LedgerEntry,
                GovernanceError,
            >(e) && final(self)@ == old(self)@,
            old(self)@.execute_error(id) is None ==> r == Ok::<LedgerEntry, GovernanceError>(
                old(self)@.payout_entry(id),
            ) && final(self)@ == old(self)@.after_execute(id),
    {
        let i = match self.index_of(id) {
            None => return Err(GovernanceError::ProposalNotFound),
            Some(i) => i,
        };
        let ghost before = self@;
        assert(self.proposals@[i as int]@ == before.proposal(id));
        let (recipient, amount) = match self.proposals[i].action {
            ProposalAction::TransferAsset { recipient, amount } => (recipient, amount),
            _ => return Err(GovernanceError::WrongProposalKind),
        };
        if !self.proposals[i].is_pending() {
            return Err(GovernanceError::AlreadyProcessed);
        }
        if !self.proposals[i].quorum_reached() {
            return Err(GovernanceError::IncompleteSignatures);
        }
        let entry = match self.vault.pay_out(recipient, amount) {
            Err(e) => return Err(e),
            Ok(entry) => entry,
        };
        self.proposals[i].mark_approved();
        assert(self@.proposals =~= before.after_execute(id).proposals);
        assert forall|j: int| 0 <= j < self@.proposals.len() implies (#[trigger] self@.proposals[
            j]).id == j + 1 && self@.proposals[j].wf()
            && self@.proposals[j].signatures.len() <= self@.config.max_members by {
            if j != i {
                assert(self@.proposals[j] == before.proposals[j]);
            }
        }
        Ok(entry)
    }

    /// Takes `amount` into the vault from `depositor`, who holds `funds`,
    /// with the configured fee on top. Deposits need no proposal and no
    /// signature.
    pub fn deposit(&mut self, depositor: IdentityKey, amount: u64, funds: u64) -> (r: Result<
        LedgerEntry,
        GovernanceError,
    >)
        requires
            old(self).wf(),
        ensures
            final(self).wf(),
            final(self)@ == old(self)@.step(Operation::Deposit { depositor, amount, funds }),
            old(self)@.deposit_error(amount, funds) matches Some(e) ==> r == Err::<
                LedgerEntry,
                GovernanceError,
            >(e) && final(self)@ == old(self)@,
            old(self)@.deposit_error(amount, funds) is None ==> r == Ok::<
                LedgerEntry,
                GovernanceError,
            >(old(self)@.deposit_entry(depositor, amount)) && final(self)@ == old(
                self,
            )@.after_deposit(depositor, amount),
    {
        self.vault.deposit(depositor, amount, self.config.deposit_fee, funds)
    }
}

} // verus!
