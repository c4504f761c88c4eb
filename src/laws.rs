//! What holds of every run of the engine, stated over its mathematical state
//! and proved from the definitions that the operations' contracts use.
use vstd::prelude::*;
use crate::keys::IdentityKey;
use crate::error::{ErrorKind, GovernanceError, kind_of};
use crate::registry::{Member, is_member, keys_unique, member_keys};
use crate::consensus::quorum;
use crate::proposal::{ProposalAction, ProposalStatus, ProposalView};
use crate::vault::{Direction, amount_matches_direction};
use crate::governance::{GovernanceState, Operation, apply_action, member_index};

verus! {

/// Pushing a key that is absent keeps a sequence free of duplicates.
proof fn lemma_push_distinct(s: Seq<IdentityKey>, k: IdentityKey)
    requires
        s.no_duplicates(),
        !s.contains(k),
    ensures
        s.push(k).no_duplicates(),
{
    let t = s.push(k);
    assert forall|i: int, j: int| 0 <= i < t.len() && 0 <= j < t.len() && i != j implies t[i]
        != t[j] by {
        if i == s.len() {
            assert(s.contains(s[j]));
        } else if j == s.len() {
            assert(s.contains(s[i]));
        } else {
            assert(t[i] == s[i] && t[j] == s[j]);
        }
    }
}

/// Registering a new key, or removing a present one, keeps keys unique.
proof fn lemma_apply_action_unique(s: GovernanceState, action: ProposalAction)
    requires
        s.wf(),
        s.action_error(action) is None,
    ensures
        keys_unique(apply_action(s.members, action)),
        apply_action(s.members, action).len() <= s.config.max_members,
        action matches ProposalAction::Register { key, name } ==> apply_action(s.members, action)
            == s.members.push(Member { name, key }),
        action matches ProposalAction::Unregister { key } ==> !is_member(
            apply_action(s.members, action),
            key,
        ),
{
    let m = s.members;
    match action {
        ProposalAction::Register { key, name } => {
            let t = m.push(Member { name, key });
            assert forall|i: int, j: int|
                0 <= i < t.len() && 0 <= j < t.len() && i != j implies (#[trigger] t[i]).key != (
                #[trigger] t[j]).key by {
                if i == m.len() {
                    assert(t[j] == m[j]);
                } else if j == m.len() {
                    assert(t[i] == m[i]);
                } else {
                    assert(t[i] == m[i] && t[j] == m[j]);
                }
            }
        },
        ProposalAction::Unregister { key } => {
            let k = member_index(m, key);
            assert(0 <= k < m.len() && m[k].key == key);
            let t = m.remove(k);
            assert forall|a: int, b: int|
                0 <= a < t.len() && 0 <= b < t.len() && a != b implies (#[trigger] t[a]).key != (
                #[trigger] t[b]).key by {
                let oa = if a < k { a } else { a + 1 };
                let ob = if b < k { b } else { b + 1 };
                assert(t[a] == m[oa] && t[b] == m[ob]);
            }
            assert forall|a: int| 0 <= a < t.len() implies (#[trigger] t[a]).key != key by {
                let oa = if a < k { a } else { a + 1 };
                assert(t[a] == m[oa]);
            }
        },
        ProposalAction::TransferAsset { .. } => {},
    }
}

/// Replacing proposal `id` by one with the same id keeps ids in place.
proof fn lemma_update_proposal(s: GovernanceState, id: u64, p: ProposalView)
    requires
        s.wf(),
        s.has_proposal(id),
        p.id == id,
        p.wf(),
        p.signatures.len() <= s.config.max_members,
    ensures
        forall|i: int|
            0 <= i < s.proposals.update(id - 1, p).len() ==> (#[trigger] s.proposals.update(
                id - 1,
                p,
            )[i]).id == i + 1 && s.proposals.update(id - 1, p)[i].wf() && s.proposals.update(
                id - 1,
                p,
            )[i].signatures.len() <= s.config.max_members,
{
    let t = s.proposals.update(id - 1, p);
    assert forall|i: int| 0 <= i < t.len() implies (#[trigger] t[i]).id == i + 1 && t[i].wf()
        && t[i].signatures.len() <= s.config.max_members by {
        if i != id - 1 {
            assert(t[i] == s.proposals[i]);
        }
    }
}

/// Every operation keeps the state well formed: among other things, no
/// key appears twice among a proposal's signatures, member keys stay unique
/// and within the limit, and ids stay in step with positions.
pub proof fn every_step_preserves_wf(s: GovernanceState, op: Operation)
    requires
        s.wf(),
    ensures
        s.step(op).wf(),
{
    match op {
        Operation::CreateMembershipProposal { caller, change, target, name } => {
            if s.create_membership_error(caller, change, target) is None {
                lemma_new_proposal_wf(s, crate::governance::membership_action(change, target, name));
            }
        },
        Operation::CreateTransferProposal { caller, recipient, amount } => {
            if s.create_transfer_error(caller) is None {
                lemma_new_proposal_wf(s, ProposalAction::TransferAsset { recipient, amount });
            }
        },
        Operation::SignMembershipProposal { signer, id } => {
            if s.sign_error(signer, id, false) is None {
                lemma_sign_wf(s, signer, id);
            }
        },
        Operation::SignTransferProposal { signer, id } => {
            if s.sign_error(signer, id, true) is None {
                lemma_sign_wf(s, signer, id);
            }
        },
        Operation::ApproveMembershipProposal { id } => {
            if s.approve_error(id) is None {
                lemma_apply_action_unique(s, s.proposal(id).action);
                lemma_update_proposal(s, id, s.proposal(id).approved());
            }
        },
        Operation::ExecuteTransferProposal { id } => {
            if s.execute_error(id) is None {
                lemma_update_proposal(s, id, s.proposal(id).approved());
                let v = s.after_execute(id).vault;
                assert forall|i: int| 0 <= i < v.ledger.len() implies (#[trigger] v.ledger[i]).id
                    == i + 1 && amount_matches_direction(v.ledger[i]) by {
                    if i < s.vault.ledger.len() {
                        assert(v.ledger[i] == s.vault.ledger[i]);
                    }
                }
            }
        },
        Operation::Deposit { depositor, amount, funds } => {
            if s.deposit_error(amount, funds) is None {
                let v = s.after_deposit(depositor, amount).vault;
                assert forall|i: int| 0 <= i < v.ledger.len() implies (#[trigger] v.ledger[i]).id
                    == i + 1 && amount_matches_direction(v.ledger[i]) by {
                    if i < s.vault.ledger.len() {
                        assert(v.ledger[i] == s.vault.ledger[i]);
                    }
                }
            }
        },
    }
}

proof fn lemma_new_proposal_wf(s: GovernanceState, action: ProposalAction)
    requires
        s.wf(),
        s.proposals.len() < u64::MAX,
    ensures
        s.with_new_proposal(action).wf(),
{
    let t = s.with_new_proposal(action).proposals;
    assert forall|i: int| 0 <= i < t.len() implies (#[trigger] t[i]).id == i + 1 && t[i].wf()
        && t[i].signatures.len() <= s.config.max_members by {
        if i < s.proposals.len() {
            assert(t[i] == s.proposals[i]);
        }
    }
}

proof fn lemma_sign_wf(s: GovernanceState, signer: IdentityKey, id: u64)
    requires
        s.wf(),
        s.has_proposal(id),
        s.proposal(id).sign_error(signer, s.config.max_members as nat) is None,
    ensures
        s.after_sign(signer, id).wf(),
{
    let p = s.proposal(id);
    assert(p.wf());
    lemma_push_distinct(p.signatures, signer);
    let q = p.with_signature(signer);
    assert forall|i: int| 0 <= i < q.signatures.len() && q.required_signers.len() > 0 implies q.required_signers.contains(
        #[trigger] q.signatures[i],
    ) by {
        if i < p.signatures.len() {
            assert(q.signatures[i] == p.signatures[i]);
        }
    }
    lemma_update_proposal(s, id, q);
}

/// Once approved, a proposal never changes again, whatever operation comes.
pub proof fn approval_is_final(s: GovernanceState, op: Operation, id: u64)
    requires
        s.wf(),
        s.has_proposal(id),
        s.proposal(id).status == ProposalStatus::Approved,
    ensures
        s.step(op).has_proposal(id),
        s.step(op).proposal(id) == s.proposal(id),
{
    match op {
        Operation::CreateMembershipProposal { caller, change, target, name } => {
            let t = s.step(op);
            assert(t.proposals.len() >= s.proposals.len());
            assert(t.proposals[id - 1] == s.proposals[id - 1]);
        },
        Operation::CreateTransferProposal { caller, recipient, amount } => {
            let t = s.step(op);
            assert(t.proposals.len() >= s.proposals.len());
            assert(t.proposals[id - 1] == s.proposals[id - 1]);
        },
        Operation::SignMembershipProposal { signer, id: other } => {
            if other != id && s.sign_error(signer, other, false) is None {
                assert(s.step(op).proposals[id - 1] == s.proposals[id - 1]);
            }
        },
        Operation::SignTransferProposal { signer, id: other } => {
            if other != id && s.sign_error(signer, other, true) is None {
                assert(s.step(op).proposals[id - 1] == s.proposals[id - 1]);
            }
        },
        Operation::ApproveMembershipProposal { id: other } => {
            if other != id && s.approve_error(other) is None {
                assert(s.step(op).proposals[id - 1] == s.proposals[id - 1]);
            }
        },
        Operation::ExecuteTransferProposal { id: other } => {
            if other != id && s.execute_error(other) is None {
                assert(s.step(op).proposals[id - 1] == s.proposals[id - 1]);
            }
        },
        Operation::Deposit { .. } => {},
    }
}

/// A second approval of an approved membership proposal fails with a state
/// error, and so does a second execution of an executed transfer.
pub proof fn approving_twice_fails(s: GovernanceState, id: u64)
    requires
        s.wf(),
    ensures
        s.approve_error(id) is None ==> s.after_approve(id).approve_error(id) == Some(
            GovernanceError::AlreadyProcessed,
        ),
        s.execute_error(id) is None ==> s.after_execute(id).execute_error(id) == Some(
            GovernanceError::AlreadyProcessed,
        ),
        kind_of(GovernanceError::AlreadyProcessed) == ErrorKind::State,
{
}

/// Signing the same proposal twice fails with a conflict, and a key never
/// appears twice among a proposal's signatures.
pub proof fn signing_twice_fails(s: GovernanceState, signer: IdentityKey, id: u64, transfer: bool)
    requires
        s.wf(),
    ensures
        s.sign_error(signer, id, transfer) is None ==> s.after_sign(signer, id).sign_error(
            signer,
            id,
            transfer,
        ) == Some(GovernanceError::AlreadySigned),
        kind_of(GovernanceError::AlreadySigned) == ErrorKind::Conflict,
        s.has_proposal(id) ==> s.proposal(id).signatures.no_duplicates(),
{
    if s.sign_error(signer, id, transfer) is None {
        let t = s.after_sign(signer, id);
        assert(t.proposal(id).signatures.last() == signer);
        assert(t.proposal(id).signatures.contains(signer));
    }
    if s.has_proposal(id) {
        assert(s.proposals[id - 1].wf());
    }
}

/// A pending membership proposal whose change the registry can take is
/// approved exactly when its required signers are all among its
/// signatures; with no required signers it is approved at once.
pub proof fn approval_iff_quorum(s: GovernanceState, id: u64)
    requires
        s.wf(),
        s.has_proposal(id),
        !s.proposal(id).is_transfer(),
        s.proposal(id).status == ProposalStatus::Pending,
        s.action_error(s.proposal(id).action) is None,
    ensures
        s.approve_error(id) is None <==> quorum(
            s.proposal(id).required_signers,
            s.proposal(id).signatures,
        ),
        s.proposal(id).required_signers.len() == 0 ==> s.approve_error(id) is None,
{
    if s.proposal(id).required_signers.len() == 0 {
        assert(s.proposal(id).required_signers.to_set() =~= Set::<IdentityKey>::empty());
    }
}

/// An approved registration leaves the key registered under the proposed
/// name; an approved removal leaves the key unregistered.
pub proof fn approved_change_takes_effect(s: GovernanceState, id: u64)
    requires
        s.wf(),
        s.approve_error(id) is None,
    ensures
        s.proposal(id).action matches ProposalAction::Register { key, name } ==> s.after_approve(
            id,
        ).members.contains(Member { name, key }) && is_member(s.after_approve(id).members, key),
        s.proposal(id).action matches ProposalAction::Unregister { key } ==> !is_member(
            s.after_approve(id).members,
            key,
        ),
        s.proposal(id).action matches ProposalAction::Unregister { key } ==> forall|m: Member|
            #[trigger] s.after_approve(id).members.contains(m) <==> s.members.contains(m) && m.key
                != key,
        s.proposal(id).action matches ProposalAction::Unregister { key } ==> s.after_approve(
            id,
        ).members.len() == s.members.len() - 1,
{
    lemma_apply_action_unique(s, s.proposal(id).action);
    if let ProposalAction::Unregister { key } = s.proposal(id).action {
        let m = s.members;
        let k = member_index(m, key);
        assert(0 <= k < m.len() && m[k].key == key);
        let t = s.after_approve(id).members;
        assert(t == m.remove(k));
        assert forall|x: Member| #[trigger] t.contains(x) <==> m.contains(x) && x.key != key by {
            if t.contains(x) {
                let a = choose|a: int| 0 <= a < t.len() && t[a] == x;
                let oa = if a < k { a } else { a + 1 };
                assert(t[a] == m[oa]);
                assert(!is_member(t, key));
            }
            if m.contains(x) && x.key != key {
                let b = choose|b: int| 0 <= b < m.len() && m[b] == x;
                assert(b != k);
                let tb = if b < k { b } else { b - 1 };
                assert(t[tb] == x);
            }
        }
    }
    if let ProposalAction::Register { key, name } = s.proposal(id).action {
        let t = s.after_approve(id).members;
        assert(t[t.len() - 1] == Member { name, key });
        assert(t.contains(Member { name, key }));
    }
}

/// An executed transfer lowers the vault balance by exactly its amount; a
/// transfer larger than the balance is refused and leaves the balance as it
/// was, with an insufficient-balance error once it is pending and signed.
pub proof fn execution_debits_exactly(s: GovernanceState, id: u64)
    requires
        s.wf(),
    ensures
        s.execute_error(id) is None ==> s.after_execute(id).vault.balance == s.vault.balance
            - s.transfer_amount(id),
        s.has_proposal(id) && s.proposal(id).is_transfer() && s.transfer_amount(id)
            > s.vault.balance ==> s.execute_error(id) is Some && s.step(
            Operation::ExecuteTransferProposal { id },
        ).vault.balance == s.vault.balance,
        s.has_proposal(id) && s.proposal(id).is_transfer() && s.proposal(id).status
            == ProposalStatus::Pending && s.proposal(id).has_quorum() && s.transfer_amount(id)
            > s.vault.balance ==> s.execute_error(id) == Some(GovernanceError::InsufficientBalance),
        kind_of(GovernanceError::InsufficientBalance) == ErrorKind::Resource,
{
}

/// A pending transfer that the vault can cover is executed exactly when all
/// its required signers have signed, at once where there are none;
/// otherwise it is refused with a quorum error and nothing changes. Left
/// out: a ledger whose ids are used up.
pub proof fn execution_iff_quorum(s: GovernanceState, id: u64)
    requires
        s.wf(),
        s.has_proposal(id),
        s.proposal(id).is_transfer(),
        s.proposal(id).status == ProposalStatus::Pending,
        s.transfer_amount(id) <= s.vault.balance,
        s.vault.ledger.len() < u64::MAX,
    ensures
        s.execute_error(id) is None <==> quorum(
            s.proposal(id).required_signers,
            s.proposal(id).signatures,
        ),
        !s.proposal(id).has_quorum() ==> s.execute_error(id) == Some(
            GovernanceError::IncompleteSignatures,
        ) && s.step(Operation::ExecuteTransferProposal { id }) == s,
        s.proposal(id).required_signers.len() == 0 ==> s.execute_error(id) is None,
        kind_of(GovernanceError::IncompleteSignatures) == ErrorKind::Quorum,
{
    if s.proposal(id).required_signers.len() == 0 {
        assert(s.proposal(id).required_signers.to_set() =~= Set::<IdentityKey>::empty());
    }
}

/// A deposit by a caller who holds the amount and the fee succeeds, whoever
/// the caller is and whatever the registry and the proposals hold, without
/// any proposal or signature. It leaves members and proposals alone, raises
/// the balance by the amount and the fee, and appends one inflow entry for
/// the amount under the next ledger id. Left out: a deposit that would push
/// the balance past `u64::MAX`, and a ledger whose ids are used up.
pub proof fn deposit_is_ungated(
    s: GovernanceState,
    depositor: IdentityKey,
    amount: u64,
    funds: u64,
)
    requires
        s.wf(),
        funds >= amount + s.config.deposit_fee,
        s.vault.balance + amount + s.config.deposit_fee <= u64::MAX,
        s.vault.ledger.len() < u64::MAX,
    ensures
        s.deposit_error(amount, funds) is None,
        s.step(Operation::Deposit { depositor, amount, funds }).members == s.members,
        s.step(Operation::Deposit { depositor, amount, funds }).proposals == s.proposals,
        s.step(Operation::Deposit { depositor, amount, funds }).vault.balance == s.vault.balance
            + amount + s.config.deposit_fee,
        s.step(Operation::Deposit { depositor, amount, funds }).vault.ledger == s.vault.ledger.push(
            s.deposit_entry(depositor, amount),
        ),
        s.deposit_entry(depositor, amount).id == s.vault.ledger.len() + 1,
        s.deposit_entry(depositor, amount).counterparty == depositor,
        s.deposit_entry(depositor, amount).amount == amount,
        s.deposit_entry(depositor, amount).fee == s.config.deposit_fee,
        s.deposit_entry(depositor, amount).direction == Direction::Inflow,
{
}

/// A deposit that the caller cannot cover, amount and fee together, is
/// refused with a resource error.
pub proof fn deposit_beyond_funds_fails(s: GovernanceState, amount: u64, funds: u64)
    requires
        funds < amount + s.config.deposit_fee,
    ensures
        s.deposit_error(amount, funds) == Some(GovernanceError::InsufficientFunds),
        kind_of(GovernanceError::InsufficientFunds) == ErrorKind::Resource,
{
}

/// A proposal that an operation creates starts pending, unsigned, with the
/// current member keys as its required signers and the next id.
pub proof fn proposals_begin_pending(s: GovernanceState, op: Operation)
    requires
        s.wf(),
    ensures
        s.step(op).proposals.len() > s.proposals.len() ==> {
            let p = s.step(op).proposals.last();
            &&& s.step(op).proposals.len() == s.proposals.len() + 1
            &&& p.id == s.proposals.len() + 1
            &&& p.status == ProposalStatus::Pending
            &&& p.signatures.len() == 0
            &&& p.required_signers == member_keys(s.members)
        },
{
}

/// No operation changes an existing proposal's id, action or required
/// signers: the snapshot taken at creation is immune to later changes of
/// the registry.
pub proof fn snapshot_is_fixed(s: GovernanceState, op: Operation, id: u64)
    requires
        s.wf(),
        s.has_proposal(id),
    ensures
        s.step(op).has_proposal(id),
        s.step(op).proposal(id).id == s.proposal(id).id,
        s.step(op).proposal(id).action == s.proposal(id).action,
        s.step(op).proposal(id).required_signers == s.proposal(id).required_signers,
{
    let t = s.step(op);
    match op {
        Operation::CreateMembershipProposal { .. } => {
            assert(t.proposals[id - 1] == s.proposals[id - 1]);
        },
        Operation::CreateTransferProposal { .. } => {
            assert(t.proposals[id - 1] == s.proposals[id - 1]);
        },
        _ => {},
    }
}

} // verus!
