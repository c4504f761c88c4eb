use miming_spoke::error::{ErrorKind, GovernanceError};
use miming_spoke::governance::{Governance, GovernanceConfig};
use miming_spoke::keys::IdentityKey;
use miming_spoke::proposal::{MembershipChange, ProposalAction, ProposalStatus};
use miming_spoke::vault::Direction;

fn key(b: u8) -> IdentityKey {
    IdentityKey::new([b; 32])
}

fn engine(max_members: usize, members_only: bool) -> Governance {
    Governance::new(GovernanceConfig { max_members, members_only_proposals: members_only, deposit_fee: 0 })
}

/// An engine whose registry holds the members `1..=n`, each added by a
/// fully signed proposal.
fn engine_with_members(n: u8) -> Governance {
    let mut g = engine(10, false);
    for k in 1..=n {
        let id = g
            .create_membership_proposal(key(1), MembershipChange::Register, key(k), format!("m{}", k))
            .unwrap();
        for s in 1..k {
            g.sign_membership_proposal(key(s), id).unwrap();
        }
        g.approve_membership_proposal(id).unwrap();
    }
    g
}

#[test]
fn approving_twice_is_a_state_error() {
    let mut g = engine(10, false);
    g.create_membership_proposal(key(1), MembershipChange::Register, key(1), "A".to_string())
        .unwrap();
    assert_eq!(g.approve_membership_proposal(1), Ok(()));
    let again = g.approve_membership_proposal(1);
    assert_eq!(again, Err(GovernanceError::AlreadyProcessed));
    assert_eq!(again.unwrap_err().kind(), ErrorKind::State);
    assert_eq!(g.members().len(), 1);
}

#[test]
fn signing_an_approved_proposal_is_refused() {
    let mut g = engine(10, false);
    g.create_membership_proposal(key(1), MembershipChange::Register, key(1), "A".to_string())
        .unwrap();
    g.approve_membership_proposal(1).unwrap();
    assert_eq!(g.sign_membership_proposal(key(1), 1), Err(GovernanceError::AlreadyProcessed));
    assert!(g.proposal(1).unwrap().signatures.is_empty());
}

#[test]
fn signing_twice_is_a_conflict() {
    let mut g = engine_with_members(2);
    let id = g
        .create_membership_proposal(key(1), MembershipChange::Register, key(3), "C".to_string())
        .unwrap();
    assert_eq!(g.sign_membership_proposal(key(2), id), Ok(()));
    let again = g.sign_membership_proposal(key(2), id);
    assert_eq!(again, Err(GovernanceError::AlreadySigned));
    assert_eq!(again.unwrap_err().kind(), ErrorKind::Conflict);
    assert_eq!(g.proposal(id).unwrap().signatures, vec![key(2)]);
}

#[test]
fn outsider_cannot_sign() {
    let mut g = engine_with_members(2);
    let id = g
        .create_membership_proposal(key(1), MembershipChange::Register, key(3), "C".to_string())
        .unwrap();
    let r = g.sign_membership_proposal(key(3), id);
    assert_eq!(r, Err(GovernanceError::NotARequiredSigner));
    assert_eq!(r.unwrap_err().kind(), ErrorKind::Authorization);
    assert!(g.proposal(id).unwrap().signatures.is_empty());
}

#[test]
fn anyone_may_sign_while_the_snapshot_is_empty() {
    let mut g = engine(10, false);
    g.create_membership_proposal(key(5), MembershipChange::Register, key(1), "A".to_string())
        .unwrap();
    assert_eq!(g.sign_membership_proposal(key(8), 1), Ok(()));
    assert_eq!(g.proposal(1).unwrap().signatures, vec![key(8)]);
    assert_eq!(g.approve_membership_proposal(1), Ok(()));
}

#[test]
fn approval_needs_every_required_signer() {
    let mut g = engine_with_members(3);
    let id = g
        .create_membership_proposal(key(1), MembershipChange::Register, key(4), "D".to_string())
        .unwrap();
    g.sign_membership_proposal(key(1), id).unwrap();
    g.sign_membership_proposal(key(3), id).unwrap();
    assert_eq!(g.approve_membership_proposal(id), Err(GovernanceError::IncompleteSignatures));
    g.sign_membership_proposal(key(2), id).unwrap();
    assert_eq!(g.approve_membership_proposal(id), Ok(()));
    assert!(g.is_member(&key(4)));
}

#[test]
fn snapshot_ignores_later_registry_changes() {
    let mut g = engine_with_members(1);
    let first = g
        .create_membership_proposal(key(1), MembershipChange::Register, key(2), "B".to_string())
        .unwrap();
    let second = g
        .create_membership_proposal(key(1), MembershipChange::Register, key(3), "C".to_string())
        .unwrap();
    g.sign_membership_proposal(key(1), first).unwrap();
    g.approve_membership_proposal(first).unwrap();
    assert_eq!(g.proposal(second).unwrap().required_signers, vec![key(1)]);
    assert_eq!(g.sign_membership_proposal(key(2), second), Err(GovernanceError::NotARequiredSigner));
    g.sign_membership_proposal(key(1), second).unwrap();
    assert_eq!(g.approve_membership_proposal(second), Ok(()));
    assert_eq!(g.members().len(), 3);
}

#[test]
fn unregister_removes_the_member() {
    let mut g = engine_with_members(2);
    let id = g
        .create_membership_proposal(key(1), MembershipChange::Unregister, key(2), String::new())
        .unwrap();
    assert_eq!(
        g.proposal(id).unwrap().action,
        ProposalAction::Unregister { key: key(2) }
    );
    g.sign_membership_proposal(key(1), id).unwrap();
    g.sign_membership_proposal(key(2), id).unwrap();
    assert_eq!(g.approve_membership_proposal(id), Ok(()));
    assert!(!g.is_member(&key(2)));
    assert!(g.find_member(&key(2)).is_none());
    assert_eq!(g.find_member(&key(1)).unwrap().name, "m1");
}

#[test]
fn unregistering_a_stranger_is_refused() {
    let mut g = engine_with_members(1);
    let r = g.create_membership_proposal(key(1), MembershipChange::Unregister, key(9), String::new());
    assert_eq!(r, Err(GovernanceError::NotRegistered));
    assert_eq!(r.unwrap_err().kind(), ErrorKind::Validation);
    assert_eq!(g.proposal_count(), 1);
}

#[test]
fn unregister_fails_at_approval_once_the_member_is_gone() {
    let mut g = engine_with_members(2);
    let a = g
        .create_membership_proposal(key(1), MembershipChange::Unregister, key(2), String::new())
        .unwrap();
    let b = g
        .create_membership_proposal(key(1), MembershipChange::Unregister, key(2), String::new())
        .unwrap();
    for id in [a, b] {
        g.sign_membership_proposal(key(1), id).unwrap();
        g.sign_membership_proposal(key(2), id).unwrap();
    }
    g.approve_membership_proposal(a).unwrap();
    assert_eq!(g.approve_membership_proposal(b), Err(GovernanceError::NotRegistered));
    assert_eq!(g.proposal(b).unwrap().status, ProposalStatus::Pending);
}

#[test]
fn registering_a_member_twice_is_refused() {
    let mut g = engine_with_members(1);
    let r = g.create_membership_proposal(key(1), MembershipChange::Register, key(1), "A".to_string());
    assert_eq!(r, Err(GovernanceError::AlreadyRegistered));
}

#[test]
fn duplicate_registration_fails_at_approval() {
    let mut g = engine(10, false);
    g.create_membership_proposal(key(1), MembershipChange::Register, key(1), "A".to_string())
        .unwrap();
    g.create_membership_proposal(key(1), MembershipChange::Register, key(1), "A2".to_string())
        .unwrap();
    g.approve_membership_proposal(1).unwrap();
    assert_eq!(g.approve_membership_proposal(2), Err(GovernanceError::AlreadyRegistered));
    assert_eq!(g.members().len(), 1);
    assert_eq!(g.members()[0].name, "A");
}

#[test]
fn member_limit_is_enforced_at_approval() {
    let mut g = engine(1, false);
    g.create_membership_proposal(key(1), MembershipChange::Register, key(1), "A".to_string())
        .unwrap();
    g.approve_membership_proposal(1).unwrap();
    g.create_membership_proposal(key(1), MembershipChange::Register, key(2), "B".to_string())
        .unwrap();
    g.sign_membership_proposal(key(1), 2).unwrap();
    let r = g.approve_membership_proposal(2);
    assert_eq!(r, Err(GovernanceError::MemberLimitReached));
    assert_eq!(r.unwrap_err().kind(), ErrorKind::Validation);
    assert_eq!(g.members().len(), 1);
}

#[test]
fn members_only_creation_rejects_outsiders() {
    let mut g = engine(10, true);
    // While the registry is empty anyone may propose.
    g.create_membership_proposal(key(5), MembershipChange::Register, key(1), "A".to_string())
        .unwrap();
    g.approve_membership_proposal(1).unwrap();
    let r = g.create_membership_proposal(key(5), MembershipChange::Register, key(2), "B".to_string());
    assert_eq!(r, Err(GovernanceError::NotAMember));
    assert_eq!(r.unwrap_err().kind(), ErrorKind::Authorization);
    assert_eq!(g.create_transfer_proposal(key(5), key(5), 1), Err(GovernanceError::NotAMember));
    assert_eq!(
        g.create_membership_proposal(key(1), MembershipChange::Register, key(2), "B".to_string()),
        Ok(2)
    );
}

#[test]
fn unknown_proposal_is_not_found() {
    let mut g = engine(10, false);
    assert_eq!(g.approve_membership_proposal(1), Err(GovernanceError::ProposalNotFound));
    assert_eq!(g.approve_membership_proposal(0), Err(GovernanceError::ProposalNotFound));
    assert_eq!(g.sign_membership_proposal(key(1), 4), Err(GovernanceError::ProposalNotFound));
    assert_eq!(g.execute_transfer_proposal(2), Err(GovernanceError::ProposalNotFound));
    assert!(g.proposal(1).is_none());
}

#[test]
fn pipelines_do_not_mix() {
    let mut g = engine(10, false);
    g.create_transfer_proposal(key(1), key(2), 5).unwrap();
    g.create_membership_proposal(key(1), MembershipChange::Register, key(1), "A".to_string())
        .unwrap();
    assert_eq!(g.approve_membership_proposal(1), Err(GovernanceError::WrongProposalKind));
    assert_eq!(g.sign_membership_proposal(key(1), 1), Err(GovernanceError::WrongProposalKind));
    assert_eq!(g.execute_transfer_proposal(2), Err(GovernanceError::WrongProposalKind));
    assert_eq!(g.sign_transfer_proposal(key(1), 2), Err(GovernanceError::WrongProposalKind));
}

#[test]
fn executed_transfer_debits_by_its_amount() {
    let mut g = engine_with_members(2);
    g.deposit(key(7), 1000, 5000).unwrap();
    let id = g.create_transfer_proposal(key(1), key(9), 400).unwrap();
    assert_eq!(
        g.proposal(id).unwrap().action,
        ProposalAction::TransferAsset { recipient: key(9), amount: 400 }
    );
    g.sign_transfer_proposal(key(1), id).unwrap();
    assert_eq!(g.execute_transfer_proposal(id), Err(GovernanceError::IncompleteSignatures));
    g.sign_transfer_proposal(key(2), id).unwrap();
    let entry = g.execute_transfer_proposal(id).unwrap();
    assert_eq!(g.vault_balance(), 600);
    assert_eq!(entry.id, 2);
    assert_eq!(entry.counterparty, key(9));
    assert_eq!(entry.amount, -400);
    assert_eq!(entry.direction, Direction::Outflow);
    assert_eq!(g.ledger().len(), 2);
    assert_eq!(g.ledger()[1], entry);
    assert_eq!(g.proposal(id).unwrap().status, ProposalStatus::Approved);
    assert_eq!(g.execute_transfer_proposal(id), Err(GovernanceError::AlreadyProcessed));
    assert_eq!(g.vault_balance(), 600);
}

#[test]
fn transfer_of_whole_balance_empties_the_vault() {
    let mut g = engine(10, false);
    g.deposit(key(7), 250, 250).unwrap();
    let id = g.create_transfer_proposal(key(1), key(9), 250).unwrap();
    let entry = g.execute_transfer_proposal(id).unwrap();
    assert_eq!(entry.amount, -250);
    assert_eq!(g.vault_balance(), 0);
}

#[test]
fn deposit_needs_no_proposal() {
    let mut g = engine_with_members(3);
    let proposals = g.proposal_count();
    let entry = g.deposit(key(42), 300, 300).unwrap();
    assert_eq!(entry.id, 1);
    assert_eq!(entry.counterparty, key(42));
    assert_eq!(entry.amount, 300);
    assert_eq!(entry.direction, Direction::Inflow);
    assert_eq!(g.vault_balance(), 300);
    assert_eq!(g.ledger().to_vec(), vec![entry]);
    assert_eq!(g.proposal_count(), proposals);
    let second = g.deposit(key(43), 0, 0).unwrap();
    assert_eq!(second.id, 2);
    assert_eq!(second.amount, 0);
}

#[test]
fn deposit_beyond_funds_is_refused() {
    let mut g = engine(10, false);
    let r = g.deposit(key(1), 101, 100);
    assert_eq!(r, Err(GovernanceError::InsufficientFunds));
    assert_eq!(r.unwrap_err().kind(), ErrorKind::Resource);
    assert_eq!(g.vault_balance(), 0);
    assert!(g.ledger().is_empty());
}

#[test]
fn deposit_past_the_largest_balance_is_refused() {
    let mut g = engine(10, false);
    g.deposit(key(1), u64::MAX, u64::MAX).unwrap();
    assert_eq!(g.deposit(key(1), 1, 1), Err(GovernanceError::BalanceOverflow));
    assert_eq!(g.vault_balance(), u64::MAX);
    assert_eq!(g.ledger().len(), 1);
    assert_eq!(g.ledger()[0].amount, u64::MAX as i128);
}

#[test]
fn proposal_ids_are_shared_and_increasing() {
    let mut g = engine(10, false);
    assert_eq!(g.create_transfer_proposal(key(1), key(2), 1), Ok(1));
    assert_eq!(
        g.create_membership_proposal(key(1), MembershipChange::Register, key(1), "A".to_string()),
        Ok(2)
    );
    assert_eq!(g.create_transfer_proposal(key(1), key(2), 1), Ok(3));
    for id in 1..=3u64 {
        assert_eq!(g.proposal(id).unwrap().id, id);
    }
}

#[test]
fn empty_snapshot_still_bounds_signatures() {
    let mut g = engine(2, false);
    g.create_membership_proposal(key(1), MembershipChange::Register, key(1), "A".to_string())
        .unwrap();
    assert_eq!(g.sign_membership_proposal(key(7), 1), Ok(()));
    assert_eq!(g.sign_membership_proposal(key(8), 1), Ok(()));
    let r = g.sign_membership_proposal(key(9), 1);
    assert_eq!(r, Err(GovernanceError::SignatureLimitReached));
    assert_eq!(r.unwrap_err().kind(), ErrorKind::Validation);
    assert_eq!(g.proposal(1).unwrap().signatures, vec![key(7), key(8)]);
    assert_eq!(g.approve_membership_proposal(1), Ok(()));
}

#[test]
fn deposit_fee_goes_into_the_vault() {
    let mut g = Governance::new(GovernanceConfig {
        max_members: 10,
        members_only_proposals: false,
        deposit_fee: 10,
    });
    assert_eq!(g.deposit(key(3), 100, 109), Err(GovernanceError::InsufficientFunds));
    assert_eq!(g.vault_balance(), 0);
    let entry = g.deposit(key(3), 100, 110).unwrap();
    assert_eq!(entry.amount, 100);
    assert_eq!(entry.fee, 10);
    assert_eq!(g.vault_balance(), 110);
    let id = g.create_transfer_proposal(key(3), key(4), 110).unwrap();
    let out = g.execute_transfer_proposal(id).unwrap();
    assert_eq!((out.amount, out.fee), (-110, 0));
    assert_eq!(g.vault_balance(), 0);
}
