use miming_spoke::governance::{Governance, GovernanceConfig};
use miming_spoke::keys::IdentityKey;
use miming_spoke::proposal::{Proposal, ProposalAction, ProposalStatus};
use miming_spoke::registry::Member;
use miming_spoke::vault::{Direction, LedgerEntry};

fn key(b: u8) -> IdentityKey {
    IdentityKey::new([b; 32])
}

fn config() -> GovernanceConfig {
    GovernanceConfig { max_members: 3, members_only_proposals: false, deposit_fee: 0 }
}

fn register(id: u64, k: u8, required: Vec<IdentityKey>) -> Proposal {
    Proposal::new(id, ProposalAction::Register { key: key(k), name: format!("m{}", k) }, required)
}

fn inflow(id: u64, amount: u64) -> LedgerEntry {
    LedgerEntry { id, counterparty: key(7), amount: amount as i128, fee: 0, direction: Direction::Inflow }
}

#[test]
fn restored_engine_continues_where_it_stopped() {
    let members = vec![Member::new("m1".to_string(), key(1))];
    let proposals = vec![register(1, 1, vec![]), register(2, 2, vec![key(1)])];
    let mut g = Governance::restore(config(), members, proposals, 50, vec![inflow(1, 50)]).unwrap();
    assert_eq!(g.vault_balance(), 50);
    assert_eq!(g.proposals().len(), 2);
    g.sign_membership_proposal(key(1), 2).unwrap();
    g.approve_membership_proposal(2).unwrap();
    assert!(g.is_member(&key(2)));
    assert_eq!(g.create_transfer_proposal(key(1), key(9), 5), Ok(3));
    assert_eq!(g.deposit(key(7), 1, 1).unwrap().id, 2);
}

#[test]
fn restore_refuses_duplicate_members() {
    let members = vec![Member::new("a".to_string(), key(1)), Member::new("b".to_string(), key(1))];
    assert!(Governance::restore(config(), members, vec![], 0, vec![]).is_none());
}

#[test]
fn restore_refuses_too_many_members() {
    let members = (1..=4u8).map(|k| Member::new(format!("m{}", k), key(k))).collect();
    assert!(Governance::restore(config(), members, vec![], 0, vec![]).is_none());
}

#[test]
fn restore_refuses_out_of_order_ids() {
    assert!(Governance::restore(config(), vec![], vec![register(2, 1, vec![])], 0, vec![]).is_none());
    assert!(Governance::restore(config(), vec![], vec![], 0, vec![inflow(2, 1)]).is_none());
}

#[test]
fn restore_refuses_bad_signatures() {
    let mut twice = register(1, 3, vec![key(1), key(2)]);
    twice.signatures = vec![key(1), key(1)];
    assert!(Governance::restore(config(), vec![], vec![twice], 0, vec![]).is_none());
    let mut outsider = register(1, 3, vec![key(1)]);
    outsider.signatures = vec![key(5)];
    assert!(Governance::restore(config(), vec![], vec![outsider], 0, vec![]).is_none());
    let mut fine = register(1, 3, vec![key(1), key(2)]);
    fine.signatures = vec![key(2), key(1)];
    fine.status = ProposalStatus::Approved;
    assert!(Governance::restore(config(), vec![], vec![fine], 0, vec![]).is_some());
}

#[test]
fn restore_refuses_more_signatures_than_members_allowed() {
    let mut crowded = register(1, 3, vec![]);
    crowded.signatures = vec![key(1), key(2), key(4), key(5)];
    assert!(Governance::restore(config(), vec![], vec![crowded], 0, vec![]).is_none());
}
