use essential_apps::multisig::{
    identity_scalar_solution, propose_member_solution, propose_transaction_solution, Addresses,
    App,
};
use essential_apps::types::{ContentAddress, PredicateAddress, Solution};

fn predicate_address(b: u8) -> PredicateAddress {
    PredicateAddress {
        contract: ContentAddress([8u8; 32]),
        predicate: ContentAddress([b; 32]),
    }
}

fn test_addresses() -> Addresses {
    Addresses {
        multisig_wallet: ContentAddress([8u8; 32]),
        propose_transaction: predicate_address(0),
        approve_transaction: predicate_address(1),
        propose_add_member: predicate_address(2),
        approve_add_member: predicate_address(3),
        propose_remove_member: predicate_address(4),
        approve_remove_member: predicate_address(5),
        propose_update_min_approvals: predicate_address(6),
        approve_update_min_approvals: predicate_address(7),
    }
}

fn assert_single_entry(s: &Solution, addr: &PredicateAddress) {
    assert_eq!(s.data.len(), 1);
    assert_eq!(s.data[0].predicate_to_solve, *addr);
    assert_eq!(s.data[0].state_mutations.len(), 0);
}

#[test]
fn propose_transaction_solution_shape() {
    let addr = predicate_address(0);
    let s = propose_transaction_solution(&addr, [1, 2, 3, 4], [5, 6, 7, 8], 500);
    assert_single_entry(&s, &addr);
    assert_eq!(
        s.data[0].decision_variables,
        vec![vec![1, 2, 3, 4], vec![5, 6, 7, 8], vec![500]]
    );
}

#[test]
fn propose_member_solution_shape() {
    let addr = predicate_address(2);
    let s = propose_member_solution(&addr, [1, 2, 3, 4], [5, 6, 7, 8]);
    assert_single_entry(&s, &addr);
    assert_eq!(
        s.data[0].decision_variables,
        vec![vec![1, 2, 3, 4], vec![5, 6, 7, 8]]
    );
}

#[test]
fn identity_scalar_solution_shape() {
    let addr = predicate_address(1);
    let s = identity_scalar_solution(&addr, [1, 2, 3, 4], 9);
    assert_single_entry(&s, &addr);
    assert_eq!(
        s.data[0].decision_variables,
        vec![vec![1, 2, 3, 4], vec![9]]
    );
}

fn wallet_with_members() -> essential_wallet::Wallet {
    let mut wallet = essential_wallet::Wallet::temp().unwrap();
    for name in ["alice", "bob", "charlie", "recipient"] {
        wallet
            .new_key_pair(name, essential_wallet::Scheme::Secp256k1)
            .unwrap();
    }
    wallet
}

/// The flow of the multisig scenario: a member proposes a transaction of
/// 500, a second member approves it, then members are added and removed in
/// turn, each approval naming the next proposal id. Every built request must
/// have the exact shape of its action; submission and predicate evaluation
/// are the platform's side and are not exercised here.
#[test]
fn multisig_scenario_request_flow() {
    let addresses = test_addresses();
    let mut app = App::new(addresses, wallet_with_members());

    let alice = app.get_hashed_key("alice").unwrap();
    let bob = app.get_hashed_key("bob").unwrap();
    let charlie = app.get_hashed_key("charlie").unwrap();
    let recipient = app.get_hashed_key("recipient").unwrap();

    let amount = 500;
    let s = app
        .propose_transaction("alice", "recipient", amount)
        .unwrap();
    assert_single_entry(&s, &addresses.propose_transaction);
    assert_eq!(
        s.data[0].decision_variables,
        vec![alice.to_vec(), recipient.to_vec(), vec![amount]]
    );

    let s = app.approve_transaction("bob", 1).unwrap();
    assert_single_entry(&s, &addresses.approve_transaction);
    assert_eq!(
        s.data[0].decision_variables,
        vec![bob.to_vec(), vec![1]]
    );

    let s = app.propose_add_member("alice", "charlie").unwrap();
    assert_single_entry(&s, &addresses.propose_add_member);
    assert_eq!(
        s.data[0].decision_variables,
        vec![alice.to_vec(), charlie.to_vec()]
    );

    let s = app.approve_add_member("bob", 2).unwrap();
    assert_single_entry(&s, &addresses.approve_add_member);
    assert_eq!(
        s.data[0].decision_variables,
        vec![bob.to_vec(), vec![2]]
    );

    let s = app.propose_remove_member("bob", "alice").unwrap();
    assert_single_entry(&s, &addresses.propose_remove_member);
    assert_eq!(
        s.data[0].decision_variables,
        vec![bob.to_vec(), alice.to_vec()]
    );

    let s = app.approve_remove_member("charlie", 3).unwrap();
    assert_single_entry(&s, &addresses.approve_remove_member);
    assert_eq!(
        s.data[0].decision_variables,
        vec![charlie.to_vec(), vec![3]]
    );

    let s = app.propose_update_min_approvals("bob", 2).unwrap();
    assert_single_entry(&s, &addresses.propose_update_min_approvals);
    assert_eq!(
        s.data[0].decision_variables,
        vec![bob.to_vec(), vec![2]]
    );

    let s = app.approve_update_min_approvals("charlie", 4).unwrap();
    assert_single_entry(&s, &addresses.approve_update_min_approvals);
    assert_eq!(
        s.data[0].decision_variables,
        vec![charlie.to_vec(), vec![4]]
    );
}
