use peer_ledger::command::Command;
use peer_ledger::ledger::Ledger;
use peer_ledger::message::Arguments;
use peer_ledger::node::Node;
use peer_ledger::record::{Transaction, User};

fn account(name: &str, balance: i64) -> User {
    User { name: name.to_string(), balance }
}

fn entry(time: i64, node: &str, sender: &str, beneficiary: &str, amount: i64) -> Transaction {
    Transaction {
        lamport_time: time,
        origin_node: node.to_string(),
        sender: sender.to_string(),
        beneficiary: beneficiary.to_string(),
        amount,
        reference: String::new(),
    }
}

#[test]
fn a_kept_ledger_is_restored_as_it_was() {
    let users = vec![account("alice", 60), account("bob", 40)];
    let transactions =
        vec![entry(3, "A", "NULL", "alice", 100), entry(5, "B", "alice", "bob", 40)];
    let ledger = Ledger::restore(users.clone(), transactions.clone()).unwrap();
    assert_eq!(ledger.users(), users);
    assert_eq!(ledger.transactions(), transactions);
    assert_eq!(ledger.balance_of("bob"), Some(40));
    assert_eq!(ledger.latest_time(), Some(5));
}

#[test]
fn an_empty_ledger_is_restored() {
    let ledger = Ledger::restore(vec![], vec![]).unwrap();
    assert!(ledger.users().is_empty());
    assert_eq!(ledger.latest_time(), None);
}

#[test]
fn two_users_with_one_name_are_not_restored() {
    let users = vec![account("alice", 1), account("bob", 2), account("alice", 3)];
    assert!(Ledger::restore(users, vec![]).is_none());
}

#[test]
fn a_user_with_the_sentinel_name_is_not_restored() {
    assert!(Ledger::restore(vec![account("alice", 1), account("NULL", 0)], vec![]).is_none());
}

#[test]
fn two_transactions_with_one_key_are_not_restored() {
    let users = vec![account("alice", 0)];
    let twice = vec![
        entry(1, "A", "NULL", "alice", 5),
        entry(2, "A", "NULL", "alice", 5),
        entry(1, "A", "alice", "NULL", 5),
    ];
    assert!(Ledger::restore(users.clone(), twice).is_none());
    let apart = vec![entry(1, "A", "NULL", "alice", 5), entry(1, "B", "NULL", "alice", 5)];
    assert!(Ledger::restore(users, apart).is_some());
}

#[test]
fn a_transaction_that_is_not_sound_is_not_restored() {
    let users = vec![account("alice", 0)];
    assert!(Ledger::restore(users.clone(), vec![entry(1, "A", "NULL", "alice", 0)]).is_none());
    assert!(Ledger::restore(users.clone(), vec![entry(1, "A", "NULL", "alice", -3)]).is_none());
    assert!(Ledger::restore(users.clone(), vec![entry(1, "A", "bob", "alice", 3)]).is_none());
    assert!(Ledger::restore(users.clone(), vec![entry(1, "A", "alice", "bob", 3)]).is_none());
    assert!(Ledger::restore(users, vec![entry(1, "A", "alice", "alice", 3)]).is_some());
}

#[test]
fn the_latest_time_is_the_largest_stamp() {
    let users = vec![account("alice", 0)];
    let transactions = vec![
        entry(-4, "A", "NULL", "alice", 5),
        entry(9, "B", "NULL", "alice", 5),
        entry(2, "A", "NULL", "alice", 5),
    ];
    let ledger = Ledger::restore(users, transactions).unwrap();
    assert_eq!(ledger.latest_time(), Some(9));
}

#[test]
fn a_node_takes_up_a_ledger_that_its_clock_is_not_behind() {
    let users = vec![account("alice", 5)];
    let transactions = vec![entry(7, "B", "NULL", "alice", 5)];
    let behind = Ledger::restore(users.clone(), transactions.clone()).unwrap();
    assert!(Node::restore("A", 6, behind).is_none());
    let level = Ledger::restore(users, transactions).unwrap();
    let mut node = Node::restore("A", 7, level).unwrap();
    assert_eq!(node.id(), "A");
    assert_eq!(node.clock(), 7);
    let effect = node
        .handle_command(Command::Deposit, Arguments::UserAmount("alice".to_string(), 1))
        .unwrap();
    assert_eq!(effect.broadcast.unwrap().stamp.lamport_time, 8);
    assert_eq!(node.ledger().balance_of("alice"), Some(6));
    let empty = Ledger::new();
    assert!(Node::restore("A", i64::MIN, empty).is_some());
}
