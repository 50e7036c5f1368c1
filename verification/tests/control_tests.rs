use peer_ledger::broadcast::{broadcast_outcome, PartialBroadcastFailure};
use peer_ledger::clock::LamportClock;
use peer_ledger::command::Command;
use peer_ledger::control::{handle_command, receive_message, CommandError, Effect, Report};
use peer_ledger::ledger::Ledger;
use peer_ledger::message::{
    Arguments, CreateUser, Deposit, Message, MessageInfo, NetworkMessageCode, Pay, Transfer,
    Withdraw,
};
use peer_ledger::model::LedgerError;
use peer_ledger::node::Node;
use peer_ledger::origin::{Origin, Stamp};
use peer_ledger::record::{Transaction, User};

fn user(name: &str) -> Arguments {
    Arguments::User(name.to_string())
}

fn user_amount(name: &str, amount: i64) -> Arguments {
    Arguments::UserAmount(name.to_string(), amount)
}

fn transfer(sender: &str, beneficiary: &str, amount: i64) -> Arguments {
    Arguments::Transfer(sender.to_string(), beneficiary.to_string(), amount)
}

fn record(time: i64, node: &str, sender: &str, beneficiary: &str, amount: i64, reference: &str) -> Transaction {
    Transaction {
        lamport_time: time,
        origin_node: node.to_string(),
        sender: sender.to_string(),
        beneficiary: beneficiary.to_string(),
        amount,
        reference: reference.to_string(),
    }
}

fn envelope(command: Command, payload: MessageInfo, time: i64, node: &str) -> Message {
    Message {
        origin_command: Some(command),
        code: NetworkMessageCode::Transaction,
        payload,
        stamp: Stamp::new(time, node),
    }
}

fn quiet() -> Effect {
    Effect { broadcast: None, report: Report::Nothing }
}

#[test]
fn a_local_create_user_is_broadcast_once() {
    let mut node = Node::new("A", 0);
    let effect = node.handle_command(Command::CreateUser, user("alice")).unwrap();
    assert_eq!(
        effect,
        Effect {
            broadcast: Some(envelope(
                Command::CreateUser,
                MessageInfo::CreateUser(CreateUser::new("alice".to_string())),
                1,
                "A"
            )),
            report: Report::Nothing,
        }
    );
    assert_eq!(node.clock(), 1);
    assert!(node.ledger().has_user("alice"));
}

#[test]
fn each_replicated_command_carries_its_payload() {
    let mut node = Node::new("A", 0);
    node.handle_command(Command::CreateUser, user("alice")).unwrap();
    node.handle_command(Command::CreateUser, user("bob")).unwrap();
    let deposit = node.handle_command(Command::Deposit, user_amount("alice", 100)).unwrap();
    assert_eq!(
        deposit.broadcast,
        Some(envelope(
            Command::Deposit,
            MessageInfo::Deposit(Deposit::new("alice".to_string(), 100)),
            3,
            "A"
        ))
    );
    let withdraw = node.handle_command(Command::Withdraw, user_amount("alice", 10)).unwrap();
    assert_eq!(
        withdraw.broadcast,
        Some(envelope(
            Command::Withdraw,
            MessageInfo::Withdraw(Withdraw::new("alice".to_string(), 10)),
            4,
            "A"
        ))
    );
    let moved = node.handle_command(Command::Transfer, transfer("alice", "bob", 40)).unwrap();
    assert_eq!(
        moved.broadcast,
        Some(envelope(
            Command::Transfer,
            MessageInfo::Transfer(Transfer::new("alice".to_string(), "bob".to_string(), 40)),
            5,
            "A"
        ))
    );
    let paid = node.handle_command(Command::Pay, user_amount("bob", 15)).unwrap();
    assert_eq!(
        paid.broadcast,
        Some(envelope(Command::Pay, MessageInfo::Pay(Pay::new("bob".to_string(), 15)), 6, "A"))
    );
    assert_eq!(node.ledger().balance_of("alice"), Some(50));
    assert_eq!(node.ledger().balance_of("bob"), Some(25));
    assert_eq!(node.ledger().transactions()[3], record(6, "A", "bob", "NULL", 15, ""));
}

#[test]
fn a_command_from_the_network_is_never_broadcast() {
    let mut ledger = Ledger::new();
    let mut clock = LamportClock::new();
    let commands = vec![
        (Command::CreateUser, user("alice")),
        (Command::CreateUser, user("bob")),
        (Command::Deposit, user_amount("alice", 100)),
        (Command::Withdraw, user_amount("alice", 10)),
        (Command::Transfer, transfer("alice", "bob", 40)),
        (Command::Pay, user_amount("bob", 15)),
    ];
    let mut time: i64 = 10;
    for (command, arguments) in commands {
        let origin = Origin::Network(Stamp::new(time, "A"));
        assert!(origin.from_network());
        let effect = handle_command(command, arguments, &mut ledger, &mut clock, "B", &origin);
        assert_eq!(effect, Ok(quiet()));
        time += 1;
    }
    assert_eq!(clock.value(), 16);
    assert_eq!(ledger.balance_of("alice"), Some(50));
    assert_eq!(ledger.balance_of("bob"), Some(25));
}

#[test]
fn the_same_command_typed_locally_is_broadcast() {
    let mut ledger = Ledger::new();
    let mut clock = LamportClock::new();
    ledger.create_user("alice").unwrap();
    assert!(!Origin::Local.from_network());
    let local = handle_command(
        Command::Deposit,
        user_amount("alice", 100),
        &mut ledger,
        &mut clock,
        "B",
        &Origin::Local,
    )
    .unwrap();
    assert!(local.broadcast.is_some());
    let remote = handle_command(
        Command::Deposit,
        user_amount("alice", 100),
        &mut ledger,
        &mut clock,
        "B",
        &Origin::Network(Stamp::new(7, "A")),
    )
    .unwrap();
    assert!(remote.broadcast.is_none());
    assert_eq!(ledger.balance_of("alice"), Some(200));
}

#[test]
fn a_refund_is_applied_but_not_broadcast() {
    let mut node = Node::new("A", 0);
    node.handle_command(Command::CreateUser, user("alice")).unwrap();
    node.handle_command(Command::CreateUser, user("bob")).unwrap();
    node.handle_command(Command::Deposit, user_amount("alice", 100)).unwrap();
    node.handle_command(Command::Transfer, transfer("alice", "bob", 40)).unwrap();
    let effect = node.handle_command(Command::Refund, Arguments::Refund(4, "A".to_string()));
    assert_eq!(effect, Ok(quiet()));
    assert_eq!(node.clock(), 5);
    assert_eq!(node.ledger().balance_of("alice"), Some(100));
    assert_eq!(node.ledger().balance_of("bob"), Some(0));
    assert_eq!(node.ledger().transactions()[2], record(5, "A", "bob", "alice", 40, "4@A"));
}

#[test]
fn a_refused_command_is_reported_and_not_broadcast() {
    let mut node = Node::new("A", 0);
    node.handle_command(Command::CreateUser, user("alice")).unwrap();
    assert_eq!(
        node.handle_command(Command::CreateUser, user("alice")),
        Err(CommandError::Ledger(LedgerError::DuplicateUser))
    );
    assert_eq!(
        node.handle_command(Command::CreateUser, user("NULL")),
        Err(CommandError::Ledger(LedgerError::ReservedName))
    );
    assert_eq!(
        node.handle_command(Command::Deposit, user_amount("bob", 5)),
        Err(CommandError::Ledger(LedgerError::UnknownUser))
    );
    assert_eq!(
        node.handle_command(Command::Deposit, user_amount("alice", 0)),
        Err(CommandError::Ledger(LedgerError::InvalidAmount))
    );
    assert_eq!(
        node.handle_command(Command::Withdraw, user_amount("alice", 5)),
        Err(CommandError::Ledger(LedgerError::InsufficientFunds))
    );
    assert_eq!(
        node.handle_command(Command::Refund, Arguments::Refund(9, "A".to_string())),
        Err(CommandError::Ledger(LedgerError::TransactionNotFound))
    );
    assert_eq!(
        node.handle_command(Command::Transfer, transfer("alice", "bob", 5)),
        Err(CommandError::Ledger(LedgerError::UnknownUser))
    );
    assert_eq!(node.clock(), 1);
    assert_eq!(node.ledger().balance_of("alice"), Some(0));
    assert!(node.ledger().transactions().is_empty());
}

#[test]
fn arguments_of_the_wrong_kind_are_refused() {
    let mut node = Node::new("A", 0);
    assert_eq!(
        node.handle_command(Command::Deposit, user("alice")),
        Err(CommandError::Arguments)
    );
    assert_eq!(
        node.handle_command(Command::CreateUser, Arguments::Nothing),
        Err(CommandError::Arguments)
    );
    assert_eq!(
        node.handle_command(Command::Help, user("alice")),
        Err(CommandError::Arguments)
    );
    assert_eq!(
        node.handle_command(Command::Refund, user_amount("alice", 1)),
        Err(CommandError::Arguments)
    );
    assert_eq!(node.clock(), 0);
    assert!(node.ledger().users().is_empty());
}

#[test]
fn queries_report_and_change_nothing() {
    let mut node = Node::new("A", 0);
    node.handle_command(Command::CreateUser, user("alice")).unwrap();
    node.handle_command(Command::CreateUser, user("bob")).unwrap();
    node.handle_command(Command::Deposit, user_amount("alice", 100)).unwrap();
    node.handle_command(Command::Deposit, user_amount("bob", 7)).unwrap();
    let accounts = node.handle_command(Command::UserAccounts, Arguments::Nothing).unwrap();
    assert_eq!(
        accounts,
        Effect {
            broadcast: None,
            report: Report::Users(vec![
                User { name: "alice".to_string(), balance: 100 },
                User { name: "bob".to_string(), balance: 7 },
            ]),
        }
    );
    let all = node.handle_command(Command::PrintTransactions, Arguments::Nothing).unwrap();
    assert_eq!(
        all.report,
        Report::Transactions(vec![
            record(3, "A", "NULL", "alice", 100, ""),
            record(4, "A", "NULL", "bob", 7, ""),
        ])
    );
    assert!(all.broadcast.is_none());
    let own = node.handle_command(Command::PrintUserTransactions, user("bob")).unwrap();
    assert_eq!(own.report, Report::Transactions(vec![record(4, "A", "NULL", "bob", 7, "")]));
    assert!(own.broadcast.is_none());
    assert_eq!(node.clock(), 4);
}

#[test]
fn help_unknown_and_error_only_report() {
    let mut node = Node::new("A", 3);
    assert_eq!(
        node.handle_command(Command::Help, Arguments::Nothing),
        Ok(Effect { broadcast: None, report: Report::Help })
    );
    assert_eq!(
        node.handle_command(Command::Unknown("/nope".to_string()), Arguments::Nothing),
        Ok(Effect { broadcast: None, report: Report::Unknown("/nope".to_string()) })
    );
    assert_eq!(
        node.handle_command(Command::Error("read failed".to_string()), Arguments::Nothing),
        Ok(Effect { broadcast: None, report: Report::Failure("read failed".to_string()) })
    );
    let mut ledger = Ledger::new();
    let mut clock = LamportClock::starting_at(3);
    let origin = Origin::Network(Stamp::new(9, "B"));
    assert_eq!(
        handle_command(Command::Help, Arguments::Nothing, &mut ledger, &mut clock, "A", &origin),
        Ok(Effect { broadcast: None, report: Report::Help })
    );
    assert_eq!(clock.value(), 3);
    assert_eq!(node.clock(), 3);
}

#[test]
fn a_full_clock_refuses_a_command() {
    let mut node = Node::new("A", i64::MAX);
    assert_eq!(
        node.handle_command(Command::CreateUser, user("alice")),
        Err(CommandError::Ledger(LedgerError::ClockOverflow))
    );
    assert!(node.ledger().users().is_empty());
    assert_eq!(node.clock(), i64::MAX);
}

#[test]
fn end_to_end_on_one_node() {
    let mut node = Node::new("A", 0);
    assert!(node.ledger().users().is_empty());
    node.handle_command(Command::CreateUser, user("alice")).unwrap();
    node.handle_command(Command::Deposit, user_amount("alice", 100)).unwrap();
    assert_eq!(node.ledger().balance_of("alice"), Some(100));
    assert_eq!(
        node.handle_command(Command::Withdraw, user_amount("alice", 150)),
        Err(CommandError::Ledger(LedgerError::InsufficientFunds))
    );
    assert_eq!(node.ledger().balance_of("alice"), Some(100));
    node.handle_command(Command::CreateUser, user("bob")).unwrap();
    let count = node.ledger().transactions().len();
    let before = node.clock();
    let effect = node.handle_command(Command::Transfer, transfer("alice", "bob", 40));
    assert!(effect.is_ok());
    assert_eq!(node.ledger().balance_of("alice"), Some(60));
    assert_eq!(node.ledger().balance_of("bob"), Some(40));
    assert_eq!(node.clock(), before + 1);
    let transactions = node.ledger().transactions();
    assert_eq!(transactions.len(), count + 1);
    assert_eq!(transactions[count], record(before + 1, "A", "alice", "bob", 40, ""));
    assert_eq!(node.ledger().transaction(node.clock(), node.id()), Some(transactions[count].clone()));
}

#[test]
fn two_nodes_converge() {
    let mut a = Node::new("A", 0);
    let mut b = Node::new("B", 0);
    let created = a.handle_command(Command::CreateUser, user("alice")).unwrap();
    assert_eq!(a.clock(), 1);
    assert_eq!(b.receive_message(created.broadcast.unwrap()), Ok(quiet()));
    let deposited = a.handle_command(Command::Deposit, user_amount("alice", 100)).unwrap();
    assert_eq!(a.clock(), 2);
    let message = deposited.broadcast.unwrap();
    assert_eq!(message.stamp, Stamp::new(2, "A"));
    let replayed = b.receive_message(message).unwrap();
    assert!(replayed.broadcast.is_none());
    assert!(b.clock() >= 3);
    assert_eq!(b.clock(), 3);
    assert_eq!(a.ledger().balance_of("alice"), Some(100));
    assert_eq!(b.ledger().balance_of("alice"), Some(100));
    assert_eq!(a.ledger().transactions_for_user("alice"), b.ledger().transactions_for_user("alice"));
    assert_eq!(a.ledger().transactions(), vec![record(2, "A", "NULL", "alice", 100, "")]);
    assert_eq!(a.ledger().users(), b.ledger().users());
}

#[test]
fn keys_stay_unique_when_both_nodes_write() {
    let mut a = Node::new("A", 0);
    let mut b = Node::new("B", 0);
    let created = a.handle_command(Command::CreateUser, user("alice")).unwrap().broadcast.unwrap();
    b.receive_message(created).unwrap();
    let from_a = a.handle_command(Command::Deposit, user_amount("alice", 1)).unwrap().broadcast.unwrap();
    let from_b = b.handle_command(Command::Deposit, user_amount("alice", 2)).unwrap().broadcast.unwrap();
    assert_eq!(from_a.stamp, Stamp::new(2, "A"));
    assert_eq!(from_b.stamp, Stamp::new(3, "B"));
    b.receive_message(from_a).unwrap();
    a.receive_message(from_b).unwrap();
    let again = a.handle_command(Command::Deposit, user_amount("alice", 4)).unwrap().broadcast.unwrap();
    assert_eq!(again.stamp, Stamp::new(5, "A"));
    b.receive_message(again).unwrap();
    assert_eq!(a.ledger().balance_of("alice"), Some(7));
    assert_eq!(b.ledger().balance_of("alice"), Some(7));
    let mut keys: Vec<(i64, String)> = a
        .ledger()
        .transactions()
        .into_iter()
        .map(|tx| (tx.lamport_time, tx.origin_node))
        .collect();
    let mut peer_keys: Vec<(i64, String)> = b
        .ledger()
        .transactions()
        .into_iter()
        .map(|tx| (tx.lamport_time, tx.origin_node))
        .collect();
    keys.sort();
    peer_keys.sort();
    assert_eq!(keys, peer_keys);
    let count = keys.len();
    keys.dedup();
    assert_eq!(keys.len(), count);
    assert_eq!(count, 3);
}

#[test]
fn an_envelope_delivered_twice_is_refused_the_second_time() {
    let mut a = Node::new("A", 0);
    let mut b = Node::new("B", 0);
    let created = a.handle_command(Command::CreateUser, user("alice")).unwrap().broadcast.unwrap();
    b.receive_message(created).unwrap();
    a.handle_command(Command::Deposit, user_amount("alice", 100)).unwrap();
    let copy = || envelope(
        Command::Deposit,
        MessageInfo::Deposit(Deposit::new("alice".to_string(), 100)),
        2,
        "A",
    );
    assert_eq!(b.receive_message(copy()), Ok(quiet()));
    assert_eq!(
        b.receive_message(copy()),
        Err(CommandError::Ledger(LedgerError::DuplicateTransaction))
    );
    assert_eq!(b.ledger().balance_of("alice"), Some(100));
    assert_eq!(b.clock(), 4);
}

#[test]
fn an_envelope_that_is_no_transaction_is_passed_over() {
    let mut ledger = Ledger::new();
    let mut clock = LamportClock::starting_at(1);
    for code in [NetworkMessageCode::Discovery, NetworkMessageCode::Acknowledgment] {
        let message = Message {
            origin_command: None,
            code,
            payload: MessageInfo::CreateUser(CreateUser::new("alice".to_string())),
            stamp: Stamp::new(50, "A"),
        };
        assert!(!message.is_transaction());
        assert_eq!(receive_message(message, &mut ledger, &mut clock, "B"), Ok(quiet()));
    }
    assert_eq!(clock.value(), 1);
    assert!(ledger.users().is_empty());
}

#[test]
fn an_envelope_that_names_another_command_is_refused() {
    let mut ledger = Ledger::new();
    let mut clock = LamportClock::starting_at(1);
    ledger.create_user("alice").unwrap();
    let message = envelope(
        Command::Withdraw,
        MessageInfo::Deposit(Deposit::new("alice".to_string(), 100)),
        50,
        "A",
    );
    assert!(message.is_transaction());
    assert!(!message.consistent());
    assert_eq!(
        receive_message(message, &mut ledger, &mut clock, "B"),
        Err(CommandError::Malformed)
    );
    assert_eq!(clock.value(), 1);
    assert_eq!(ledger.balance_of("alice"), Some(0));
}

#[test]
fn an_envelope_without_a_named_command_is_replayed_from_its_payload() {
    let mut ledger = Ledger::new();
    let mut clock = LamportClock::starting_at(1);
    let message = Message {
        origin_command: None,
        code: NetworkMessageCode::Transaction,
        payload: MessageInfo::CreateUser(CreateUser::new("alice".to_string())),
        stamp: Stamp::new(50, "A"),
    };
    assert!(message.consistent());
    assert_eq!(receive_message(message, &mut ledger, &mut clock, "B"), Ok(quiet()));
    assert_eq!(clock.value(), 51);
    assert!(ledger.has_user("alice"));
}

#[test]
fn a_withdrawal_replayed_without_funds_is_refused_on_the_peer() {
    let mut b = Node::new("B", 0);
    b.handle_command(Command::CreateUser, user("alice")).unwrap();
    let message = envelope(
        Command::Withdraw,
        MessageInfo::Withdraw(Withdraw::new("alice".to_string(), 10)),
        8,
        "A",
    );
    assert_eq!(
        b.receive_message(message),
        Err(CommandError::Ledger(LedgerError::InsufficientFunds))
    );
    assert_eq!(b.clock(), 9);
    assert_eq!(b.ledger().balance_of("alice"), Some(0));
}

#[test]
fn payloads_give_back_command_and_arguments() {
    let payloads = vec![
        (MessageInfo::CreateUser(CreateUser::new("a".to_string())), Command::CreateUser, user("a")),
        (MessageInfo::Deposit(Deposit::new("a".to_string(), 1)), Command::Deposit, user_amount("a", 1)),
        (MessageInfo::Withdraw(Withdraw::new("a".to_string(), 2)), Command::Withdraw, user_amount("a", 2)),
        (
            MessageInfo::Transfer(Transfer::new("a".to_string(), "b".to_string(), 3)),
            Command::Transfer,
            transfer("a", "b", 3),
        ),
        (MessageInfo::Pay(Pay::new("a".to_string(), 4)), Command::Pay, user_amount("a", 4)),
    ];
    for (payload, command, arguments) in payloads {
        assert_eq!(payload.command(), command);
        assert_eq!(payload.arguments(), arguments);
        assert!(payload.replays(&command));
        assert!(!payload.replays(&Command::Refund));
        assert_eq!(MessageInfo::build(&command, &arguments), Some(payload));
    }
    assert_eq!(MessageInfo::build(&Command::Refund, &Arguments::Refund(1, "A".to_string())), None);
    assert_eq!(MessageInfo::build(&Command::Deposit, &user("a")), None);
    assert_eq!(MessageInfo::build(&Command::Help, &Arguments::Nothing), None);
}

#[test]
fn a_transaction_envelope_names_the_command_of_its_payload() {
    let message = Message::transaction(
        MessageInfo::Pay(Pay::new("alice".to_string(), 5)),
        Stamp::new(4, "A"),
    );
    assert_eq!(message.origin_command, Some(Command::Pay));
    assert_eq!(message.code, NetworkMessageCode::Transaction);
    assert_eq!(message.stamp, Stamp { lamport_time: 4, origin_node: "A".to_string() });
    assert!(message.is_transaction());
    assert!(message.consistent());
}

#[test]
fn a_broadcast_that_reached_everyone_succeeds() {
    assert_eq!(broadcast_outcome(&vec![]), Ok(()));
    assert_eq!(broadcast_outcome(&vec![true, true, true]), Ok(()));
}

#[test]
fn a_broadcast_names_the_peers_it_did_not_reach() {
    assert_eq!(
        broadcast_outcome(&vec![true, false, true, false, false]),
        Err(PartialBroadcastFailure { failed: vec![1, 3, 4] })
    );
    assert_eq!(broadcast_outcome(&vec![false]), Err(PartialBroadcastFailure { failed: vec![0] }));
}
