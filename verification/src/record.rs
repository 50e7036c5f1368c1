//! The two kinds of record that a ledger holds: users and transactions.

use vstd::prelude::*;
use vstd::string::*;
use crate::origin::StampView;
use crate::text::{append_int_text, int_text};

verus! {

/// The name that stands where a transaction has no account on one side: the
/// sender of a deposit, the beneficiary of a withdrawal or a payment. No user
/// can have it.
pub open spec fn sentinel() -> Seq<char> {
    "NULL"@
}

/// The sentinel as text.
pub fn sentinel_name() -> (name: &'static str)
    ensures
        name@ == sentinel(),
{
    "NULL"
}

/// How a reference names the transaction with the key `(lamport_time,
/// origin_node)`: the time in decimal, an at sign, the node.
pub open spec fn key_text(lamport_time: int, origin_node: Seq<char>) -> Seq<char> {
    int_text(lamport_time) + seq!['@'] + origin_node
}

/// The reference that names the transaction with the given key.
pub fn key_reference(lamport_time: i64, origin_node: &str) -> (reference: String)
    ensures
        reference@ == key_text(lamport_time as int, origin_node@),
{
    let mut reference = String::new();
    append_int_text(&mut reference, lamport_time);
    proof {
        reveal_strlit("@");
    }
    reference.append("@");
    reference.append(origin_node);
    assert(reference@ =~= key_text(lamport_time as int, origin_node@));
    reference
}

/// An account: a unique name and a balance.
#[derive(Debug, PartialEq, Eq)]
pub struct User {
    pub name: String,
    pub balance: i64,
}

/// A user as a mathematical value.
pub struct UserView {
    pub name: Seq<char>,
    pub balance: int,
}

impl View for User {
    type V = UserView;

    open spec fn view(&self) -> UserView {
        UserView { name: self.name@, balance: self.balance as int }
    }
}

impl Clone for User {
    fn clone(&self) -> (copy: User)
        ensures
            copy@ == self@,
    {
        User { name: self.name.clone(), balance: self.balance }
    }
}

/// The users of a list as mathematical values.
pub open spec fn user_views(list: Seq<User>) -> Seq<UserView> {
    list.map_values(|user: User| user@)
}

/// A movement of money, identified on every node by its logical time and the
/// node that made it. Once made it never changes: a refund is a new
/// transaction whose reference names the old one.
#[derive(Debug, PartialEq, Eq)]
pub struct Transaction {
    pub lamport_time: i64,
    pub origin_node: String,
    pub sender: String,
    pub beneficiary: String,
    pub amount: i64,
    pub reference: String,
}

/// A transaction as a mathematical value.
pub struct TransactionView {
    pub lamport_time: int,
    pub origin_node: Seq<char>,
    pub sender: Seq<char>,
    pub beneficiary: Seq<char>,
    pub amount: int,
    pub reference: Seq<char>,
}

impl View for Transaction {
    type V = TransactionView;

    open spec fn view(&self) -> TransactionView {
        TransactionView {
            lamport_time: self.lamport_time as int,
            origin_node: self.origin_node@,
            sender: self.sender@,
            beneficiary: self.beneficiary@,
            amount: self.amount as int,
            reference: self.reference@,
        }
    }
}

impl Clone for Transaction {
    fn clone(&self) -> (copy: Transaction)
        ensures
            copy@ == self@,
    {
        Transaction {
            lamport_time: self.lamport_time,
            origin_node: self.origin_node.clone(),
            sender: self.sender.clone(),
            beneficiary: self.beneficiary.clone(),
            amount: self.amount,
            reference: self.reference.clone(),
        }
    }
}

/// The transactions of a list as mathematical values.
pub open spec fn transaction_views(list: Seq<Transaction>) -> Seq<TransactionView> {
    list.map_values(|tx: Transaction| tx@)
}

impl TransactionView {
    /// Whether the transaction has the key `(lamport_time, origin_node)`.
    pub open spec fn has_key(self, lamport_time: int, origin_node: Seq<char>) -> bool {
        self.lamport_time == lamport_time && self.origin_node == origin_node
    }

    /// Whether `name` is the sender or the beneficiary.
    pub open spec fn involves(self, name: Seq<char>) -> bool {
        self.sender == name || self.beneficiary == name
    }

    /// The record of money that moves from `sender` to `beneficiary` under
    /// `stamp`.
    pub open spec fn entry(
        stamp: StampView,
        sender: Seq<char>,
        beneficiary: Seq<char>,
        amount: int,
        reference: Seq<char>,
    ) -> TransactionView {
        TransactionView {
            lamport_time: stamp.lamport_time,
            origin_node: stamp.origin_node,
            sender,
            beneficiary,
            amount,
            reference,
        }
    }

    /// The record that undoes `self` under `stamp`: the same amount back from
    /// the beneficiary to the sender, with a reference that names `self`.
    pub open spec fn reversal(self, stamp: StampView) -> TransactionView {
        TransactionView {
            lamport_time: stamp.lamport_time,
            origin_node: stamp.origin_node,
            sender: self.beneficiary,
            beneficiary: self.sender,
            amount: self.amount,
            reference: key_text(self.lamport_time, self.origin_node),
        }
    }
}

} // verus!
