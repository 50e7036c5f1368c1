//! The ledger as a mathematical value, and what each operation makes of it.

use vstd::prelude::*;
use crate::origin::{OriginView, StampView};
use crate::record::{sentinel, TransactionView, UserView};

verus! {

/// Why an operation on the ledger was refused.
#[derive(Debug, Clone, Copy, PartialEq, Eq, Structural)]
pub enum LedgerError {
    /// A user of that name exists already.
    DuplicateUser,
    /// The name is the sentinel, which no user can have.
    ReservedName,
    /// No user has that name.
    UnknownUser,
    /// The amount is zero or negative.
    InvalidAmount,
    /// The amount is more than the balance holds.
    InsufficientFunds,
    /// No transaction has that key.
    TransactionNotFound,
    /// A transaction with that key is recorded already.
    DuplicateTransaction,
    /// The logical clock is at the end of its range.
    ClockOverflow,
    /// A balance would leave the range of a 64-bit amount.
    BalanceOverflow,
}

/// The users `users`, the balance of the one named `name` changed by `delta`.
pub open spec fn moved(users: Seq<UserView>, name: Seq<char>, delta: int) -> Seq<UserView> {
    Seq::new(
        users.len(),
        |i: int|
            if users[i].name == name {
                UserView { name: users[i].name, balance: users[i].balance + delta }
            } else {
                users[i]
            },
    )
}

/// The users `users` once `tx` has taken its amount from the sender and given
/// it to the beneficiary. A side that is the sentinel is no user, so nothing
/// changes on that side.
pub open spec fn settled(users: Seq<UserView>, tx: TransactionView) -> Seq<UserView> {
    moved(moved(users, tx.sender, -tx.amount), tx.beneficiary, tx.amount)
}

/// Whether every balance fits a 64-bit amount.
pub open spec fn in_range(users: Seq<UserView>) -> bool {
    forall|i: int| 0 <= i < users.len() ==> i64::MIN <= (#[trigger] users[i]).balance <= i64::MAX
}

/// The transactions of `transactions` that involve `name`, in their order.
pub open spec fn involving(transactions: Seq<TransactionView>, name: Seq<char>) -> Seq<
    TransactionView,
>
    decreases transactions.len(),
{
    if transactions.len() == 0 {
        Seq::empty()
    } else if transactions.last().involves(name) {
        involving(transactions.drop_last(), name).push(transactions.last())
    } else {
        involving(transactions.drop_last(), name)
    }
}

/// Whether an operation with the outcome `outcome`, asked for by `origin` at a
/// node whose ledger is `before` and whose clock shows `clock`, ends with the
/// result `r`, the ledger `after` and the clock at `clock_after`.
///
/// Where the clock has no room for the step, the operation is refused with
/// `ClockOverflow` and nothing changes. Otherwise the clock moves as the origin
/// asks, and the ledger is the outcome's, or the old one where the outcome is
/// an error.
pub open spec fn stamped(
    before: LedgerView,
    clock: int,
    origin: OriginView,
    outcome: Result<LedgerView, LedgerError>,
    r: Result<(), LedgerError>,
    after: LedgerView,
    clock_after: int,
) -> bool {
    if !origin.admits(clock) {
        r == Err::<(), LedgerError>(LedgerError::ClockOverflow) && after == before && clock_after
            == clock
    } else {
        match outcome {
            Ok(ledger) => r is Ok && after == ledger && clock_after == origin.clock_outcome(
                clock,
                true,
            ),
            Err(e) => r == Err::<(), LedgerError>(e) && after == before && clock_after
                == origin.clock_outcome(clock, false),
        }
    }
}

/// A ledger: the users in the order in which they were created, and the
/// transactions in the order in which they were recorded.
pub struct LedgerView {
    pub users: Seq<UserView>,
    pub transactions: Seq<TransactionView>,
}

impl LedgerView {
    /// The ledger that holds nothing.
    pub open spec fn empty() -> LedgerView {
        LedgerView { users: Seq::empty(), transactions: Seq::empty() }
    }

    /// Whether a user is named `name`.
    pub open spec fn has_user(self, name: Seq<char>) -> bool {
        exists|i: int| 0 <= i < self.users.len() && (#[trigger] self.users[i]).name == name
    }

    /// The balance of the user named `name`.
    pub open spec fn balance(self, name: Seq<char>) -> int
        recommends
            self.has_user(name),
    {
        let i = choose|i: int| 0 <= i < self.users.len() && (#[trigger] self.users[i]).name == name;
        self.users[i].balance
    }

    /// Whether `party` can stand on one side of a transaction: a user, or the
    /// sentinel.
    pub open spec fn knows(self, party: Seq<char>) -> bool {
        party == sentinel() || self.has_user(party)
    }

    /// Whether a transaction has the key `(lamport_time, origin_node)`.
    pub open spec fn has_transaction(self, lamport_time: int, origin_node: Seq<char>) -> bool {
        exists|i: int|
            0 <= i < self.transactions.len() && (#[trigger] self.transactions[i]).has_key(
                lamport_time,
                origin_node,
            )
    }

    /// The transaction with the key `(lamport_time, origin_node)`.
    pub open spec fn transaction(self, lamport_time: int, origin_node: Seq<char>) -> TransactionView
        recommends
            self.has_transaction(lamport_time, origin_node),
    {
        let i = choose|i: int|
            0 <= i < self.transactions.len() && (#[trigger] self.transactions[i]).has_key(
                lamport_time,
                origin_node,
            );
        self.transactions[i]
    }

    /// Whether no two users share a name.
    pub open spec fn names_distinct(self) -> bool {
        forall|i: int, j: int|
            0 <= i < j < self.users.len() ==> (#[trigger] self.users[i]).name != (
            #[trigger] self.users[j]).name
    }

    /// Whether no user has the sentinel's name.
    pub open spec fn names_free(self) -> bool {
        forall|i: int| 0 <= i < self.users.len() ==> (#[trigger] self.users[i]).name != sentinel()
    }

    /// Whether no two transactions share a key.
    pub open spec fn keys_distinct(self) -> bool {
        forall|i: int, j: int|
            0 <= i < j < self.transactions.len() ==> !(#[trigger] self.transactions[i]).has_key(
                (#[trigger] self.transactions[j]).lamport_time,
                self.transactions[j].origin_node,
            )
    }

    /// Whether `tx` moves a positive amount between parties that the ledger
    /// knows.
    pub open spec fn sound(self, tx: TransactionView) -> bool {
        tx.amount > 0 && self.knows(tx.sender) && self.knows(tx.beneficiary)
    }

    /// Whether every transaction is sound.
    pub open spec fn entries_sound(self) -> bool {
        forall|i: int|
            0 <= i < self.transactions.len() ==> self.sound(#[trigger] self.transactions[i])
    }

    /// What every ledger keeps: no two users share a name and none has the
    /// sentinel's; no two transactions share a key; every transaction moves a
    /// positive amount between parties that the ledger knows.
    pub open spec fn valid(self) -> bool {
        &&& self.names_distinct()
        &&& self.names_free()
        &&& self.keys_distinct()
        &&& self.entries_sound()
    }

    /// The ledger with a new user named `name`, who owns nothing yet.
    pub open spec fn with_user(self, name: Seq<char>) -> LedgerView {
        LedgerView {
            users: self.users.push(UserView { name, balance: 0 }),
            transactions: self.transactions,
        }
    }

    /// The ledger with `tx` settled and recorded.
    pub open spec fn posted(self, tx: TransactionView) -> LedgerView {
        LedgerView {
            users: settled(self.users, tx),
            transactions: self.transactions.push(tx),
        }
    }

    /// What creating a user named `name` gives.
    pub open spec fn created(self, name: Seq<char>) -> Result<LedgerView, LedgerError> {
        if name == sentinel() {
            Err(LedgerError::ReservedName)
        } else if self.has_user(name) {
            Err(LedgerError::DuplicateUser)
        } else {
            Ok(self.with_user(name))
        }
    }

    /// What recording `tx` gives. With `guarded`, the sender must hold the
    /// amount.
    pub open spec fn entered(self, tx: TransactionView, guarded: bool) -> Result<
        LedgerView,
        LedgerError,
    > {
        if !self.knows(tx.sender) || !self.knows(tx.beneficiary) {
            Err(LedgerError::UnknownUser)
        } else if tx.amount <= 0 {
            Err(LedgerError::InvalidAmount)
        } else if guarded && self.has_user(tx.sender) && self.balance(tx.sender) < tx.amount {
            Err(LedgerError::InsufficientFunds)
        } else if self.has_transaction(tx.lamport_time, tx.origin_node) {
            Err(LedgerError::DuplicateTransaction)
        } else if !in_range(settled(self.users, tx)) {
            Err(LedgerError::BalanceOverflow)
        } else {
            Ok(self.posted(tx))
        }
    }

    /// What a deposit of `amount` to the user `name` gives under `stamp`.
    pub open spec fn deposited(self, name: Seq<char>, amount: int, stamp: StampView) -> Result<
        LedgerView,
        LedgerError,
    > {
        if !self.has_user(name) {
            Err(LedgerError::UnknownUser)
        } else {
            self.entered(TransactionView::entry(stamp, sentinel(), name, amount, Seq::empty()), false)
        }
    }

    /// What a withdrawal of `amount` by the user `name` gives under `stamp`.
    pub open spec fn withdrawn(self, name: Seq<char>, amount: int, stamp: StampView) -> Result<
        LedgerView,
        LedgerError,
    > {
        if !self.has_user(name) {
            Err(LedgerError::UnknownUser)
        } else {
            self.entered(TransactionView::entry(stamp, name, sentinel(), amount, Seq::empty()), true)
        }
    }

    /// What a transaction of `amount` from the user `sender` to `beneficiary`,
    /// a user or the sentinel, gives under `stamp`.
    pub open spec fn transacted(
        self,
        sender: Seq<char>,
        beneficiary: Seq<char>,
        amount: int,
        stamp: StampView,
        reference: Seq<char>,
    ) -> Result<LedgerView, LedgerError> {
        if !self.has_user(sender) {
            Err(LedgerError::UnknownUser)
        } else {
            self.entered(TransactionView::entry(stamp, sender, beneficiary, amount, reference), false)
        }
    }

    /// What a refund of the transaction with the key `(lamport_time,
    /// origin_node)` gives under `stamp`.
    pub open spec fn refunded(self, lamport_time: int, origin_node: Seq<char>, stamp: StampView) -> Result<
        LedgerView,
        LedgerError,
    > {
        if !self.has_transaction(lamport_time, origin_node) {
            Err(LedgerError::TransactionNotFound)
        } else {
            self.entered(self.transaction(lamport_time, origin_node).reversal(stamp), false)
        }
    }

    /// Whether every transaction was stamped at or before `clock`.
    pub open spec fn not_after(self, clock: int) -> bool {
        forall|i: int|
            0 <= i < self.transactions.len() ==> (#[trigger] self.transactions[i]).lamport_time
                <= clock
    }
}

} // verus!
