//! The ledger store of a node.

use vstd::prelude::*;
use vstd::string::*;
use crate::clock::LamportClock;
use crate::model::{in_range, involving, settled, stamped, LedgerError, LedgerView};
use crate::origin::Origin;
use crate::record::{
    key_reference, sentinel, sentinel_name, transaction_views, user_views, Transaction,
    TransactionView, User, UserView,
};
use crate::text::str_eq;

verus! {

/// The users and transactions that a node holds. Every operation either
/// applies as a whole or leaves the ledger as it was.
#[derive(Debug)]
pub struct Ledger {
    users: Vec<User>,
    transactions: Vec<Transaction>,
}

impl View for Ledger {
    type V = LedgerView;

    closed spec fn view(&self) -> LedgerView {
        LedgerView {
            users: user_views(self.users@),
            transactions: transaction_views(self.transactions@),
        }
    }
}

impl Ledger {
    /// A ledger that holds nothing.
    pub fn new() -> (ledger: Ledger)
        ensures
            ledger@ == LedgerView::empty(),
            ledger@.valid(),
    {
        let ledger = Ledger { users: Vec::new(), transactions: Vec::new() };
        assert(ledger@.users =~= Seq::empty());
        assert(ledger@.transactions =~= Seq::empty());
        ledger
    }

    /// The ledger that holds `users` and `transactions`, as read back from
    /// where they were kept, if together they are what a ledger can hold: no
    /// two users with one name and none with the sentinel's, no two
    /// transactions with one key, and every transaction of a positive amount
    /// between the sentinel and these users.
    pub fn restore(users: Vec<User>, transactions: Vec<Transaction>) -> (r: Option<Ledger>)
        ensures
            match r {
                Some(ledger) => ledger@.valid() && ledger@.users == user_views(users@)
                    && ledger@.transactions == transaction_views(transactions@),
                None => !(LedgerView {
                    users: user_views(users@),
                    transactions: transaction_views(transactions@),
                }).valid(),
            },
    {
        let ledger = Ledger { users, transactions };
        if ledger.names_distinct() && ledger.names_free() && ledger.keys_distinct()
            && ledger.entries_sound() {
            Some(ledger)
        } else {
            None
        }
    }

    fn names_distinct(&self) -> (ok: bool)
        ensures
            ok == self@.names_distinct(),
    {
        let mut j: usize = 0;
        while j < self.users.len()
            invariant
                j <= self.users.len(),
                forall|a: int, b: int|
                    0 <= a < b < j ==> (#[trigger] self@.users[a]).name != (
                    #[trigger] self@.users[b]).name,
            decreases self.users.len() - j,
        {
            let mut i: usize = 0;
            while i < j
                invariant
                    i <= j < self.users.len(),
                    forall|a: int|
                        0 <= a < i ==> (#[trigger] self@.users[a]).name != self@.users[j as int].name,
                decreases j - i,
            {
                if str_eq(self.users[i].name.as_str(), self.users[j].name.as_str()) {
                    assert(self@.users[i as int].name == self@.users[j as int].name);
                    return false;
                }
                i = i + 1;
            }
            j = j + 1;
        }
        true
    }

    fn names_free(&self) -> (ok: bool)
        ensures
            ok == self@.names_free(),
    {
        let mut i: usize = 0;
        while i < self.users.len()
            invariant
                i <= self.users.len(),
                forall|a: int| 0 <= a < i ==> (#[trigger] self@.users[a]).name != sentinel(),
            decreases self.users.len() - i,
        {
            if str_eq(self.users[i].name.as_str(), sentinel_name()) {
                assert(self@.users[i as int].name == sentinel());
                return false;
            }
            i = i + 1;
        }
        true
    }

    fn keys_distinct(&self) -> (ok: bool)
        ensures
            ok == self@.keys_distinct(),
    {
        let mut j: usize = 0;
        while j < self.transactions.len()
            invariant
                j <= self.transactions.len(),
                forall|a: int, b: int|
                    0 <= a < b < j ==> !(#[trigger] self@.transactions[a]).has_key(
                        (#[trigger] self@.transactions[b]).lamport_time,
                        self@.transactions[b].origin_node,
                    ),
            decreases self.transactions.len() - j,
        {
            let mut i: usize = 0;
            while i < j
                invariant
                    i <= j < self.transactions.len(),
                    forall|a: int|
                        0 <= a < i ==> !(#[trigger] self@.transactions[a]).has_key(
                            self@.transactions[j as int].lamport_time,
                            self@.transactions[j as int].origin_node,
                        ),
                decreases j - i,
            {
                if self.transactions[i].lamport_time == self.transactions[j].lamport_time && str_eq(
                    self.transactions[i].origin_node.as_str(),
                    self.transactions[j].origin_node.as_str(),
                ) {
                    assert(self@.transactions[i as int].has_key(
                        self@.transactions[j as int].lamport_time,
                        self@.transactions[j as int].origin_node,
                    ));
                    return false;
                }
                i = i + 1;
            }
            j = j + 1;
        }
        true
    }

    fn knows(&self, party: &str) -> (yes: bool)
        ensures
            yes == self@.knows(party@),
    {
        str_eq(party, sentinel_name()) || self.find_user(party).is_some()
    }

    fn entries_sound(&self) -> (ok: bool)
        ensures
            ok == self@.entries_sound(),
    {
        let mut i: usize = 0;
        while i < self.transactions.len()
            invariant
                i <= self.transactions.len(),
                forall|a: int| 0 <= a < i ==> self@.sound(#[trigger] self@.transactions[a]),
            decreases self.transactions.len() - i,
        {
            let tx = &self.transactions[i];
            if tx.amount <= 0 || !self.knows(tx.sender.as_str()) || !self.knows(
                tx.beneficiary.as_str(),
            ) {
                assert(!self@.sound(self@.transactions[i as int]));
                return false;
            }
            i = i + 1;
        }
        true
    }

    /// The latest logical time under which a transaction was recorded, if
    /// there is a transaction.
    pub fn latest_time(&self) -> (latest: Option<i64>)
        ensures
            latest is None <==> self@.transactions.len() == 0,
            latest matches Some(time) ==> self@.not_after(time as int) && exists|i: int|
                0 <= i < self@.transactions.len() && (#[trigger] self@.transactions[i]).lamport_time
                    == time,
    {
        if self.transactions.len() == 0 {
            return None;
        }
        let mut latest: i64 = self.transactions[0].lamport_time;
        let ghost mut at: int = 0;
        let mut i: usize = 1;
        while i < self.transactions.len()
            invariant
                1 <= i <= self.transactions.len(),
                forall|a: int| 0 <= a < i ==> (#[trigger] self@.transactions[a]).lamport_time <= latest,
                0 <= at < i,
                self@.transactions[at].lamport_time == latest,
            decreases self.transactions.len() - i,
        {
            if self.transactions[i].lamport_time > latest {
                latest = self.transactions[i].lamport_time;
                proof {
                    at = i as int;
                }
            }
            i = i + 1;
        }
        Some(latest)
    }

    fn find_user(&self, name: &str) -> (found: Option<usize>)
        ensures
            match found {
                Some(i) => i < self.users.len() && self@.users[i as int].name == name@,
                None => !self@.has_user(name@),
            },
    {
        let mut i: usize = 0;
        while i < self.users.len()
            invariant
                i <= self.users.len(),
                forall|k: int| 0 <= k < i ==> (#[trigger] self@.users[k]).name != name@,
            decreases self.users.len() - i,
        {
            if str_eq(self.users[i].name.as_str(), name) {
                return Some(i);
            }
            i = i + 1;
        }
        None
    }

    /// Creates the user `name` with nothing on the account. Refused where the
    /// name is the sentinel's or a user has it already.
    pub fn create_user(&mut self, name: &str) -> (r: Result<(), LedgerError>)
        requires
            old(self)@.valid(),
        ensures
            final(self)@.valid(),
            match old(self)@.created(name@) {
                Ok(ledger) => r is Ok && final(self)@ == ledger,
                Err(e) => r == Err::<(), LedgerError>(e) && final(self)@ == old(self)@,
            },
    {
        if str_eq(name, sentinel_name()) {
            return Err(LedgerError::ReservedName);
        }
        if self.find_user(name).is_some() {
            return Err(LedgerError::DuplicateUser);
        }
        self.users.push(User { name: String::from_str(name), balance: 0 });
        assert(self@.users =~= old(self)@.with_user(name@).users);
        assert(self@ == old(self)@.with_user(name@));
        assert(self@.valid()) by {
            let before = old(self)@;
            let after = self@;
            assert forall|i: int| 0 <= i < after.transactions.len() implies {
                let tx = #[trigger] after.transactions[i];
                tx.amount > 0 && after.knows(tx.sender) && after.knows(tx.beneficiary)
            } by {
                let tx = before.transactions[i];
                lemma_known_stays(before, name@, tx.sender);
                lemma_known_stays(before, name@, tx.beneficiary);
            }
        }
        Ok(())
    }

    fn find_transaction(&self, lamport_time: i64, origin_node: &str) -> (found: Option<usize>)
        ensures
            match found {
                Some(i) => i < self.transactions.len() && self@.transactions[i as int].has_key(
                    lamport_time as int,
                    origin_node@,
                ),
                None => !self@.has_transaction(lamport_time as int, origin_node@),
            },
    {
        let mut i: usize = 0;
        while i < self.transactions.len()
            invariant
                i <= self.transactions.len(),
                forall|k: int|
                    0 <= k < i ==> !(#[trigger] self@.transactions[k]).has_key(
                        lamport_time as int,
                        origin_node@,
                    ),
            decreases self.transactions.len() - i,
        {
            if self.transactions[i].lamport_time == lamport_time && str_eq(
                self.transactions[i].origin_node.as_str(),
                origin_node,
            ) {
                return Some(i);
            }
            i = i + 1;
        }
        None
    }

    fn set_balance(&mut self, i: usize, balance: i64)
        requires
            i < old(self).users.len(),
        ensures
            final(self).users.len() == old(self).users.len(),
            final(self)@.transactions == old(self)@.transactions,
            final(self)@.users == old(self)@.users.update(
                i as int,
                UserView { name: old(self)@.users[i as int].name, balance: balance as int },
            ),
    {
        let name = self.users[i].name.clone();
        self.users.set(i, User { name, balance });
        assert(self@.users =~= old(self)@.users.update(
            i as int,
            UserView { name: old(self)@.users[i as int].name, balance: balance as int },
        ));
    }

    /// Records `tx` and moves its amount, or refuses it and changes nothing.
    fn enter(&mut self, tx: Transaction, guarded: bool) -> (r: Result<(), LedgerError>)
        requires
            old(self)@.valid(),
        ensures
            final(self)@.valid(),
            match old(self)@.entered(tx@, guarded) {
                Ok(ledger) => r is Ok && final(self)@ == ledger,
                Err(e) => r == Err::<(), LedgerError>(e) && final(self)@ == old(self)@,
            },
    {
        let ghost before = self@;
        let from = self.find_user(tx.sender.as_str());
        let to = self.find_user(tx.beneficiary.as_str());
        if from.is_none() && !str_eq(tx.sender.as_str(), sentinel_name()) {
            return Err(LedgerError::UnknownUser);
        }
        if to.is_none() && !str_eq(tx.beneficiary.as_str(), sentinel_name()) {
            return Err(LedgerError::UnknownUser);
        }
        if tx.amount <= 0 {
            return Err(LedgerError::InvalidAmount);
        }
        proof {
            lemma_settled_pointwise(before, tx@);
            if from is Some {
                lemma_balance_at(before, tx@.sender, from.unwrap() as int);
            }
        }
        if guarded {
            if let Some(i) = from {
                if self.users[i].balance < tx.amount {
                    return Err(LedgerError::InsufficientFunds);
                }
            }
        }
        if self.find_transaction(tx.lamport_time, tx.origin_node.as_str()).is_some() {
            return Err(LedgerError::DuplicateTransaction);
        }
        let same = match (from, to) {
            (Some(i), Some(j)) => i == j,
            _ => false,
        };
        let mut debit: Option<(usize, i64)> = None;
        let mut credit: Option<(usize, i64)> = None;
        if !same {
            if let Some(i) = from {
                match self.users[i].balance.checked_sub(tx.amount) {
                    Some(balance) => {
                        debit = Some((i, balance));
                    },
                    None => {
                        assert(!(i64::MIN <= settled(before.users, tx@)[i as int].balance));
                        return Err(LedgerError::BalanceOverflow);
                    },
                }
            }
            if let Some(j) = to {
                match self.users[j].balance.checked_add(tx.amount) {
                    Some(balance) => {
                        credit = Some((j, balance));
                    },
                    None => {
                        assert(!(settled(before.users, tx@)[j as int].balance <= i64::MAX));
                        return Err(LedgerError::BalanceOverflow);
                    },
                }
            }
        }
        if let Some((i, balance)) = debit {
            self.set_balance(i, balance);
        }
        if let Some((j, balance)) = credit {
            self.set_balance(j, balance);
        }
        assert(self@.users =~= settled(before.users, tx@));
        assert(in_range(self@.users));
        self.transactions.push(tx);
        assert(self@.transactions =~= before.transactions.push(tx@));
        assert(self@ == before.posted(tx@));
        proof {
            lemma_entered_valid(before, tx@, guarded);
        }
        Ok(())
    }

    /// Credits `amount` to the user `name` and records it, stamped as `origin`
    /// asks: with the next tick of `clock` and `node` for a local deposit,
    /// with the stamp of the message for a replayed one.
    pub fn deposit(
        &mut self,
        name: &str,
        amount: i64,
        clock: &mut LamportClock,
        node: &str,
        origin: &Origin,
    ) -> (r: Result<(), LedgerError>)
        requires
            old(self)@.valid(),
        ensures
            final(self)@.valid(),
            stamped(
                old(self)@,
                old(clock)@,
                origin@,
                old(self)@.deposited(name@, amount as int, origin@.stamp(old(clock)@, node@)),
                r,
                final(self)@,
                final(clock)@,
            ),
    {
        if !origin.admits(clock) {
            return Err(LedgerError::ClockOverflow);
        }
        let stamp = origin.stamp(clock, node);
        let r = if self.find_user(name).is_none() {
            Err(LedgerError::UnknownUser)
        } else {
            self.enter(
                Transaction {
                    lamport_time: stamp.lamport_time,
                    origin_node: stamp.origin_node,
                    sender: String::from_str(sentinel_name()),
                    beneficiary: String::from_str(name),
                    amount,
                    reference: String::new(),
                },
                false,
            )
        };
        origin.advance(clock, r.is_ok());
        r
    }

    /// Takes `amount` from the user `name`, who must hold it on this node at
    /// this moment, and records it, stamped as `origin` asks.
    pub fn withdraw(
        &mut self,
        name: &str,
        amount: i64,
        clock: &mut LamportClock,
        node: &str,
        origin: &Origin,
    ) -> (r: Result<(), LedgerError>)
        requires
            old(self)@.valid(),
        ensures
            final(self)@.valid(),
            stamped(
                old(self)@,
                old(clock)@,
                origin@,
                old(self)@.withdrawn(name@, amount as int, origin@.stamp(old(clock)@, node@)),
                r,
                final(self)@,
                final(clock)@,
            ),
    {
        if !origin.admits(clock) {
            return Err(LedgerError::ClockOverflow);
        }
        let stamp = origin.stamp(clock, node);
        let r = if self.find_user(name).is_none() {
            Err(LedgerError::UnknownUser)
        } else {
            self.enter(
                Transaction {
                    lamport_time: stamp.lamport_time,
                    origin_node: stamp.origin_node,
                    sender: String::from_str(name),
                    beneficiary: String::from_str(sentinel_name()),
                    amount,
                    reference: String::new(),
                },
                true,
            )
        };
        origin.advance(clock, r.is_ok());
        r
    }

    /// Moves `amount` from the user `sender` to `beneficiary` and records it,
    /// stamped as `origin` asks. Where `beneficiary` is the sentinel the money
    /// leaves the ledger: a payment.
    pub fn create_transaction(
        &mut self,
        sender: &str,
        beneficiary: &str,
        amount: i64,
        clock: &mut LamportClock,
        node: &str,
        reference: &str,
        origin: &Origin,
    ) -> (r: Result<(), LedgerError>)
        requires
            old(self)@.valid(),
        ensures
            final(self)@.valid(),
            stamped(
                old(self)@,
                old(clock)@,
                origin@,
                old(self)@.transacted(
                    sender@,
                    beneficiary@,
                    amount as int,
                    origin@.stamp(old(clock)@, node@),
                    reference@,
                ),
                r,
                final(self)@,
                final(clock)@,
            ),
    {
        if !origin.admits(clock) {
            return Err(LedgerError::ClockOverflow);
        }
        let stamp = origin.stamp(clock, node);
        let r = if self.find_user(sender).is_none() {
            Err(LedgerError::UnknownUser)
        } else {
            self.enter(
                Transaction {
                    lamport_time: stamp.lamport_time,
                    origin_node: stamp.origin_node,
                    sender: String::from_str(sender),
                    beneficiary: String::from_str(beneficiary),
                    amount,
                    reference: String::from_str(reference),
                },
                false,
            )
        };
        origin.advance(clock, r.is_ok());
        r
    }

    /// Undoes the transaction with the key `(lamport_time, origin_node)` by a
    /// new transaction, stamped as `origin` asks: the same amount goes back
    /// from the beneficiary to the sender, and the reference names the
    /// transaction that is undone, which stays as it is.
    pub fn refund_transaction(
        &mut self,
        lamport_time: i64,
        origin_node: &str,
        clock: &mut LamportClock,
        node: &str,
        origin: &Origin,
    ) -> (r: Result<(), LedgerError>)
        requires
            old(self)@.valid(),
        ensures
            final(self)@.valid(),
            stamped(
                old(self)@,
                old(clock)@,
                origin@,
                old(self)@.refunded(
                    lamport_time as int,
                    origin_node@,
                    origin@.stamp(old(clock)@, node@),
                ),
                r,
                final(self)@,
                final(clock)@,
            ),
    {
        if !origin.admits(clock) {
            return Err(LedgerError::ClockOverflow);
        }
        let stamp = origin.stamp(clock, node);
        let r = match self.find_transaction(lamport_time, origin_node) {
            None => Err(LedgerError::TransactionNotFound),
            Some(i) => {
                proof {
                    lemma_transaction_at(self@, lamport_time as int, origin_node@, i as int);
                }
                let undone = &self.transactions[i];
                let tx = Transaction {
                    lamport_time: stamp.lamport_time,
                    origin_node: stamp.origin_node,
                    sender: undone.beneficiary.clone(),
                    beneficiary: undone.sender.clone(),
                    amount: undone.amount,
                    reference: key_reference(undone.lamport_time, undone.origin_node.as_str()),
                };
                self.enter(tx, false)
            },
        };
        origin.advance(clock, r.is_ok());
        r
    }

    /// Whether a user is named `name`.
    pub fn has_user(&self, name: &str) -> (yes: bool)
        ensures
            yes == self@.has_user(name@),
    {
        self.find_user(name).is_some()
    }

    /// The users, in the order in which they were created.
    pub fn users(&self) -> (list: Vec<User>)
        ensures
            user_views(list@) == self@.users,
    {
        let mut list: Vec<User> = Vec::new();
        let mut i: usize = 0;
        while i < self.users.len()
            invariant
                i <= self.users.len(),
                list@.len() == i,
                forall|k: int| 0 <= k < i ==> (#[trigger] list@[k])@ == self.users@[k]@,
            decreases self.users.len() - i,
        {
            list.push(self.users[i].clone());
            i = i + 1;
        }
        assert(user_views(list@) =~= self@.users);
        list
    }

    /// The transactions, in the order in which they were recorded.
    pub fn transactions(&self) -> (list: Vec<Transaction>)
        ensures
            transaction_views(list@) == self@.transactions,
    {
        let mut list: Vec<Transaction> = Vec::new();
        let mut i: usize = 0;
        while i < self.transactions.len()
            invariant
                i <= self.transactions.len(),
                list@.len() == i,
                forall|k: int| 0 <= k < i ==> (#[trigger] list@[k])@ == self.transactions@[k]@,
            decreases self.transactions.len() - i,
        {
            list.push(self.transactions[i].clone());
            i = i + 1;
        }
        assert(transaction_views(list@) =~= self@.transactions);
        list
    }

    /// The transactions that `name` sent or received, in the order in which
    /// they were recorded.
    pub fn transactions_for_user(&self, name: &str) -> (list: Vec<Transaction>)
        ensures
            transaction_views(list@) == involving(self@.transactions, name@),
    {
        let mut list: Vec<Transaction> = Vec::new();
        let mut i: usize = 0;
        assert(self@.transactions.take(0) =~= Seq::empty());
        while i < self.transactions.len()
            invariant
                i <= self.transactions.len(),
                transaction_views(list@) == involving(self@.transactions.take(i as int), name@),
            decreases self.transactions.len() - i,
        {
            let tx = &self.transactions[i];
            let ghost seen = self@.transactions.take(i as int);
            let ghost next = self@.transactions.take(i + 1);
            assert(next.drop_last() =~= seen);
            assert(next.last() == tx@);
            if str_eq(tx.sender.as_str(), name) || str_eq(tx.beneficiary.as_str(), name) {
                let ghost shown = transaction_views(list@);
                list.push(tx.clone());
                assert(transaction_views(list@) =~= shown.push(tx@));
            }
            i = i + 1;
        }
        assert(self@.transactions.take(i as int) =~= self@.transactions);
        list
    }

    /// The transaction with the key `(lamport_time, origin_node)`, if there is
    /// one.
    pub fn transaction(&self, lamport_time: i64, origin_node: &str) -> (found: Option<Transaction>)
        requires
            self@.valid(),
        ensures
            found is Some <==> self@.has_transaction(lamport_time as int, origin_node@),
            found matches Some(tx) ==> tx@ == self@.transaction(lamport_time as int, origin_node@),
    {
        match self.find_transaction(lamport_time, origin_node) {
            Some(i) => {
                proof {
                    lemma_transaction_at(self@, lamport_time as int, origin_node@, i as int);
                }
                Some(self.transactions[i].clone())
            },
            None => None,
        }
    }

    /// The balance of the user `name`, if there is one.
    pub fn balance_of(&self, name: &str) -> (balance: Option<i64>)
        requires
            self@.valid(),
        ensures
            balance is Some <==> self@.has_user(name@),
            balance matches Some(b) ==> b == self@.balance(name@),
    {
        match self.find_user(name) {
            Some(i) => Some(self.users[i].balance),
            None => None,
        }
    }
}

/// Where names are distinct, the user named `name` is the one at the index
/// that holds the name.
proof fn lemma_balance_at(ledger: LedgerView, name: Seq<char>, i: int)
    requires
        ledger.valid(),
        0 <= i < ledger.users.len(),
        ledger.users[i].name == name,
    ensures
        ledger.has_user(name),
        ledger.balance(name) == ledger.users[i].balance,
{
    let j = choose|j: int| 0 <= j < ledger.users.len() && (#[trigger] ledger.users[j]).name == name;
    assert(i == j);
}

/// Where keys are distinct, the transaction with a key is the one at the index
/// that holds the key.
proof fn lemma_transaction_at(ledger: LedgerView, lamport_time: int, origin_node: Seq<char>, i: int)
    requires
        ledger.valid(),
        0 <= i < ledger.transactions.len(),
        ledger.transactions[i].has_key(lamport_time, origin_node),
    ensures
        ledger.has_transaction(lamport_time, origin_node),
        ledger.transaction(lamport_time, origin_node) == ledger.transactions[i],
{
    let j = choose|j: int|
        0 <= j < ledger.transactions.len() && (#[trigger] ledger.transactions[j]).has_key(
            lamport_time,
            origin_node,
        );
    assert(i == j);
}

/// What settling a transaction does to each user: the sender loses the
/// amount, the beneficiary gains it, and one who is both keeps the balance.
proof fn lemma_settled_pointwise(ledger: LedgerView, tx: TransactionView)
    ensures
        settled(ledger.users, tx).len() == ledger.users.len(),
        forall|k: int|
            0 <= k < ledger.users.len() ==> {
                let user = ledger.users[k];
                let after = #[trigger] settled(ledger.users, tx)[k];
                &&& after.name == user.name
                &&& after.balance == user.balance - (if user.name == tx.sender {
                    tx.amount
                } else {
                    0
                }) + (if user.name == tx.beneficiary {
                    tx.amount
                } else {
                    0
                })
            },
{
}

/// A ledger that was valid is valid once a transaction has been recorded.
pub proof fn lemma_entered_valid(ledger: LedgerView, tx: TransactionView, guarded: bool)
    requires
        ledger.valid(),
        ledger.entered(tx, guarded) is Ok,
    ensures
        ledger.posted(tx).valid(),
{
    let after = ledger.posted(tx);
    lemma_settled_pointwise(ledger, tx);
    assert forall|party: Seq<char>| ledger.knows(party) implies after.knows(party) by {
        if party != sentinel() {
            let i = choose|i: int| 0 <= i < ledger.users.len() && (#[trigger] ledger.users[i]).name == party;
            assert(after.users[i].name == party);
        }
    }
    assert forall|i: int| 0 <= i < after.transactions.len() implies {
        let t = #[trigger] after.transactions[i];
        t.amount > 0 && after.knows(t.sender) && after.knows(t.beneficiary)
    } by {
        if i < ledger.transactions.len() {
            let t = ledger.transactions[i];
            assert(ledger.knows(t.sender) && ledger.knows(t.beneficiary));
        }
    }
    assert forall|i: int, j: int| 0 <= i < j < after.transactions.len() implies !(
    #[trigger] after.transactions[i]).has_key(
        (#[trigger] after.transactions[j]).lamport_time,
        after.transactions[j].origin_node,
    ) by {
        if j == ledger.transactions.len() {
            assert(ledger.transactions[i] == after.transactions[i]);
        } else {
            assert(ledger.transactions[i] == after.transactions[i]);
            assert(ledger.transactions[j] == after.transactions[j]);
        }
    }
}

/// A party that a ledger knows is still known once a user has joined.
proof fn lemma_known_stays(ledger: LedgerView, name: Seq<char>, party: Seq<char>)
    requires
        ledger.knows(party),
    ensures
        ledger.with_user(name).knows(party),
{
    if party != sentinel() {
        let i = choose|i: int| 0 <= i < ledger.users.len() && (#[trigger] ledger.users[i]).name == party;
        assert(ledger.with_user(name).users[i].name == party);
    }
}

} // verus!
