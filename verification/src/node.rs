//! A node: one participant, with its name, its clock and its replica of the
//! ledger.

use vstd::prelude::*;
use vstd::string::*;
use crate::clock::LamportClock;
use crate::command::Command;
use crate::control::{
    handle_command, handled, receive_message, received, result_view, CommandError, Effect,
};
use crate::laws::{lemma_clock_stays_ahead, lemma_local_key_never_taken};
use crate::ledger::Ledger;
use crate::message::{Arguments, Message};
use crate::model::{LedgerError, LedgerView};
use crate::origin::{Origin, OriginView};

verus! {

/// A participant. Its clock is never behind a stamp in its ledger, so that
/// the next record it makes has a key that no record has.
#[derive(Debug)]
pub struct Node {
    id: String,
    clock: LamportClock,
    ledger: Ledger,
}

impl Node {
    /// The name of the node.
    pub closed spec fn name(&self) -> Seq<char> {
        self.id@
    }

    /// What the clock shows.
    pub closed spec fn time(&self) -> int {
        self.clock@
    }

    /// The replica.
    pub closed spec fn replica(&self) -> LedgerView {
        self.ledger@
    }

    /// What a node keeps: a valid ledger, and a clock at or after every stamp
    /// in it.
    pub open spec fn wf(&self) -> bool {
        self.replica().valid() && self.replica().not_after(self.time())
    }

    /// A node named `id` with an empty ledger and its clock at `time`.
    pub fn new(id: &str, time: i64) -> (node: Node)
        ensures
            node.wf(),
            node.name() == id@,
            node.time() == time,
            node.replica() == LedgerView::empty(),
    {
        Node { id: String::from_str(id), clock: LamportClock::starting_at(time), ledger: Ledger::new() }
    }

    /// A node named `id` that takes up the ledger `ledger` with its clock at
    /// `time`, if no transaction in the ledger was stamped after `time`.
    pub fn restore(id: &str, time: i64, ledger: Ledger) -> (r: Option<Node>)
        requires
            ledger@.valid(),
        ensures
            r is Some <==> ledger@.not_after(time as int),
            r matches Some(node) ==> node.wf() && node.name() == id@ && node.time() == time
                && node.replica() == ledger@,
    {
        let fits = match ledger.latest_time() {
            Some(latest) => latest <= time,
            None => true,
        };
        if fits {
            Some(
                Node { id: String::from_str(id), clock: LamportClock::starting_at(time), ledger },
            )
        } else {
            None
        }
    }

    /// The name of the node.
    pub fn id(&self) -> (id: &str)
        ensures
            id@ == self.name(),
    {
        self.id.as_str()
    }

    /// What the clock shows.
    pub fn clock(&self) -> (time: i64)
        ensures
            time == self.time(),
    {
        self.clock.value()
    }

    /// The replica, to read.
    pub fn ledger(&self) -> (ledger: &Ledger)
        ensures
            ledger@ == self.replica(),
    {
        &self.ledger
    }

    /// Carries out a command that was typed at this node. The key of the
    /// record it makes is never taken.
    pub fn handle_command(&mut self, cmd: Command, arguments: Arguments) -> (r: Result<
        Effect,
        CommandError,
    >)
        requires
            old(self).wf(),
        ensures
            final(self).wf(),
            final(self).name() == old(self).name(),
            handled(
                cmd@,
                arguments@,
                old(self).replica(),
                old(self).time(),
                old(self).name(),
                OriginView::Local,
                result_view(r),
                final(self).replica(),
                final(self).time(),
            ),
            r != Err::<Effect, CommandError>(CommandError::Ledger(LedgerError::DuplicateTransaction)),
    {
        let origin = Origin::Local;
        let r = handle_command(
            cmd,
            arguments,
            &mut self.ledger,
            &mut self.clock,
            self.id.as_str(),
            &origin,
        );
        proof {
            lemma_clock_stays_ahead(
                cmd@,
                arguments@,
                old(self).replica(),
                old(self).time(),
                old(self).name(),
                OriginView::Local,
                result_view(r),
                self.replica(),
                self.time(),
            );
            lemma_local_key_never_taken(
                cmd@,
                arguments@,
                old(self).replica(),
                old(self).time(),
                old(self).name(),
                result_view(r),
                self.replica(),
                self.time(),
            );
        }
        r
    }

    /// Takes in an envelope from a peer. Nothing is handed to the broadcaster.
    pub fn receive_message(&mut self, message: Message) -> (r: Result<Effect, CommandError>)
        requires
            old(self).wf(),
        ensures
            final(self).wf(),
            final(self).name() == old(self).name(),
            received(
                message@,
                old(self).replica(),
                old(self).time(),
                old(self).name(),
                result_view(r),
                final(self).replica(),
                final(self).time(),
            ),
            r matches Ok(effect) ==> effect.broadcast is None,
    {
        let r = receive_message(message, &mut self.ledger, &mut self.clock, self.id.as_str());
        proof {
            if message@.is_transaction() && message@.consistent() {
                lemma_clock_stays_ahead(
                    message@.payload.command(),
                    message@.payload.arguments(),
                    old(self).replica(),
                    old(self).time(),
                    old(self).name(),
                    OriginView::Network(message@.stamp),
                    result_view(r),
                    self.replica(),
                    self.time(),
                );
            }
        }
        r
    }
}

} // verus!
