//! What holds of every run of the engine.

use vstd::prelude::*;
use crate::clock::{observed, ticked};
use crate::command::CommandView;
use crate::control::{handled, outcome, received, CommandError, EffectView};
use crate::message::{ArgumentsView, MessageView};
use crate::model::{stamped, LedgerError, LedgerView};
use crate::origin::{OriginView, StampView};
use crate::record::key_text;

verus! {

/// A ledger whose transactions were all stamped at or before the clock holds
/// no transaction under the key that the next local tick gives, whatever the
/// node.
pub proof fn lemma_next_key_is_fresh(ledger: LedgerView, clock: int, node: Seq<char>)
    requires
        ledger.not_after(clock),
    ensures
        !ledger.has_transaction(ticked(clock), node),
{
}

/// Two records made where they were typed have different keys unless one node
/// made both at one reading of its clock, which it never does: its clock moves
/// with every record.
pub proof fn lemma_local_stamps_differ(
    clock: int,
    node: Seq<char>,
    other_clock: int,
    other_node: Seq<char>,
)
    requires
        node != other_node || clock != other_clock,
    ensures
        OriginView::Local.stamp(clock, node) != OriginView::Local.stamp(other_clock, other_node),
{
}

/// What a command changes in the ledger is, if anything, one new user or one
/// new transaction, stamped as the origin asks.
pub proof fn lemma_outcome_shape(
    command: CommandView,
    arguments: ArgumentsView,
    ledger: LedgerView,
    stamp: StampView,
)
    requires
        outcome(command, arguments, ledger, stamp) is Ok,
    ensures
        ({
            let after = outcome(command, arguments, ledger, stamp)->Ok_0;
            ||| after == ledger
            ||| after.transactions == ledger.transactions && after.users.len() == ledger.users.len()
                + 1
            ||| after.users.len() == ledger.users.len() && after.transactions.len()
                == ledger.transactions.len() + 1 && after.transactions.drop_last()
                == ledger.transactions && after.transactions.last().has_key(
                stamp.lamport_time,
                stamp.origin_node,
            )
        }),
{
    let after = outcome(command, arguments, ledger, stamp)->Ok_0;
    if after != ledger && after.transactions != ledger.transactions {
        assert(after.transactions.drop_last() =~= ledger.transactions);
    }
}

/// A node keeps its clock at or after every stamp in its ledger: where that
/// held before a command was handled, it holds afterwards, and the clock has
/// not gone back.
pub proof fn lemma_clock_stays_ahead(
    command: CommandView,
    arguments: ArgumentsView,
    before: LedgerView,
    clock: int,
    node: Seq<char>,
    origin: OriginView,
    r: Result<EffectView, CommandError>,
    after: LedgerView,
    clock_after: int,
)
    requires
        before.not_after(clock),
        handled(command, arguments, before, clock, node, origin, r, after, clock_after),
    ensures
        after.not_after(clock_after),
        clock_after >= clock,
{
    if arguments.kind() == command.needs() && command.mutates() && origin.admits(clock) {
        let stamp = origin.stamp(clock, node);
        if outcome(command, arguments, before, stamp) is Ok {
            lemma_outcome_shape(command, arguments, before, stamp);
            assert forall|i: int| 0 <= i < after.transactions.len() implies (
            #[trigger] after.transactions[i]).lamport_time <= clock_after by {
                if after.transactions.len() == before.transactions.len() + 1 {
                    if i < before.transactions.len() {
                        assert(after.transactions.drop_last()[i] == after.transactions[i]);
                    }
                }
            }
        }
    }
}

/// No two transactions of a node's own making share a key: at a node whose
/// clock is at or after every stamp in its ledger, a command typed there is
/// never refused because its key is taken.
pub proof fn lemma_local_key_never_taken(
    command: CommandView,
    arguments: ArgumentsView,
    before: LedgerView,
    clock: int,
    node: Seq<char>,
    r: Result<EffectView, CommandError>,
    after: LedgerView,
    clock_after: int,
)
    requires
        before.not_after(clock),
        handled(command, arguments, before, clock, node, OriginView::Local, r, after, clock_after),
    ensures
        r != Err::<EffectView, CommandError>(
            CommandError::Ledger(LedgerError::DuplicateTransaction),
        ),
{
    lemma_next_key_is_fresh(before, clock, node);
}

/// A refund records one new transaction that sends the amount of the refunded
/// one back from its beneficiary to its sender and names it in the reference;
/// the refunded transaction and every other stay as they were.
pub proof fn lemma_refund_reverses(
    ledger: LedgerView,
    lamport_time: int,
    origin_node: Seq<char>,
    stamp: StampView,
)
    requires
        ledger.valid(),
        ledger.refunded(lamport_time, origin_node, stamp) is Ok,
    ensures
        ({
            let after = ledger.refunded(lamport_time, origin_node, stamp)->Ok_0;
            let refunded = ledger.transaction(lamport_time, origin_node);
            let refund = after.transactions.last();
            &&& after.transactions.len() == ledger.transactions.len() + 1
            &&& after.transactions.drop_last() == ledger.transactions
            &&& refunded.has_key(lamport_time, origin_node)
            &&& refund.has_key(stamp.lamport_time, stamp.origin_node)
            &&& refund.sender == refunded.beneficiary
            &&& refund.beneficiary == refunded.sender
            &&& refund.amount == refunded.amount
            &&& refund.reference == key_text(lamport_time, origin_node)
            &&& after.has_transaction(lamport_time, origin_node)
            &&& after.transaction(lamport_time, origin_node) == refunded
        }),
{
    let after = ledger.refunded(lamport_time, origin_node, stamp)->Ok_0;
    let refunded = ledger.transaction(lamport_time, origin_node);
    assert(after.transactions.drop_last() =~= ledger.transactions);
    let i = choose|i: int|
        0 <= i < ledger.transactions.len() && (#[trigger] ledger.transactions[i]).has_key(
            lamport_time,
            origin_node,
        );
    assert(after.transactions[i] == refunded);
    crate::ledger::lemma_entered_valid(ledger, refunded.reversal(stamp), false);
    let j = choose|j: int|
        0 <= j < after.transactions.len() && (#[trigger] after.transactions[j]).has_key(
            lamport_time,
            origin_node,
        );
    assert(i == j);
}

/// A command that came from the network is never handed to the broadcaster.
pub proof fn lemma_network_command_is_not_sent_on(
    command: CommandView,
    arguments: ArgumentsView,
    before: LedgerView,
    clock: int,
    node: Seq<char>,
    origin: OriginView,
    r: Result<EffectView, CommandError>,
    after: LedgerView,
    clock_after: int,
)
    requires
        origin.from_network(),
        handled(command, arguments, before, clock, node, origin, r, after, clock_after),
    ensures
        r matches Ok(effect) ==> effect.broadcast is None,
{
}

/// A command typed at the node and applied is handed to the broadcaster once
/// if it replicates, stamped as its record is, and not at all if it does not.
pub proof fn lemma_local_command_is_sent_once(
    command: CommandView,
    arguments: ArgumentsView,
    before: LedgerView,
    clock: int,
    node: Seq<char>,
    r: Result<EffectView, CommandError>,
    after: LedgerView,
    clock_after: int,
)
    requires
        handled(command, arguments, before, clock, node, OriginView::Local, r, after, clock_after),
        r is Ok,
    ensures
        r->Ok_0.broadcast is Some <==> command.replicates(),
        r->Ok_0.broadcast matches Some(message) ==> {
            &&& message.is_transaction()
            &&& message.consistent()
            &&& message.payload.command() == command
            &&& message.payload.arguments() == arguments
            &&& message.stamp == (StampView { lamport_time: clock_after, origin_node: node })
        },
{
}

/// Nothing that a peer receives is handed to its broadcaster.
pub proof fn lemma_received_is_not_sent_on(
    message: MessageView,
    before: LedgerView,
    clock: int,
    node: Seq<char>,
    r: Result<EffectView, CommandError>,
    after: LedgerView,
    clock_after: int,
)
    requires
        received(message, before, clock, node, r, after, clock_after),
    ensures
        r matches Ok(effect) ==> effect.broadcast is None,
{
}

/// A withdrawal of more than the user holds is refused with
/// `InsufficientFunds`, and a deposit or a withdrawal of nothing or less with
/// `InvalidAmount`.
pub proof fn lemma_amount_refusals(ledger: LedgerView, name: Seq<char>, amount: int, stamp: StampView)
    requires
        ledger.valid(),
        ledger.has_user(name),
    ensures
        amount <= 0 ==> ledger.deposited(name, amount, stamp) == Err::<LedgerView, LedgerError>(
            LedgerError::InvalidAmount,
        ),
        amount <= 0 ==> ledger.withdrawn(name, amount, stamp) == Err::<LedgerView, LedgerError>(
            LedgerError::InvalidAmount,
        ),
        amount > 0 && amount > ledger.balance(name) ==> ledger.withdrawn(name, amount, stamp)
            == Err::<LedgerView, LedgerError>(LedgerError::InsufficientFunds),
{
}

/// A withdrawal of more than the user holds fails with `InsufficientFunds`
/// and leaves the ledger, and so the balance, as it was, wherever it came from.
pub proof fn lemma_overdrawn_withdrawal_changes_nothing(
    before: LedgerView,
    clock: int,
    node: Seq<char>,
    origin: OriginView,
    name: Seq<char>,
    amount: int,
    r: Result<(), LedgerError>,
    after: LedgerView,
    clock_after: int,
)
    requires
        before.valid(),
        before.has_user(name),
        origin.admits(clock),
        amount > before.balance(name),
        amount > 0,
        stamped(
            before,
            clock,
            origin,
            before.withdrawn(name, amount, origin.stamp(clock, node)),
            r,
            after,
            clock_after,
        ),
    ensures
        r == Err::<(), LedgerError>(LedgerError::InsufficientFunds),
        after == before,
        after.balance(name) == before.balance(name),
{
}

/// An operation that is refused leaves the ledger, and with it every balance,
/// as it was.
pub proof fn lemma_refusal_changes_nothing(
    before: LedgerView,
    clock: int,
    origin: OriginView,
    result: Result<LedgerView, LedgerError>,
    r: Result<(), LedgerError>,
    after: LedgerView,
    clock_after: int,
)
    requires
        stamped(before, clock, origin, result, r, after, clock_after),
        r is Err,
    ensures
        after == before,
{
}

/// Two replicas converge: where a command typed at one node was applied and
/// handed out, a peer that holds the same ledger and receives the envelope ends
/// with the same ledger, and with its clock past the stamp. Both clocks must
/// have room left: a stamp at the very end of the range cannot be passed.
pub proof fn lemma_replay_converges(
    command: CommandView,
    arguments: ArgumentsView,
    ledger: LedgerView,
    clock: int,
    node: Seq<char>,
    r: Result<EffectView, CommandError>,
    after: LedgerView,
    clock_after: int,
    peer_clock: int,
    peer_node: Seq<char>,
    peer_r: Result<EffectView, CommandError>,
    peer_after: LedgerView,
    peer_clock_after: int,
)
    requires
        handled(command, arguments, ledger, clock, node, OriginView::Local, r, after, clock_after),
        r is Ok,
        r->Ok_0.broadcast is Some,
        clock_after < i64::MAX,
        peer_clock < i64::MAX,
        received(
            r->Ok_0.broadcast->0,
            ledger,
            peer_clock,
            peer_node,
            peer_r,
            peer_after,
            peer_clock_after,
        ),
    ensures
        peer_r is Ok,
        peer_r->Ok_0.broadcast is None,
        peer_after == after,
        peer_clock_after == observed(peer_clock, clock_after),
        peer_clock_after > clock_after,
{
}

} // verus!
