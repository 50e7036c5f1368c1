//! The dispatcher: what a command does to a node, and what the node owes the
//! operator and its peers afterwards.

use vstd::prelude::*;
use crate::clock::LamportClock;
use crate::command::{Command, CommandView};
use crate::ledger::Ledger;
use crate::message::{
    arguments_needed, payload_for, Arguments, ArgumentsView, Message, MessageInfo, MessageView,
};
use crate::model::{involving, LedgerError, LedgerView};
use crate::origin::{Origin, OriginView, StampView};
use crate::record::{
    sentinel, sentinel_name, transaction_views, user_views, Transaction, TransactionView, User,
    UserView,
};

verus! {

/// Why a command was not carried out.
#[derive(Debug, Clone, Copy, PartialEq, Eq, Structural)]
pub enum CommandError {
    /// The arguments are not of the kind that the command works on.
    Arguments,
    /// The envelope names another command than its payload replays.
    Malformed,
    /// The ledger refused the operation.
    Ledger(LedgerError),
}

/// What the operator is shown once a command has been handled.
#[derive(Debug, PartialEq, Eq)]
pub enum Report {
    Nothing,
    /// The accounts.
    Users(Vec<User>),
    /// Transactions, in the order in which they were recorded.
    Transactions(Vec<Transaction>),
    /// The list of commands.
    Help,
    /// The input named no command.
    Unknown(String),
    /// The input could not be read.
    Failure(String),
}

/// A report as a mathematical value.
pub enum ReportView {
    Nothing,
    Users(Seq<UserView>),
    Transactions(Seq<TransactionView>),
    Help,
    Unknown(Seq<char>),
    Failure(Seq<char>),
}

impl View for Report {
    type V = ReportView;

    open spec fn view(&self) -> ReportView {
        match self {
            Report::Nothing => ReportView::Nothing,
            Report::Users(list) => ReportView::Users(user_views(list@)),
            Report::Transactions(list) => ReportView::Transactions(transaction_views(list@)),
            Report::Help => ReportView::Help,
            Report::Unknown(text) => ReportView::Unknown(text@),
            Report::Failure(text) => ReportView::Failure(text@),
        }
    }
}

/// What is left to do once a command has been handled: at most one envelope
/// to hand to the broadcaster, and a report for the operator.
#[derive(Debug, PartialEq, Eq)]
pub struct Effect {
    pub broadcast: Option<Message>,
    pub report: Report,
}

/// An effect as a mathematical value.
pub struct EffectView {
    pub broadcast: Option<MessageView>,
    pub report: ReportView,
}

impl View for Effect {
    type V = EffectView;

    open spec fn view(&self) -> EffectView {
        EffectView {
            broadcast: match self.broadcast {
                Some(message) => Some(message@),
                None => None,
            },
            report: self.report@,
        }
    }
}

/// The result of a command with the effect as a mathematical value.
pub open spec fn result_view(r: Result<Effect, CommandError>) -> Result<EffectView, CommandError> {
    match r {
        Ok(effect) => Ok(effect@),
        Err(e) => Err(e),
    }
}

/// What a command that leaves the ledger alone shows the operator.
pub open spec fn report_for(
    command: CommandView,
    arguments: ArgumentsView,
    ledger: LedgerView,
) -> ReportView {
    match (command, arguments) {
        (CommandView::UserAccounts, _) => ReportView::Users(ledger.users),
        (CommandView::PrintUserTransactions, ArgumentsView::User(name)) => ReportView::Transactions(
            involving(ledger.transactions, name),
        ),
        (CommandView::PrintTransactions, _) => ReportView::Transactions(ledger.transactions),
        (CommandView::Help, _) => ReportView::Help,
        (CommandView::Unknown(text), _) => ReportView::Unknown(text),
        (CommandView::Error(text), _) => ReportView::Failure(text),
        _ => ReportView::Nothing,
    }
}

/// What a command that changes the ledger makes of it under `stamp`.
pub open spec fn outcome(
    command: CommandView,
    arguments: ArgumentsView,
    ledger: LedgerView,
    stamp: StampView,
) -> Result<LedgerView, LedgerError> {
    match (command, arguments) {
        (CommandView::CreateUser, ArgumentsView::User(name)) => ledger.created(name),
        (CommandView::Deposit, ArgumentsView::UserAmount(name, amount)) => ledger.deposited(
            name,
            amount,
            stamp,
        ),
        (CommandView::Withdraw, ArgumentsView::UserAmount(name, amount)) => ledger.withdrawn(
            name,
            amount,
            stamp,
        ),
        (CommandView::Transfer, ArgumentsView::Transfer(sender, beneficiary, amount)) => {
            ledger.transacted(sender, beneficiary, amount, stamp, Seq::empty())
        },
        (CommandView::Pay, ArgumentsView::UserAmount(name, amount)) => ledger.transacted(
            name,
            sentinel(),
            amount,
            stamp,
            Seq::empty(),
        ),
        (CommandView::Refund, ArgumentsView::Refund(lamport_time, origin_node)) => ledger.refunded(
            lamport_time,
            origin_node,
            stamp,
        ),
        _ => Ok(ledger),
    }
}

/// The envelope that the broadcaster gets once a command has been applied
/// under `stamp`: one for a command that replicates and was typed at this
/// node, none for any command that came from a peer.
pub open spec fn announcement(
    command: CommandView,
    arguments: ArgumentsView,
    origin: OriginView,
    stamp: StampView,
) -> Option<MessageView> {
    if origin.from_network() {
        None
    } else {
        match payload_for(command, arguments) {
            Some(payload) => Some(MessageView::transaction(payload, stamp)),
            None => None,
        }
    }
}

/// Whether handling `command` on `arguments`, asked for by `origin` at the node
/// `node` whose ledger is `before` and whose clock shows `clock`, ends with the
/// result `r`, the ledger `after` and the clock at `clock_after`.
///
/// Arguments of the wrong kind are refused. A command that leaves the ledger
/// alone changes nothing and reports. A command that changes the ledger is
/// refused with `ClockOverflow` where the clock has no room; otherwise the clock
/// moves as the origin asks, the ledger is the outcome's or stays where the
/// outcome is an error, and the effect holds the announcement.
pub open spec fn handled(
    command: CommandView,
    arguments: ArgumentsView,
    before: LedgerView,
    clock: int,
    node: Seq<char>,
    origin: OriginView,
    r: Result<EffectView, CommandError>,
    after: LedgerView,
    clock_after: int,
) -> bool {
    if arguments.kind() != command.needs() {
        r == Err::<EffectView, CommandError>(CommandError::Arguments) && after == before
            && clock_after == clock
    } else if !command.mutates() {
        r == Ok::<EffectView, CommandError>(
            EffectView { broadcast: None, report: report_for(command, arguments, before) },
        ) && after == before && clock_after == clock
    } else if !origin.admits(clock) {
        r == Err::<EffectView, CommandError>(CommandError::Ledger(LedgerError::ClockOverflow))
            && after == before && clock_after == clock
    } else {
        let stamp = origin.stamp(clock, node);
        match outcome(command, arguments, before, stamp) {
            Ok(ledger) => r == Ok::<EffectView, CommandError>(
                EffectView {
                    broadcast: announcement(command, arguments, origin, stamp),
                    report: ReportView::Nothing,
                },
            ) && after == ledger && clock_after == origin.clock_outcome(clock, true),
            Err(e) => r == Err::<EffectView, CommandError>(CommandError::Ledger(e)) && after
                == before && clock_after == origin.clock_outcome(clock, false),
        }
    }
}

/// Whether receiving `message` at the node `node` ends with the result `r`, the
/// ledger `after` and the clock at `clock_after`. An envelope that holds no
/// ledger command is passed over; one that names another command than its
/// payload replays is refused; any other is handled as a command from the
/// network, on the arguments and under the stamp that it carries.
pub open spec fn received(
    message: MessageView,
    before: LedgerView,
    clock: int,
    node: Seq<char>,
    r: Result<EffectView, CommandError>,
    after: LedgerView,
    clock_after: int,
) -> bool {
    if !message.is_transaction() {
        r == Ok::<EffectView, CommandError>(
            EffectView { broadcast: None, report: ReportView::Nothing },
        ) && after == before && clock_after == clock
    } else if !message.consistent() {
        r == Err::<EffectView, CommandError>(CommandError::Malformed) && after == before
            && clock_after == clock
    } else {
        handled(
            message.payload.command(),
            message.payload.arguments(),
            before,
            clock,
            node,
            OriginView::Network(message.stamp),
            r,
            after,
            clock_after,
        )
    }
}

/// The report of a command that leaves the ledger alone.
fn report(command: Command, arguments: &Arguments, ledger: &Ledger) -> (shown: Report)
    ensures
        shown@ == report_for(command@, arguments@, ledger@),
{
    match command {
        Command::UserAccounts => Report::Users(ledger.users()),
        Command::PrintUserTransactions => match arguments {
            Arguments::User(name) => Report::Transactions(
                ledger.transactions_for_user(name.as_str()),
            ),
            _ => Report::Nothing,
        },
        Command::PrintTransactions => Report::Transactions(ledger.transactions()),
        Command::Help => Report::Help,
        Command::Unknown(text) => Report::Unknown(text),
        Command::Error(text) => Report::Failure(text),
        _ => Report::Nothing,
    }
}

/// Carries out `cmd` on `arguments` at the node `node`, and says what is left
/// to do. A command from the network is applied as a local one is, under the
/// stamp it came with, and is never handed to the broadcaster again.
pub fn handle_command(
    cmd: Command,
    arguments: Arguments,
    ledger: &mut Ledger,
    clock: &mut LamportClock,
    node: &str,
    origin: &Origin,
) -> (r: Result<Effect, CommandError>)
    requires
        old(ledger)@.valid(),
    ensures
        final(ledger)@.valid(),
        handled(
            cmd@,
            arguments@,
            old(ledger)@,
            old(clock)@,
            node@,
            origin@,
            result_view(r),
            final(ledger)@,
            final(clock)@,
        ),
        origin@.from_network() ==> (r matches Ok(effect) ==> effect.broadcast is None),
{
    if arguments.kind() != arguments_needed(&cmd) {
        return Err(CommandError::Arguments);
    }
    if !cmd.mutates() {
        return Ok(Effect { broadcast: None, report: report(cmd, &arguments, ledger) });
    }
    if !origin.admits(clock) {
        return Err(CommandError::Ledger(LedgerError::ClockOverflow));
    }
    let stamp = origin.stamp(clock, node);
    proof {
        reveal_strlit("");
        assert(""@ =~= Seq::<char>::empty());
    }
    let applied: Result<(), LedgerError> = match (&cmd, &arguments) {
        (Command::CreateUser, Arguments::User(name)) => {
            let created = ledger.create_user(name.as_str());
            origin.advance(clock, created.is_ok());
            created
        },
        (Command::Deposit, Arguments::UserAmount(name, amount)) => ledger.deposit(
            name.as_str(),
            *amount,
            clock,
            node,
            origin,
        ),
        (Command::Withdraw, Arguments::UserAmount(name, amount)) => ledger.withdraw(
            name.as_str(),
            *amount,
            clock,
            node,
            origin,
        ),
        (Command::Transfer, Arguments::Transfer(sender, beneficiary, amount)) => {
            ledger.create_transaction(
                sender.as_str(),
                beneficiary.as_str(),
                *amount,
                clock,
                node,
                "",
                origin,
            )
        },
        (Command::Pay, Arguments::UserAmount(name, amount)) => ledger.create_transaction(
            name.as_str(),
            sentinel_name(),
            *amount,
            clock,
            node,
            "",
            origin,
        ),
        (Command::Refund, Arguments::Refund(lamport_time, origin_node)) => {
            ledger.refund_transaction(*lamport_time, origin_node.as_str(), clock, node, origin)
        },
        _ => Ok(()),
    };
    match applied {
        Err(e) => Err(CommandError::Ledger(e)),
        Ok(()) => {
            let broadcast = if origin.from_network() {
                None
            } else {
                match MessageInfo::build(&cmd, &arguments) {
                    Some(payload) => Some(Message::transaction(payload, stamp)),
                    None => None,
                }
            };
            Ok(Effect { broadcast, report: Report::Nothing })
        },
    }
}

/// Takes in an envelope from a peer: replays the command it holds under the
/// stamp it carries, lets the clock see that stamp, and never sends it on.
pub fn receive_message(
    message: Message,
    ledger: &mut Ledger,
    clock: &mut LamportClock,
    node: &str,
) -> (r: Result<Effect, CommandError>)
    requires
        old(ledger)@.valid(),
    ensures
        final(ledger)@.valid(),
        received(
            message@,
            old(ledger)@,
            old(clock)@,
            node@,
            result_view(r),
            final(ledger)@,
            final(clock)@,
        ),
        r matches Ok(effect) ==> effect.broadcast is None,
{
    if !message.is_transaction() {
        return Ok(Effect { broadcast: None, report: Report::Nothing });
    }
    if !message.consistent() {
        return Err(CommandError::Malformed);
    }
    let command = message.payload.command();
    let arguments = message.payload.arguments();
    let origin = Origin::Network(message.stamp);
    handle_command(command, arguments, ledger, clock, node, &origin)
}

} // verus!
