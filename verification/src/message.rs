//! What goes over the wire: the payload that lets a peer replay a command, and
//! the envelope round it.

use vstd::prelude::*;
use crate::command::{Command, CommandView};
use crate::origin::{Stamp, StampView};

verus! {

/// What kind of traffic an envelope holds.
#[derive(Debug, Clone, Copy, PartialEq, Eq, Structural)]
pub enum NetworkMessageCode {
    /// A command that changes the ledger.
    Transaction,
    /// Reserved: peers that look for each other.
    Discovery,
    /// Reserved: a peer that confirms what it received.
    Acknowledgment,
}

/// The payload of a replayed `CreateUser`.
#[derive(Debug, PartialEq, Eq)]
pub struct CreateUser {
    pub name: String,
}

/// The payload of a replayed `Deposit`.
#[derive(Debug, PartialEq, Eq)]
pub struct Deposit {
    pub name: String,
    pub amount: i64,
}

/// The payload of a replayed `Withdraw`.
#[derive(Debug, PartialEq, Eq)]
pub struct Withdraw {
    pub name: String,
    pub amount: i64,
}

/// The payload of a replayed `Transfer`.
#[derive(Debug, PartialEq, Eq)]
pub struct Transfer {
    pub sender: String,
    pub beneficiary: String,
    pub amount: i64,
}

/// The payload of a replayed `Pay`.
#[derive(Debug, PartialEq, Eq)]
pub struct Pay {
    pub name: String,
    pub amount: i64,
}

impl CreateUser {
    pub fn new(name: String) -> (payload: CreateUser)
        ensures
            payload.name == name,
    {
        CreateUser { name }
    }
}

impl Deposit {
    pub fn new(name: String, amount: i64) -> (payload: Deposit)
        ensures
            payload.name == name,
            payload.amount == amount,
    {
        Deposit { name, amount }
    }
}

impl Withdraw {
    pub fn new(name: String, amount: i64) -> (payload: Withdraw)
        ensures
            payload.name == name,
            payload.amount == amount,
    {
        Withdraw { name, amount }
    }
}

impl Transfer {
    pub fn new(sender: String, beneficiary: String, amount: i64) -> (payload: Transfer)
        ensures
            payload.sender == sender,
            payload.beneficiary == beneficiary,
            payload.amount == amount,
    {
        Transfer { sender, beneficiary, amount }
    }
}

impl Pay {
    pub fn new(name: String, amount: i64) -> (payload: Pay)
        ensures
            payload.name == name,
            payload.amount == amount,
    {
        Pay { name, amount }
    }
}

/// The data that a peer needs to replay a command without asking anybody. A
/// refund has no payload: it is not replayed.
#[derive(Debug, PartialEq, Eq)]
pub enum MessageInfo {
    CreateUser(CreateUser),
    Deposit(Deposit),
    Withdraw(Withdraw),
    Transfer(Transfer),
    Pay(Pay),
}

/// A payload as a mathematical value.
pub enum MessageInfoView {
    CreateUser { name: Seq<char> },
    Deposit { name: Seq<char>, amount: int },
    Withdraw { name: Seq<char>, amount: int },
    Transfer { sender: Seq<char>, beneficiary: Seq<char>, amount: int },
    Pay { name: Seq<char>, amount: int },
}

impl View for MessageInfo {
    type V = MessageInfoView;

    open spec fn view(&self) -> MessageInfoView {
        match self {
            MessageInfo::CreateUser(p) => MessageInfoView::CreateUser { name: p.name@ },
            MessageInfo::Deposit(p) => MessageInfoView::Deposit {
                name: p.name@,
                amount: p.amount as int,
            },
            MessageInfo::Withdraw(p) => MessageInfoView::Withdraw {
                name: p.name@,
                amount: p.amount as int,
            },
            MessageInfo::Transfer(p) => MessageInfoView::Transfer {
                sender: p.sender@,
                beneficiary: p.beneficiary@,
                amount: p.amount as int,
            },
            MessageInfo::Pay(p) => MessageInfoView::Pay { name: p.name@, amount: p.amount as int },
        }
    }
}

/// The arguments that a command works on, gathered from the operator or taken
/// from a payload.
#[derive(Debug, PartialEq, Eq)]
pub enum Arguments {
    Nothing,
    /// A user's name.
    User(String),
    /// A user's name and an amount.
    UserAmount(String, i64),
    /// A sender, a beneficiary and an amount.
    Transfer(String, String, i64),
    /// The key of the transaction to refund: its logical time and its node.
    Refund(i64, String),
}

/// Arguments as a mathematical value.
pub enum ArgumentsView {
    Nothing,
    User(Seq<char>),
    UserAmount(Seq<char>, int),
    Transfer(Seq<char>, Seq<char>, int),
    Refund(int, Seq<char>),
}

impl View for Arguments {
    type V = ArgumentsView;

    open spec fn view(&self) -> ArgumentsView {
        match self {
            Arguments::Nothing => ArgumentsView::Nothing,
            Arguments::User(name) => ArgumentsView::User(name@),
            Arguments::UserAmount(name, amount) => ArgumentsView::UserAmount(name@, *amount as int),
            Arguments::Transfer(sender, beneficiary, amount) => ArgumentsView::Transfer(
                sender@,
                beneficiary@,
                *amount as int,
            ),
            Arguments::Refund(lamport_time, node) => ArgumentsView::Refund(
                *lamport_time as int,
                node@,
            ),
        }
    }
}

/// Which arguments a command works on.
#[derive(Debug, Clone, Copy, PartialEq, Eq, Structural)]
pub enum ArgumentKind {
    Nothing,
    User,
    UserAmount,
    Transfer,
    Refund,
}

impl ArgumentsView {
    /// Which kind of arguments these are.
    pub open spec fn kind(self) -> ArgumentKind {
        match self {
            ArgumentsView::Nothing => ArgumentKind::Nothing,
            ArgumentsView::User(_) => ArgumentKind::User,
            ArgumentsView::UserAmount(_, _) => ArgumentKind::UserAmount,
            ArgumentsView::Transfer(_, _, _) => ArgumentKind::Transfer,
            ArgumentsView::Refund(_, _) => ArgumentKind::Refund,
        }
    }
}

impl Arguments {
    /// Which kind of arguments these are.
    pub fn kind(&self) -> (kind: ArgumentKind)
        ensures
            kind == self@.kind(),
    {
        match self {
            Arguments::Nothing => ArgumentKind::Nothing,
            Arguments::User(_) => ArgumentKind::User,
            Arguments::UserAmount(_, _) => ArgumentKind::UserAmount,
            Arguments::Transfer(_, _, _) => ArgumentKind::Transfer,
            Arguments::Refund(_, _) => ArgumentKind::Refund,
        }
    }
}

impl CommandView {
    /// Which arguments the command works on.
    pub open spec fn needs(self) -> ArgumentKind {
        match self {
            CommandView::CreateUser => ArgumentKind::User,
            CommandView::PrintUserTransactions => ArgumentKind::User,
            CommandView::Deposit => ArgumentKind::UserAmount,
            CommandView::Withdraw => ArgumentKind::UserAmount,
            CommandView::Pay => ArgumentKind::UserAmount,
            CommandView::Transfer => ArgumentKind::Transfer,
            CommandView::Refund => ArgumentKind::Refund,
            _ => ArgumentKind::Nothing,
        }
    }
}

/// Which arguments `command` works on: what the operator is asked for before
/// the command is handled.
pub fn arguments_needed(command: &Command) -> (kind: ArgumentKind)
    ensures
        kind == command@.needs(),
{
    match command {
        Command::CreateUser => ArgumentKind::User,
        Command::PrintUserTransactions => ArgumentKind::User,
        Command::Deposit => ArgumentKind::UserAmount,
        Command::Withdraw => ArgumentKind::UserAmount,
        Command::Pay => ArgumentKind::UserAmount,
        Command::Transfer => ArgumentKind::Transfer,
        Command::Refund => ArgumentKind::Refund,
        _ => ArgumentKind::Nothing,
    }
}

/// The payload that lets a peer replay `command` on `arguments`: the variant
/// that mirrors the command, with the arguments as they are. There is none for
/// a command that does not replicate, nor for arguments of the wrong kind.
pub open spec fn payload_for(command: CommandView, arguments: ArgumentsView) -> Option<
    MessageInfoView,
> {
    match (command, arguments) {
        (CommandView::CreateUser, ArgumentsView::User(name)) => Some(
            MessageInfoView::CreateUser { name },
        ),
        (CommandView::Deposit, ArgumentsView::UserAmount(name, amount)) => Some(
            MessageInfoView::Deposit { name, amount },
        ),
        (CommandView::Withdraw, ArgumentsView::UserAmount(name, amount)) => Some(
            MessageInfoView::Withdraw { name, amount },
        ),
        (CommandView::Transfer, ArgumentsView::Transfer(sender, beneficiary, amount)) => Some(
            MessageInfoView::Transfer { sender, beneficiary, amount },
        ),
        (CommandView::Pay, ArgumentsView::UserAmount(name, amount)) => Some(
            MessageInfoView::Pay { name, amount },
        ),
        _ => None,
    }
}

impl MessageInfoView {
    /// The command that the payload replays.
    pub open spec fn command(self) -> CommandView {
        match self {
            MessageInfoView::CreateUser { .. } => CommandView::CreateUser,
            MessageInfoView::Deposit { .. } => CommandView::Deposit,
            MessageInfoView::Withdraw { .. } => CommandView::Withdraw,
            MessageInfoView::Transfer { .. } => CommandView::Transfer,
            MessageInfoView::Pay { .. } => CommandView::Pay,
        }
    }

    /// The arguments that the payload supplies.
    pub open spec fn arguments(self) -> ArgumentsView {
        match self {
            MessageInfoView::CreateUser { name } => ArgumentsView::User(name),
            MessageInfoView::Deposit { name, amount } => ArgumentsView::UserAmount(name, amount),
            MessageInfoView::Withdraw { name, amount } => ArgumentsView::UserAmount(name, amount),
            MessageInfoView::Transfer { sender, beneficiary, amount } => ArgumentsView::Transfer(
                sender,
                beneficiary,
                amount,
            ),
            MessageInfoView::Pay { name, amount } => ArgumentsView::UserAmount(name, amount),
        }
    }
}

impl MessageInfo {
    /// The payload for `command` on `arguments`, if the command replicates
    /// and the arguments are of its kind.
    pub fn build(command: &Command, arguments: &Arguments) -> (payload: Option<MessageInfo>)
        ensures
            payload is Some <==> payload_for(command@, arguments@) is Some,
            payload matches Some(p) ==> Some(p@) == payload_for(command@, arguments@),
    {
        match (command, arguments) {
            (Command::CreateUser, Arguments::User(name)) => Some(
                MessageInfo::CreateUser(CreateUser::new(name.clone())),
            ),
            (Command::Deposit, Arguments::UserAmount(name, amount)) => Some(
                MessageInfo::Deposit(Deposit::new(name.clone(), *amount)),
            ),
            (Command::Withdraw, Arguments::UserAmount(name, amount)) => Some(
                MessageInfo::Withdraw(Withdraw::new(name.clone(), *amount)),
            ),
            (Command::Transfer, Arguments::Transfer(sender, beneficiary, amount)) => Some(
                MessageInfo::Transfer(Transfer::new(sender.clone(), beneficiary.clone(), *amount)),
            ),
            (Command::Pay, Arguments::UserAmount(name, amount)) => Some(
                MessageInfo::Pay(Pay::new(name.clone(), *amount)),
            ),
            _ => None,
        }
    }

    /// The command that the payload replays.
    pub fn command(&self) -> (command: Command)
        ensures
            command@ == self@.command(),
    {
        match self {
            MessageInfo::CreateUser(_) => Command::CreateUser,
            MessageInfo::Deposit(_) => Command::Deposit,
            MessageInfo::Withdraw(_) => Command::Withdraw,
            MessageInfo::Transfer(_) => Command::Transfer,
            MessageInfo::Pay(_) => Command::Pay,
        }
    }

    /// Whether `command` is the one that the payload replays.
    pub fn replays(&self, command: &Command) -> (yes: bool)
        ensures
            yes == (command@ == self@.command()),
    {
        match (self, command) {
            (MessageInfo::CreateUser(_), Command::CreateUser) => true,
            (MessageInfo::Deposit(_), Command::Deposit) => true,
            (MessageInfo::Withdraw(_), Command::Withdraw) => true,
            (MessageInfo::Transfer(_), Command::Transfer) => true,
            (MessageInfo::Pay(_), Command::Pay) => true,
            _ => false,
        }
    }

    /// The arguments that the payload supplies.
    pub fn arguments(&self) -> (arguments: Arguments)
        ensures
            arguments@ == self@.arguments(),
    {
        match self {
            MessageInfo::CreateUser(p) => Arguments::User(p.name.clone()),
            MessageInfo::Deposit(p) => Arguments::UserAmount(p.name.clone(), p.amount),
            MessageInfo::Withdraw(p) => Arguments::UserAmount(p.name.clone(), p.amount),
            MessageInfo::Transfer(p) => Arguments::Transfer(
                p.sender.clone(),
                p.beneficiary.clone(),
                p.amount,
            ),
            MessageInfo::Pay(p) => Arguments::UserAmount(p.name.clone(), p.amount),
        }
    }
}

/// The envelope that peers exchange. It is made once, where the command was
/// typed, and carries the stamp of the record that the command left there, so
/// that every peer keeps the same record.
#[derive(Debug, PartialEq, Eq)]
pub struct Message {
    pub origin_command: Option<Command>,
    pub code: NetworkMessageCode,
    pub payload: MessageInfo,
    pub stamp: Stamp,
}

/// An envelope as a mathematical value.
pub struct MessageView {
    pub origin_command: Option<CommandView>,
    pub code: NetworkMessageCode,
    pub payload: MessageInfoView,
    pub stamp: StampView,
}

impl View for Message {
    type V = MessageView;

    open spec fn view(&self) -> MessageView {
        MessageView {
            origin_command: match self.origin_command {
                Some(command) => Some(command@),
                None => None,
            },
            code: self.code,
            payload: self.payload@,
            stamp: self.stamp@,
        }
    }
}

impl MessageView {
    /// The envelope that tells peers of a command applied under `stamp`.
    pub open spec fn transaction(payload: MessageInfoView, stamp: StampView) -> MessageView {
        MessageView {
            origin_command: Some(payload.command()),
            code: NetworkMessageCode::Transaction,
            payload,
            stamp,
        }
    }

    /// Whether the envelope holds a ledger command.
    pub open spec fn is_transaction(self) -> bool {
        self.code == NetworkMessageCode::Transaction
    }

    /// Whether the command that the envelope names, if it names one, is the
    /// one that its payload replays.
    pub open spec fn consistent(self) -> bool {
        self.origin_command matches Some(command) ==> command == self.payload.command()
    }
}

impl Message {
    /// The envelope that tells peers of a command applied under `stamp`.
    pub fn transaction(payload: MessageInfo, stamp: Stamp) -> (message: Message)
        ensures
            message@ == MessageView::transaction(payload@, stamp@),
    {
        let command = payload.command();
        Message {
            origin_command: Some(command),
            code: NetworkMessageCode::Transaction,
            payload,
            stamp,
        }
    }

    /// Whether the envelope holds a ledger command.
    pub fn is_transaction(&self) -> (yes: bool)
        ensures
            yes == self@.is_transaction(),
    {
        match self.code {
            NetworkMessageCode::Transaction => true,
            _ => false,
        }
    }

    /// Whether the command that the envelope names, if it names one, is the
    /// one that its payload replays.
    pub fn consistent(&self) -> (yes: bool)
        ensures
            yes == self@.consistent(),
    {
        match &self.origin_command {
            Some(command) => self.payload.replays(command),
            None => true,
        }
    }
}

/// A payload gives back the command and the arguments it was built from, and
/// is rebuilt from them as it was.
pub proof fn lemma_payload_round_trip(command: CommandView, arguments: ArgumentsView)
    requires
        payload_for(command, arguments) is Some,
    ensures
        command.replicates(),
        arguments.kind() == command.needs(),
        payload_for(command, arguments)->0.command() == command,
        payload_for(command, arguments)->0.arguments() == arguments,
{
}

/// Every payload is the payload of its own command and arguments.
pub proof fn lemma_payload_rebuilt(payload: MessageInfoView)
    ensures
        payload_for(payload.command(), payload.arguments()) == Some(payload),
{
}

/// A command that replicates has a payload for arguments of its kind.
pub proof fn lemma_replicable_has_payload(command: CommandView, arguments: ArgumentsView)
    requires
        command.replicates(),
        arguments.kind() == command.needs(),
    ensures
        payload_for(command, arguments) is Some,
{
}

} // verus!
