//! The commands of a node and how a line of input names one.

use vstd::prelude::*;
use vstd::string::*;
use crate::text::{str_eq, trim, trimmed};

verus! {

/// What a node can be asked to do.
#[derive(Debug, PartialEq, Eq)]
pub enum Command {
    CreateUser,
    UserAccounts,
    PrintUserTransactions,
    PrintTransactions,
    Deposit,
    Withdraw,
    Transfer,
    Pay,
    Refund,
    Help,
    /// Input that names no command, with the input.
    Unknown(String),
    /// Input that could not be read, with the reason.
    Error(String),
}

/// A command as a mathematical value.
pub enum CommandView {
    CreateUser,
    UserAccounts,
    PrintUserTransactions,
    PrintTransactions,
    Deposit,
    Withdraw,
    Transfer,
    Pay,
    Refund,
    Help,
    Unknown(Seq<char>),
    Error(Seq<char>),
}

impl View for Command {
    type V = CommandView;

    open spec fn view(&self) -> CommandView {
        match self {
            Command::CreateUser => CommandView::CreateUser,
            Command::UserAccounts => CommandView::UserAccounts,
            Command::PrintUserTransactions => CommandView::PrintUserTransactions,
            Command::PrintTransactions => CommandView::PrintTransactions,
            Command::Deposit => CommandView::Deposit,
            Command::Withdraw => CommandView::Withdraw,
            Command::Transfer => CommandView::Transfer,
            Command::Pay => CommandView::Pay,
            Command::Refund => CommandView::Refund,
            Command::Help => CommandView::Help,
            Command::Unknown(text) => CommandView::Unknown(text@),
            Command::Error(text) => CommandView::Error(text@),
        }
    }
}

impl Clone for Command {
    fn clone(&self) -> (copy: Command)
        ensures
            copy@ == self@,
    {
        match self {
            Command::CreateUser => Command::CreateUser,
            Command::UserAccounts => Command::UserAccounts,
            Command::PrintUserTransactions => Command::PrintUserTransactions,
            Command::PrintTransactions => Command::PrintTransactions,
            Command::Deposit => Command::Deposit,
            Command::Withdraw => Command::Withdraw,
            Command::Transfer => Command::Transfer,
            Command::Pay => Command::Pay,
            Command::Refund => Command::Refund,
            Command::Help => Command::Help,
            Command::Unknown(text) => Command::Unknown(text.clone()),
            Command::Error(text) => Command::Error(text.clone()),
        }
    }
}

impl CommandView {
    /// Whether the command changes the ledger.
    pub open spec fn mutates(self) -> bool {
        ||| self is CreateUser
        ||| self is Deposit
        ||| self is Withdraw
        ||| self is Transfer
        ||| self is Pay
        ||| self is Refund
    }

    /// Whether peers are told of the command once it has been applied here.
    /// A refund changes the ledger but has no payload: it stays on its node.
    pub open spec fn replicates(self) -> bool {
        ||| self is CreateUser
        ||| self is Deposit
        ||| self is Withdraw
        ||| self is Transfer
        ||| self is Pay
    }
}

/// The command that the text `name` stands for: one of the ten words that
/// begin with a slash, and `Unknown` with the text for anything else.
pub open spec fn command_for(name: Seq<char>) -> CommandView {
    if name == "/create_user"@ {
        CommandView::CreateUser
    } else if name == "/user_accounts"@ {
        CommandView::UserAccounts
    } else if name == "/print_user_tsx"@ {
        CommandView::PrintUserTransactions
    } else if name == "/print_tsx"@ {
        CommandView::PrintTransactions
    } else if name == "/deposit"@ {
        CommandView::Deposit
    } else if name == "/withdraw"@ {
        CommandView::Withdraw
    } else if name == "/transfer"@ {
        CommandView::Transfer
    } else if name == "/pay"@ {
        CommandView::Pay
    } else if name == "/refund"@ {
        CommandView::Refund
    } else if name == "/help"@ {
        CommandView::Help
    } else {
        CommandView::Unknown(name)
    }
}

/// The text of the command that stands for an input that held no line.
pub open spec fn no_input_text() -> Seq<char> {
    "Aucun input"@
}

/// The text of the command that stands for an input that could not be read.
pub open spec fn read_failure_text() -> Seq<char> {
    "Erreur de lecture stdin"@
}

/// The input could not be read at all.
#[derive(Debug, Clone, Copy, PartialEq, Eq)]
pub struct ReadFailure;

impl Command {
    /// Whether the command changes the ledger.
    pub fn mutates(&self) -> (yes: bool)
        ensures
            yes == self@.mutates(),
    {
        match self {
            Command::CreateUser => true,
            Command::Deposit => true,
            Command::Withdraw => true,
            Command::Transfer => true,
            Command::Pay => true,
            Command::Refund => true,
            _ => false,
        }
    }

    /// Whether peers are told of the command once it has been applied here.
    pub fn replicates(&self) -> (yes: bool)
        ensures
            yes == self@.replicates(),
    {
        match self {
            Command::CreateUser => true,
            Command::Deposit => true,
            Command::Withdraw => true,
            Command::Transfer => true,
            Command::Pay => true,
            _ => false,
        }
    }
}

/// The command that `name` stands for, `name` taken as it is: white space
/// around it is part of it.
pub fn command_named(name: &str) -> (command: Command)
    ensures
        command@ == command_for(name@),
{
    if str_eq(name, "/create_user") {
        Command::CreateUser
    } else if str_eq(name, "/user_accounts") {
        Command::UserAccounts
    } else if str_eq(name, "/print_user_tsx") {
        Command::PrintUserTransactions
    } else if str_eq(name, "/print_tsx") {
        Command::PrintTransactions
    } else if str_eq(name, "/deposit") {
        Command::Deposit
    } else if str_eq(name, "/withdraw") {
        Command::Withdraw
    } else if str_eq(name, "/transfer") {
        Command::Transfer
    } else if str_eq(name, "/pay") {
        Command::Pay
    } else if str_eq(name, "/refund") {
        Command::Refund
    } else if str_eq(name, "/help") {
        Command::Help
    } else {
        Command::Unknown(String::from_str(name))
    }
}

/// The command that a line of input stands for, white space around it set
/// aside.
pub fn parse_command(input: &str) -> (command: Command)
    ensures
        command@ == command_for(trimmed(input@)),
{
    command_named(trim(input))
}

/// The command that one read of the input stands for: the parsed line, or
/// `Unknown` where the input held no line, or `Error` where the read failed.
pub fn run_cli(line: Result<Option<String>, ReadFailure>) -> (command: Command)
    ensures
        command@ == match line {
            Ok(Some(text)) => command_for(trimmed(text@)),
            Ok(None) => CommandView::Unknown(no_input_text()),
            Err(_) => CommandView::Error(read_failure_text()),
        },
{
    match line {
        Ok(Some(text)) => parse_command(text.as_str()),
        Ok(None) => Command::Unknown(String::from_str("Aucun input")),
        Err(_) => Command::Error(String::from_str("Erreur de lecture stdin")),
    }
}

} // verus!
