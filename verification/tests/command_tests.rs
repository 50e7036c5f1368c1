use peer_ledger::command::{command_named, parse_command, run_cli, Command, ReadFailure};
use peer_ledger::input::{answer, parse_amount, parse_integer};
use peer_ledger::message::{arguments_needed, ArgumentKind};

#[test]
fn every_command_word_is_recognised() {
    assert_eq!(parse_command("/create_user"), Command::CreateUser);
    assert_eq!(parse_command("/user_accounts"), Command::UserAccounts);
    assert_eq!(parse_command("/print_user_tsx"), Command::PrintUserTransactions);
    assert_eq!(parse_command("/print_tsx"), Command::PrintTransactions);
    assert_eq!(parse_command("/deposit"), Command::Deposit);
    assert_eq!(parse_command("/withdraw"), Command::Withdraw);
    assert_eq!(parse_command("/transfer"), Command::Transfer);
    assert_eq!(parse_command("/pay"), Command::Pay);
    assert_eq!(parse_command("/refund"), Command::Refund);
    assert_eq!(parse_command("/help"), Command::Help);
}

#[test]
fn white_space_around_a_command_is_set_aside() {
    assert_eq!(parse_command("  /deposit \n"), Command::Deposit);
    assert_eq!(parse_command("\t/help\r\n"), Command::Help);
    assert_eq!(parse_command("\u{2003}/pay\u{00a0}"), Command::Pay);
}

#[test]
fn other_text_is_unknown_and_kept_trimmed() {
    assert_eq!(parse_command("deposit"), Command::Unknown("deposit".to_string()));
    assert_eq!(parse_command("  /Deposit  "), Command::Unknown("/Deposit".to_string()));
    assert_eq!(parse_command("/deposit now"), Command::Unknown("/deposit now".to_string()));
    assert_eq!(parse_command(""), Command::Unknown(String::new()));
    assert_eq!(parse_command("   "), Command::Unknown(String::new()));
}

#[test]
fn a_name_is_taken_as_it_is() {
    assert_eq!(command_named("/refund"), Command::Refund);
    assert_eq!(command_named(" /refund"), Command::Unknown(" /refund".to_string()));
    assert_eq!(command_named("/refund\n"), Command::Unknown("/refund\n".to_string()));
}

#[test]
fn run_cli_parses_a_line() {
    assert_eq!(run_cli(Ok(Some("/transfer\n".to_string()))), Command::Transfer);
    assert_eq!(run_cli(Ok(Some("what".to_string()))), Command::Unknown("what".to_string()));
}

#[test]
fn run_cli_without_a_line_is_unknown() {
    assert_eq!(run_cli(Ok(None)), Command::Unknown("Aucun input".to_string()));
}

#[test]
fn run_cli_after_a_failed_read_is_an_error() {
    assert_eq!(run_cli(Err(ReadFailure)), Command::Error("Erreur de lecture stdin".to_string()));
}

#[test]
fn commands_that_change_the_ledger() {
    for command in [
        Command::CreateUser,
        Command::Deposit,
        Command::Withdraw,
        Command::Transfer,
        Command::Pay,
    ] {
        assert!(command.mutates());
        assert!(command.replicates());
    }
    assert!(Command::Refund.mutates());
    assert!(!Command::Refund.replicates());
    for command in [
        Command::UserAccounts,
        Command::PrintUserTransactions,
        Command::PrintTransactions,
        Command::Help,
        Command::Unknown("x".to_string()),
        Command::Error("x".to_string()),
    ] {
        assert!(!command.mutates());
        assert!(!command.replicates());
    }
}

#[test]
fn a_cloned_command_is_the_same() {
    let command = Command::Unknown("abc".to_string());
    assert_eq!(command.clone(), command);
    assert_eq!(Command::Pay.clone(), Command::Pay);
}

#[test]
fn arguments_that_each_command_needs() {
    assert_eq!(arguments_needed(&Command::CreateUser), ArgumentKind::User);
    assert_eq!(arguments_needed(&Command::PrintUserTransactions), ArgumentKind::User);
    assert_eq!(arguments_needed(&Command::Deposit), ArgumentKind::UserAmount);
    assert_eq!(arguments_needed(&Command::Withdraw), ArgumentKind::UserAmount);
    assert_eq!(arguments_needed(&Command::Pay), ArgumentKind::UserAmount);
    assert_eq!(arguments_needed(&Command::Transfer), ArgumentKind::Transfer);
    assert_eq!(arguments_needed(&Command::Refund), ArgumentKind::Refund);
    assert_eq!(arguments_needed(&Command::UserAccounts), ArgumentKind::Nothing);
    assert_eq!(arguments_needed(&Command::PrintTransactions), ArgumentKind::Nothing);
    assert_eq!(arguments_needed(&Command::Help), ArgumentKind::Nothing);
    assert_eq!(arguments_needed(&Command::Unknown("x".to_string())), ArgumentKind::Nothing);
    assert_eq!(arguments_needed(&Command::Error("x".to_string())), ArgumentKind::Nothing);
}

#[test]
fn an_answer_is_the_line_trimmed() {
    assert_eq!(answer("  alice \n"), "alice");
    assert_eq!(answer("bob"), "bob");
    assert_eq!(answer(" two words\t"), "two words");
    assert_eq!(answer("\n"), "");
}

#[test]
fn amounts_are_read_in_hundredths() {
    assert_eq!(parse_amount("100"), Some(10000));
    assert_eq!(parse_amount("12.5"), Some(1250));
    assert_eq!(parse_amount("12.50"), Some(1250));
    assert_eq!(parse_amount("0.01"), Some(1));
    assert_eq!(parse_amount("007.07"), Some(707));
    assert_eq!(parse_amount("92233720368547758.07"), Some(i64::MAX));
}

#[test]
fn amounts_that_are_not_positive_decimals_are_refused() {
    assert_eq!(parse_amount(""), None);
    assert_eq!(parse_amount("0"), None);
    assert_eq!(parse_amount("0.00"), None);
    assert_eq!(parse_amount("-5"), None);
    assert_eq!(parse_amount("+5"), None);
    assert_eq!(parse_amount("1."), None);
    assert_eq!(parse_amount(".5"), None);
    assert_eq!(parse_amount("1.234"), None);
    assert_eq!(parse_amount("1.2.3"), None);
    assert_eq!(parse_amount("1,5"), None);
    assert_eq!(parse_amount("12a"), None);
    assert_eq!(parse_amount(" 12"), None);
    assert_eq!(parse_amount("\u{ff11}\u{ff12}"), None);
    assert_eq!(parse_amount("92233720368547758.08"), None);
    assert_eq!(parse_amount("92233720368547759"), None);
    assert_eq!(parse_amount("99999999999999999999999999"), None);
}

#[test]
fn integers_are_read_with_or_without_a_sign() {
    assert_eq!(parse_integer("0"), Some(0));
    assert_eq!(parse_integer("42"), Some(42));
    assert_eq!(parse_integer("+42"), Some(42));
    assert_eq!(parse_integer("-42"), Some(-42));
    assert_eq!(parse_integer("0042"), Some(42));
    assert_eq!(parse_integer("9223372036854775807"), Some(i64::MAX));
    assert_eq!(parse_integer("-9223372036854775808"), Some(i64::MIN));
}

#[test]
fn text_that_is_no_integer_is_refused() {
    assert_eq!(parse_integer(""), None);
    assert_eq!(parse_integer("-"), None);
    assert_eq!(parse_integer("+"), None);
    assert_eq!(parse_integer("--1"), None);
    assert_eq!(parse_integer("1.0"), None);
    assert_eq!(parse_integer("12x"), None);
    assert_eq!(parse_integer(" 12"), None);
    assert_eq!(parse_integer("9223372036854775808"), None);
    assert_eq!(parse_integer("-9223372036854775809"), None);
    assert_eq!(parse_integer("18446744073709551616"), None);
}
