//! Meta-command parsing and the help text.

use vinyldb::meta_cmd::{MetaCmd, MetaCmdError};

#[test]
fn parse_help() {
    assert_eq!(MetaCmd::parse(".help").unwrap(), MetaCmd::Help);
}

#[test]
fn parse_ast_and_timer() {
    assert_eq!(MetaCmd::parse(".ast on").unwrap(), MetaCmd::Ast(true));
    assert_eq!(MetaCmd::parse(".ast off").unwrap(), MetaCmd::Ast(false));
    assert_eq!(MetaCmd::parse(".timer on").unwrap(), MetaCmd::Timer(true));
    assert_eq!(MetaCmd::parse(".timer off").unwrap(), MetaCmd::Timer(false));
    assert_eq!(MetaCmd::parse("  .timer   off  ").unwrap(), MetaCmd::Timer(false));
}

#[test]
fn parse_unknown_command() {
    match MetaCmd::parse(".nope") {
        Err(MetaCmdError::UnknownCommand { cmd }) => assert_eq!(cmd, ".nope"),
        other => panic!("expected unknown-command, got {:?}", other),
    }
}

#[test]
fn parse_missing_argument() {
    match MetaCmd::parse(".ast") {
        Err(MetaCmdError::InvalidUsage { correct_usage }) => {
            assert_eq!(correct_usage, ".ast on | off")
        },
        other => panic!("expected invalid-usage, got {:?}", other),
    }
    match MetaCmd::parse(".timer sideways") {
        Err(MetaCmdError::InvalidUsage { correct_usage }) => {
            assert_eq!(correct_usage, ".timer on | off")
        },
        other => panic!("expected invalid-usage, got {:?}", other),
    }
}

#[test]
fn help_text_lists_every_command() {
    let text = MetaCmd::Help.help_str();
    assert!(text.contains(".help"));
    assert!(text.contains(".ast on | off"));
    assert!(text.contains(".timer on | off"));
    assert_eq!(MetaCmd::Help.usage(), ".help");
    assert_eq!(MetaCmd::Ast(true).desc(), "Print AST for each SQL if enabled");
}
