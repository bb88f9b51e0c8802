use chronos::cli::{Cli, Commands, InfoRequest, Invocation};
use chronos::error::ChronosError;

#[test]
fn test_cli_parse_start() {
    let cli = Cli::try_parse_from(&["chronos", "start"]).unwrap();
    assert_eq!(cli.command, Commands::Start);
}

#[test]
fn test_cli_parse_query_defaults() {
    let cli = Cli::try_parse_from(&["chronos", "query"]).unwrap();
    match cli.command {
        Commands::Query { from, to, limit } => {
            assert_eq!(from, None);
            assert_eq!(to, None);
            assert_eq!(limit, 10);
        }
        _ => panic!("Expected Query command"),
    }
}

#[test]
fn test_cli_parse_query_with_dates() {
    let cli =
        Cli::try_parse_from(&["chronos", "query", "--from", "2023-01-01", "--limit", "50"]).unwrap();
    match cli.command {
        Commands::Query { from, to, limit } => {
            assert_eq!(from, Some("2023-01-01".to_string()));
            assert_eq!(to, None);
            assert_eq!(limit, 50);
        }
        _ => panic!("Expected Query command"),
    }
}

#[test]
fn test_cli_parse_status() {
    let cli = Cli::try_parse_from(&["chronos", "status"]).unwrap();
    assert_eq!(cli.command, Commands::Status);
}

#[test]
fn test_cli_parse_pause_resume_and_db_url() {
    let cli = Cli::try_parse_from(&["chronos", "--db-url", "sqlite::memory:", "pause"]).unwrap();
    assert_eq!(cli, Cli { db_url: Some("sqlite::memory:".to_string()), command: Commands::Pause });
    let cli = Cli::try_parse_from(&["chronos", "resume", "--db-url=sqlite://x.db"]).unwrap();
    assert_eq!(cli, Cli { db_url: Some("sqlite://x.db".to_string()), command: Commands::Resume });
}

#[test]
fn test_cli_parse_query_all_options() {
    let cli = Cli::try_parse_from(&[
        "chronos", "query", "--to=2023-12-31", "--from", "2023-01-01", "--limit=+7",
    ])
    .unwrap();
    assert_eq!(
        cli.command,
        Commands::Query {
            from: Some("2023-01-01".to_string()),
            to: Some("2023-12-31".to_string()),
            limit: 7
        }
    );
}

fn error_of(args: &[&str]) -> String {
    match Cli::try_parse_from(args) {
        Err(ChronosError::InvalidInput(m)) => m,
        other => panic!("expected an invalid-input error, got {:?}", other),
    }
}

#[test]
fn test_cli_parse_errors() {
    assert_eq!(error_of(&["chronos"]), "a subcommand is required but one was not provided");
    assert_eq!(error_of(&[]), "a subcommand is required but one was not provided");
    assert_eq!(error_of(&["chronos", "launch"]), "unrecognized subcommand 'launch'");
    assert_eq!(error_of(&["chronos", "start", "now"]), "unexpected argument 'now' found");
    assert_eq!(error_of(&["chronos", "--from", "x", "query"]), "unexpected argument '--from' found");
    assert_eq!(error_of(&["chronos", "status", "--limit", "3"]), "unexpected argument '--limit' found");
    assert_eq!(
        error_of(&["chronos", "query", "--from"]),
        "a value is required for '--from <FROM>' but none was supplied"
    );
    assert_eq!(
        error_of(&["chronos", "query", "--to", "--limit", "3"]),
        "a value is required for '--to <TO>' but none was supplied"
    );
    assert_eq!(
        error_of(&["chronos", "query", "--limit", "1", "--limit", "2"]),
        "the argument '--limit <LIMIT>' cannot be used multiple times"
    );
    assert_eq!(
        error_of(&["chronos", "query", "--limit", "ten"]),
        "invalid value 'ten' for '--limit <LIMIT>': invalid digit found in string"
    );
    assert_eq!(
        error_of(&["chronos", "query", "--limit", "18446744073709551616"]),
        "invalid value '18446744073709551616' for '--limit <LIMIT>': number too large to fit in target type"
    );
}

#[test]
fn test_cli_limit_reason_is_rusts() {
    // The reason after the colon is what `u64::from_str` says, as clap shows it.
    for v in ["", "+", "-1", "ten", "12x", "18446744073709551616", "99999999999999999999x", "+x", "1 "] {
        let reason = v.parse::<u64>().unwrap_err().to_string();
        assert_eq!(
            error_of(&["chronos", "query", &format!("--limit={v}")]),
            format!("invalid value '{v}' for '--limit <LIMIT>': {reason}")
        );
    }
}

#[test]
fn test_cli_double_dash_ends_options() {
    let cli = Cli::try_parse_from(&["chronos", "status", "--"]).unwrap();
    assert_eq!(cli.command, Commands::Status);
    assert_eq!(error_of(&["chronos", "query", "--", "--limit", "3"]), "unexpected argument '--limit' found");
    assert_eq!(error_of(&["chronos", "--", "status"]), "unexpected argument 'status' found");
    assert_eq!(error_of(&["chronos", "--"]), "a subcommand is required but one was not provided");
}

#[test]
fn test_cli_parse_limit_bounds() {
    let cli = Cli::try_parse_from(&["chronos", "query", "--limit", "18446744073709551615"]).unwrap();
    assert_eq!(cli.command, Commands::Query { from: None, to: None, limit: u64::MAX });
}

#[test]
fn test_help_and_version_requests() {
    let show = |args: &[&str]| Cli::read_invocation(args).unwrap();
    assert_eq!(show(&["chronos", "--help"]), Invocation::Show(InfoRequest::Help));
    assert_eq!(show(&["chronos", "-h"]), Invocation::Show(InfoRequest::Help));
    assert_eq!(show(&["chronos", "help"]), Invocation::Show(InfoRequest::Help));
    assert_eq!(show(&["chronos", "query", "--help"]), Invocation::Show(InfoRequest::Help));
    assert_eq!(show(&["chronos", "--version"]), Invocation::Show(InfoRequest::Version));
    assert_eq!(show(&["chronos", "-V", "bogus"]), Invocation::Show(InfoRequest::Version));
    // The version flag belongs to the top level only.
    assert_eq!(
        Cli::read_invocation(&["chronos", "query", "--version"]),
        Err(ChronosError::InvalidInput("unexpected argument '--version' found".to_string()))
    );
    // Errors met before the request still count.
    assert!(Cli::read_invocation(&["chronos", "--bogus", "--help"]).is_err());
    assert_eq!(
        show(&["chronos", "status"]),
        Invocation::Run(Cli { db_url: None, command: Commands::Status })
    );
    assert_eq!(
        Cli::try_parse_from(&["chronos", "--help"]),
        Err(ChronosError::InvalidInput("the help text was requested".to_string()))
    );
    assert_eq!(
        Cli::try_parse_from(&["chronos", "-V"]),
        Err(ChronosError::InvalidInput("the version was requested".to_string()))
    );
}
