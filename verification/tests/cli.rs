use scam::cli::{Cli, CliError, Flag, Positional, ValueOption};
use scam::model::{DEFAULT_COPY_BUFFER_SIZE, DEFAULT_HASH_BUFFER_SIZE, Operation};

#[test]
fn parses_copy_marker() {
    let cli = Cli::try_parse_from(&["scam", "+", "a", "b"], 1).expect("copy marker should parse");
    assert_eq!(cli.operation, Operation::Copy);
}

#[test]
fn parses_move_marker() {
    let cli = Cli::try_parse_from(&["scam", "-", "a", "b"], 1).expect("move marker should parse");
    assert_eq!(cli.operation, Operation::Move);
}

#[test]
fn parses_progress_and_jobs_options() {
    let cli = Cli::try_parse_from(
        &[
            "scam",
            "+",
            "a",
            "b",
            "--progress",
            "--jobs",
            "4",
            "--copy-buffer-size",
            "65536",
        ],
        1,
    )
    .expect("extended options should parse");

    assert!(cli.progress);
    assert_eq!(cli.jobs, 4);
    assert_eq!(cli.copy_buffer_size, 65_536);
}

#[test]
fn applies_defaults_when_options_are_absent() {
    let cli = Cli::try_parse_from(&["scam", "+", "src", "dst"], 6).expect("should parse");
    assert_eq!(cli.source, "src");
    assert_eq!(cli.source_index, 2);
    assert_eq!(cli.destination, "dst");
    assert_eq!(cli.destination_index, 3);
    assert_eq!(cli.hash_buffer_size, DEFAULT_HASH_BUFFER_SIZE);
    assert_eq!(cli.copy_buffer_size, DEFAULT_COPY_BUFFER_SIZE);
    assert_eq!(cli.max_retries, None);
    assert_eq!(cli.retry_delay_ms, 0);
    assert_eq!(cli.jobs, 6);
    assert!(!cli.progress);
    assert!(!cli.verbose);
}

#[test]
fn accepts_attached_values_and_options_anywhere() {
    let cli = Cli::try_parse_from(
        &[
            "scam",
            "--max-retries=10",
            "-",
            "--retry-delay-ms",
            "+250",
            "x",
            "-v",
            "y",
            "--hash-buffer-size=8388608",
        ],
        1,
    )
    .expect("should parse");
    assert_eq!(cli.operation, Operation::Move);
    assert_eq!(cli.source, "x");
    assert_eq!(cli.source_index, 5);
    assert_eq!(cli.destination, "y");
    assert_eq!(cli.destination_index, 7);
    assert_eq!(cli.max_retries, Some(10));
    assert_eq!(cli.retry_delay_ms, 250);
    assert_eq!(cli.hash_buffer_size, 8_388_608);
    assert!(cli.verbose);
}

#[test]
fn double_dash_makes_the_rest_positional() {
    let cli = Cli::try_parse_from(&["scam", "+", "--", "--odd-name", "-x"], 1).expect("should parse");
    assert_eq!(cli.source, "--odd-name");
    assert_eq!(cli.source_index, 3);
    assert_eq!(cli.destination, "-x");
    assert_eq!(cli.destination_index, 4);
}

#[test]
fn execution_settings_carry_the_options() {
    let cli = Cli::try_parse_from(
        &["scam", "+", "a", "b", "--retry-delay-ms", "75", "--max-retries", "3", "--verbose"],
        2,
    )
    .expect("should parse");
    let settings = cli.execution_settings();
    assert_eq!(settings.retry_delay_ms, 75);
    assert_eq!(settings.max_retries, Some(3));
    assert!(settings.verbose);
    assert!(!settings.progress);
    assert_eq!(settings.jobs, 2);
}

#[test]
fn rejects_an_unknown_operation_marker() {
    match Cli::try_parse_from(&["scam", "copy", "a", "b"], 1) {
        Err(CliError::InvalidOperation(text)) => assert_eq!(text, "copy"),
        other => panic!("unexpected result {other:?}"),
    }
}

#[test]
fn rejects_zero_and_non_numbers() {
    assert!(matches!(
        Cli::try_parse_from(&["scam", "+", "a", "b", "--jobs", "0"], 1),
        Err(CliError::ZeroNotAllowed(ValueOption::Jobs))
    ));
    match Cli::try_parse_from(&["scam", "+", "a", "b", "--copy-buffer-size=12k"], 1) {
        Err(CliError::InvalidNumber { option, value }) => {
            assert_eq!(option, ValueOption::CopyBufferSize);
            assert_eq!(value, "12k");
        }
        other => panic!("unexpected result {other:?}"),
    }
    assert!(matches!(
        Cli::try_parse_from(&["scam", "+", "a", "b", "--retry-delay-ms", "18446744073709551616"], 1),
        Err(CliError::InvalidNumber { option: ValueOption::RetryDelayMs, .. })
    ));
    assert!(matches!(
        Cli::try_parse_from(&["scam", "+", "a", "b", "--retry-delay-ms", "18446744073709551615"], 1),
        Ok(cli) if cli.retry_delay_ms == u64::MAX
    ));
    assert!(matches!(
        Cli::try_parse_from(&["scam", "+", "a", "b", "--jobs", "+"], 1),
        Err(CliError::InvalidNumber { option: ValueOption::Jobs, .. })
    ));
}

#[test]
fn rejects_missing_and_misplaced_values() {
    assert!(matches!(
        Cli::try_parse_from(&["scam", "+", "a", "b", "--jobs"], 1),
        Err(CliError::MissingValue(ValueOption::Jobs))
    ));
    assert!(matches!(
        Cli::try_parse_from(&["scam", "+", "a", "b", "--jobs", "--progress"], 1),
        Err(CliError::MissingValue(ValueOption::Jobs))
    ));
    assert!(matches!(
        Cli::try_parse_from(&["scam", "+", "a", "b", "--progress=yes"], 1),
        Err(CliError::UnexpectedValue(Flag::Progress))
    ));
}

#[test]
fn rejects_repeated_options() {
    assert!(matches!(
        Cli::try_parse_from(&["scam", "+", "a", "b", "--jobs", "2", "--jobs=3"], 1),
        Err(CliError::DuplicateOption(ValueOption::Jobs))
    ));
    assert!(matches!(
        Cli::try_parse_from(&["scam", "+", "a", "b", "-v", "--verbose"], 1),
        Err(CliError::DuplicateFlag(Flag::Verbose))
    ));
}

#[test]
fn reports_missing_and_extra_positionals() {
    assert!(matches!(
        Cli::try_parse_from(&["scam"], 1),
        Err(CliError::MissingPositional(Positional::Operation))
    ));
    assert!(matches!(
        Cli::try_parse_from(&[], 1),
        Err(CliError::MissingPositional(Positional::Operation))
    ));
    assert!(matches!(
        Cli::try_parse_from(&["scam", "+", "a"], 1),
        Err(CliError::MissingPositional(Positional::Destination))
    ));
    match Cli::try_parse_from(&["scam", "+", "a", "b", "c"], 1) {
        Err(CliError::UnexpectedPositional(text)) => assert_eq!(text, "c"),
        other => panic!("unexpected result {other:?}"),
    }
}

#[test]
fn reports_help_version_and_unknown_arguments() {
    assert!(matches!(Cli::try_parse_from(&["scam", "--help"], 1), Err(CliError::HelpRequested)));
    assert!(matches!(Cli::try_parse_from(&["scam", "-h"], 1), Err(CliError::HelpRequested)));
    assert!(matches!(Cli::try_parse_from(&["scam", "-V"], 1), Err(CliError::VersionRequested)));
    match Cli::try_parse_from(&["scam", "+", "a", "b", "--fast"], 1) {
        Err(CliError::UnknownArgument(text)) => assert_eq!(text, "--fast"),
        other => panic!("unexpected result {other:?}"),
    }
    match Cli::try_parse_from(&["scam", "+", "a", "b", "-x"], 1) {
        Err(CliError::UnknownArgument(text)) => assert_eq!(text, "-x"),
        other => panic!("unexpected result {other:?}"),
    }
}
