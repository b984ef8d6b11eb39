use std::path::PathBuf;
use std::time::Duration;

use clap::builder::{RangedU64ValueParser, TypedValueParser};
use clap::{Arg, ArgAction, Command};
use codex_loop::cli::{checked_directory, checked_max_runs, parse_directory, Cli};
use codex_loop::notation::is_countable;
use codex_loop::runner::Argument;
use codex_loop::time::{nonzero_duration, parse_nonzero_duration};

fn parse_duration(value: &str) -> Result<Duration, String> {
    assert!(is_countable(value));
    parse_nonzero_duration(value)
}

fn try_parse_from<const N: usize>(arguments: [&str; N]) -> Result<Cli, clap::Error> {
    let max_runs = RangedU64ValueParser::<u64>::new().try_map(checked_max_runs);
    let matches = Command::new("codex-loop")
        .arg(Arg::new("interval").required(true).value_parser(parse_duration))
        .arg(Arg::new("prompt").required(true))
        .arg(Arg::new("cwd").short('C').long("cwd").value_parser(parse_directory))
        .arg(Arg::new("model").short('m').long("model"))
        .arg(Arg::new("max_runs").long("max-runs").value_parser(max_runs))
        .arg(Arg::new("timeout").long("timeout").value_parser(parse_duration))
        .arg(Arg::new("stop_on_error").long("stop-on-error").action(ArgAction::SetTrue))
        .arg(Arg::new("verbose").long("verbose").action(ArgAction::SetTrue))
        .try_get_matches_from(arguments)?;
    Ok(Cli {
        interval: *matches.get_one::<Duration>("interval").unwrap(),
        prompt: matches.get_one::<String>("prompt").unwrap().clone(),
        cwd: matches.get_one::<PathBuf>("cwd").cloned(),
        model: matches.get_one::<String>("model").cloned(),
        max_runs: matches.get_one::<u64>("max_runs").copied(),
        timeout: matches.get_one::<Duration>("timeout").copied(),
        stop_on_error: matches.get_flag("stop_on_error"),
        verbose: matches.get_flag("verbose"),
    })
}

#[test]
fn parses_human_duration() {
    let cli = try_parse_from(["codex-loop", "5m", "do work"]).unwrap();

    assert_eq!(cli.interval, Duration::from_secs(300));
}

#[test]
fn rejects_invalid_and_zero_durations() {
    assert!(try_parse_from(["codex-loop", "later", "do work"]).is_err());
    assert!(try_parse_from(["codex-loop", "0s", "do work"]).is_err());
    assert!(try_parse_from(["codex-loop", "1s", "do work", "--timeout", "0s"]).is_err());
}

#[test]
fn validates_max_runs() {
    let cli = try_parse_from(["codex-loop", "--max-runs", "3", "30s", "do work"]).unwrap();
    assert_eq!(cli.max_runs, Some(3));

    assert!(try_parse_from(["codex-loop", "--max-runs", "0", "30s", "do work"]).is_err());
}

#[test]
fn rejects_a_non_directory_cwd() {
    assert!(
        try_parse_from([
            "codex-loop",
            "--cwd",
            "/a/path/that/does/not/exist",
            "30s",
            "do work",
        ])
        .is_err()
    );
}

#[test]
fn accepts_a_directory_cwd() {
    let cli = try_parse_from(["codex-loop", "-C", "/", "30s", "do work"]).unwrap();

    assert_eq!(cli.cwd, Some(PathBuf::from("/")));
}

#[test]
fn reports_why_a_duration_is_refused() {
    assert_eq!(
        parse_nonzero_duration("0s"),
        Err("duration must be greater than zero".to_string())
    );
    assert_eq!(
        parse_nonzero_duration("0"),
        Err("duration must be greater than zero".to_string())
    );
    assert_eq!(parse_nonzero_duration(""), Err("value was empty".to_string()));
    assert_eq!(
        parse_nonzero_duration("later"),
        Err("expected number at 0".to_string())
    );
    assert_eq!(
        parse_nonzero_duration("99999999999999999999s"),
        Err(
            "number is too large or cannot be represented without a lack of precision \
             (values below 1ns are not supported)"
                .to_string()
        )
    );
    assert_eq!(
        parse_nonzero_duration("1h 30m 15s 20ms"),
        Ok(Duration::new(5415, 20_000_000))
    );
}

#[test]
fn refuses_a_parsed_duration_of_zero_only() {
    let smallest = Duration::from_nanos(1);

    assert_eq!(nonzero_duration(Ok(smallest)), Ok(smallest));
    assert_eq!(
        nonzero_duration(Ok(Duration::ZERO)),
        Err("duration must be greater than zero".to_string())
    );
    assert_eq!(nonzero_duration(Err("why".to_string())), Err("why".to_string()));
}

#[test]
fn tells_countable_durations() {
    for text in [
        "",
        "0",
        "later",
        "1year 2months 3days 4h 5m 6s 789ms 12us 345ns",
        "7100000000000ms",
        "18446744073709551615ns",
        "18446744073709551615s",
        "18446744073709551615s 999999999ns",
        "18446744073709551615s 1001ms",
        "18446744073709551615s 1s",
        "18446744073709551614s 1000ms",
        "18446744073709551614s 0.000277777h 1000ms",
        "600000000000 years",
        "0.123456789y",
        "99999999999999999999999999999999999999s 1s",
        "9300000000000000000s 9300000000000000000s",
        "1.0ns 18446744073709551615s 1000ms",
        "018446744073709551615s\u{e9}1000ms",
        "18446744073709551615s\u{180e}1000ms",
        "18446744073709551615s \u{200b} 1000ms",
    ] {
        assert!(is_countable(text), "{text}");
    }
    for text in [
        "18446744073709551615s 1000ms",
        "18446744073709551615s1000ms",
        " 1844674407370955161 5 secs 1000 millis ",
        "18446744073709551615s 1000000us",
        "18446744073709551615s 1000000\u{b5}s",
        "18446744073709551615s 1000000000ns",
        "18446744073709551615s 400ms 600ms",
        "18446744073709551615s\u{85}1000ms",
        "18446744073709551615\u{a0}s\u{3000}10\u{2009}00\u{1680}ms",
        "18446744073709551615.4s 0.01m",
        "18446744073709551615s 1000ms later",
    ] {
        assert!(!is_countable(text), "{text}");
    }
}

#[test]
fn reads_the_longest_durations() {
    for (text, duration) in [
        ("7100000000000ms", Duration::from_millis(7_100_000_000_000)),
        ("18446744073709551615ns", Duration::from_nanos(u64::MAX)),
        ("18446744073709551615s", Duration::from_secs(u64::MAX)),
        ("18446744073709551614s 1000ms", Duration::from_secs(u64::MAX)),
        ("18446744073709551615s 999999999ns", Duration::MAX),
    ] {
        assert!(is_countable(text), "{text}");
        assert_eq!(parse_nonzero_duration(text), Ok(duration));
    }
    assert_eq!(
        parse_nonzero_duration("018446744073709551615s\u{e9}1000ms"),
        Err("invalid character at 22".to_string())
    );
    for text in ["18446744073709551615s 1001ms", "600000000000 years"] {
        assert!(is_countable(text), "{text}");
        assert!(parse_nonzero_duration(text).is_err(), "{text}");
    }
}

#[test]
fn checks_directories() {
    let path = PathBuf::from("some/where");

    assert_eq!(checked_directory(path.clone(), true), Ok(path.clone()));
    assert_eq!(
        checked_directory(path, false),
        Err("not a directory: some/where".to_string())
    );
    assert_eq!(
        parse_directory("/a/path/that/does/not/exist"),
        Err("not a directory: /a/path/that/does/not/exist".to_string())
    );
    assert_eq!(parse_directory("/"), Ok(PathBuf::from("/")));
}

#[test]
fn checks_max_runs() {
    assert_eq!(checked_max_runs(1), Ok(1));
    assert_eq!(checked_max_runs(u64::MAX), Ok(u64::MAX));
    assert_eq!(
        checked_max_runs(0),
        Err("0 is not in 1..18446744073709551615".to_string())
    );
}

#[test]
fn splits_into_runner_options_and_prompt() {
    let cli = try_parse_from([
        "codex-loop",
        "30s",
        "do work",
        "-C",
        "/",
        "-m",
        "small",
        "--max-runs",
        "7",
        "--timeout",
        "2m",
        "--stop-on-error",
    ])
    .unwrap();

    let (runner, options, prompt) = cli.into_parts();
    let root = PathBuf::from("/");
    let command = runner.command(&prompt);

    assert_eq!(command.program, &PathBuf::from("codex"));
    assert_eq!(
        command.arguments,
        vec![
            Argument::Text("exec"),
            Argument::Text("--json"),
            Argument::Text("-C"),
            Argument::Path(&root),
            Argument::Text("--model"),
            Argument::Text("small"),
            Argument::Text("do work"),
        ]
    );
    assert_eq!(options.interval, Duration::from_secs(30));
    assert_eq!(options.max_runs, Some(7));
    assert!(options.stop_on_error);
    assert!(!options.verbose);
}
