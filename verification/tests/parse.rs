use wait_until::duration::Dur;
use wait_until::opts::{Opt, UsageError};

fn toks(words: &[&str]) -> Vec<String> {
    words.iter().map(|w| w.to_string()).collect()
}

#[test]
fn test_parse() {
    let opt = Opt::from_iter(&toks(&["wait-until", "ping", "-c", "1", "example.com"])).unwrap();
    assert_eq!(opt.cmd, ["ping", "-c", "1", "example.com"]);
}

#[test]
fn flags_embedded_in_command_pass_through() {
    let opt = Opt::parse_args(&toks(&["-v", "ping", "-c", "1", "example.com"])).unwrap();
    assert!(opt.verbose);
    assert_eq!(opt.wait, None);
    assert_eq!(opt.cmd, ["ping", "-c", "1", "example.com"]);
}

#[test]
fn command_may_start_with_unknown_flag() {
    let opt = Opt::parse_args(&toks(&["-x", "ping"])).unwrap();
    assert!(!opt.verbose);
    assert_eq!(opt.cmd, ["-x", "ping"]);
}

#[test]
fn double_dash_starts_command() {
    let opt = Opt::parse_args(&toks(&["-v", "--", "-w", "1s"])).unwrap();
    assert!(opt.verbose);
    assert_eq!(opt.wait, None);
    assert_eq!(opt.cmd, ["-w", "1s"]);
}

#[test]
fn empty_token_list_is_rejected() {
    assert_eq!(Opt::parse_args(&toks(&[])).unwrap_err(), UsageError::EmptyCommand);
    assert_eq!(Opt::from_iter(&toks(&[])).unwrap_err(), UsageError::EmptyCommand);
    assert_eq!(Opt::from_iter(&toks(&["wait-until"])).unwrap_err(), UsageError::EmptyCommand);
}

#[test]
fn flags_alone_leave_no_command() {
    assert_eq!(Opt::parse_args(&toks(&["-v"])).unwrap_err(), UsageError::EmptyCommand);
    assert_eq!(Opt::parse_args(&toks(&["--verbose", "--"])).unwrap_err(), UsageError::EmptyCommand);
}

#[test]
fn wait_in_seconds() {
    let opt = Opt::parse_args(&toks(&["-w", "2s", "ping"])).unwrap();
    assert_eq!(opt.wait, Some(Dur { secs: 2, nanos: 0 }));
    assert_eq!(opt.cmd, ["ping"]);
    assert!(!opt.verbose);
}

#[test]
fn wait_in_milliseconds() {
    let opt = Opt::parse_args(&toks(&["--wait", "500ms", "sleep", "1"])).unwrap();
    assert_eq!(opt.wait, Some(Dur { secs: 0, nanos: 500_000_000 }));
    assert_eq!(opt.cmd, ["sleep", "1"]);
}

#[test]
fn wait_spelled_out() {
    let opt = Opt::parse_args(&toks(&["-w", "1 hour", "x"])).unwrap();
    assert_eq!(opt.wait, Some(Dur { secs: 3600, nanos: 0 }));
}

#[test]
fn wait_without_value_is_rejected() {
    assert_eq!(Opt::parse_args(&toks(&["-w"])).unwrap_err(), UsageError::MissingWaitValue);
    assert_eq!(Opt::parse_args(&toks(&["-v", "--wait"])).unwrap_err(), UsageError::MissingWaitValue);
}

#[test]
fn wait_with_unreadable_value_is_rejected() {
    assert_eq!(Opt::parse_args(&toks(&["-w", "bogus", "ping"])).unwrap_err(), UsageError::InvalidWait);
}

#[test]
fn repeated_verbose_is_rejected() {
    assert_eq!(
        Opt::parse_args(&toks(&["-v", "--verbose", "ping"])).unwrap_err(),
        UsageError::DuplicateVerbose
    );
}

#[test]
fn repeated_wait_is_rejected() {
    assert_eq!(
        Opt::parse_args(&toks(&["-w", "1s", "--wait", "2s", "ping"])).unwrap_err(),
        UsageError::DuplicateWait
    );
}

#[test]
fn usage_errors_describe_themselves() {
    assert_eq!(UsageError::EmptyCommand.message(), "no command given");
    assert_eq!(UsageError::DuplicateVerbose.message(), "--verbose given more than once");
    assert_eq!(UsageError::DuplicateWait.message(), "--wait given more than once");
    assert_eq!(UsageError::MissingWaitValue.message(), "--wait needs a value");
    assert_eq!(
        UsageError::InvalidWait.message(),
        "--wait needs a duration such as 500ms or 2s"
    );
}
