use wait_until::duration::Dur;
use wait_until::opts::Opt;
use wait_until::policy::{build_launch_request, verbose_to_stream_policy, StdinPolicy, StreamPolicy};
use wait_until::supervisor::{next_step, AttemptOutcome, Directive};

fn toks(words: &[&str]) -> Vec<String> {
    words.iter().map(|w| w.to_string()).collect()
}

#[test]
fn success_stops_the_loop() {
    let wait = Some(Dur { secs: 1, nanos: 0 });
    assert_eq!(next_step(&wait, &AttemptOutcome::Exited { success: true }), Directive::Stop);
    assert_eq!(next_step(&None, &AttemptOutcome::Exited { success: true }), Directive::Stop);
}

#[test]
fn failure_retries_after_the_configured_wait() {
    let wait = Some(Dur { secs: 0, nanos: 500_000_000 });
    assert_eq!(
        next_step(&wait, &AttemptOutcome::Exited { success: false }),
        Directive::RetryAfter { delay: Some(Dur { secs: 0, nanos: 500_000_000 }) }
    );
}

#[test]
fn failure_retries_at_once_when_no_wait_is_set() {
    assert_eq!(
        next_step(&None, &AttemptOutcome::Exited { success: false }),
        Directive::RetryAfter { delay: None }
    );
}

#[test]
fn fatal_error_aborts_the_loop() {
    let wait = Some(Dur { secs: 9, nanos: 0 });
    assert_eq!(next_step(&wait, &AttemptOutcome::Fatal), Directive::Abort);
    assert_eq!(next_step(&None, &AttemptOutcome::Fatal), Directive::Abort);
}

#[test]
fn quiet_runs_discard_child_output() {
    assert_eq!(verbose_to_stream_policy(false), StreamPolicy::Discard);
}

#[test]
fn verbose_runs_inherit_child_output() {
    assert_eq!(verbose_to_stream_policy(true), StreamPolicy::Inherit);
}

#[test]
fn launch_request_carries_command_and_policies() {
    let opt = Opt::parse_args(&toks(&["-v", "ping", "-c", "1", "example.com"])).unwrap();
    let req = build_launch_request(&opt);
    assert_eq!(req.program, "ping");
    assert_eq!(req.args, ["-c", "1", "example.com"]);
    assert_eq!(req.stdin, StdinPolicy::Closed);
    assert_eq!(req.stdout, StreamPolicy::Inherit);
    assert_eq!(req.stderr, StreamPolicy::Inherit);
}

#[test]
fn quiet_launch_request_discards_both_streams() {
    let opt = Opt::parse_args(&toks(&["true"])).unwrap();
    let req = build_launch_request(&opt);
    assert_eq!(req.program, "true");
    assert_eq!(req.args.len(), 0);
    assert_eq!(req.stdout, StreamPolicy::Discard);
    assert_eq!(req.stderr, StreamPolicy::Discard);
}
