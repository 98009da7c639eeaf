//! How the child's standard streams are bound, and the launch request
//! built from a configuration.

use vstd::prelude::*;
use crate::opts::Opt;

verus! {

/// Where one of the child's output streams goes.
#[derive(Clone, Copy, Debug, PartialEq, Eq, Structural)]
pub enum StreamPolicy {
    /// The stream is produced but visible nowhere.
    Discard,
    /// The stream is inherited from the parent and appears interleaved
    /// with the parent's own output.
    Inherit,
}

/// Where the child's standard input comes from: nowhere, always. The
/// child must never read from the supervisor's input.
#[derive(Clone, Copy, Debug, PartialEq, Eq, Structural)]
pub enum StdinPolicy {
    Closed,
}

/// The stream policy that a verbosity choice stands for: verbose runs
/// inherit the parent's streams, quiet runs discard the child's output.
pub open spec fn policy_for(verbose: bool) -> StreamPolicy {
    if verbose {
        StreamPolicy::Inherit
    } else {
        StreamPolicy::Discard
    }
}

/// Map the verbose flag to the redirection policy of one output stream;
/// the same mapping serves stdout and stderr alike.
pub fn verbose_to_stream_policy(verbose: bool) -> (p: StreamPolicy)
    ensures
        p == policy_for(verbose),
{
    match verbose {
        false => StreamPolicy::Discard,
        true => StreamPolicy::Inherit,
    }
}

/// One request to launch the supervised command: the executable, its
/// arguments, and how each standard stream is bound.
#[derive(Debug)]
pub struct LaunchRequest {
    pub program: String,
    pub args: Vec<String>,
    pub stdin: StdinPolicy,
    pub stdout: StreamPolicy,
    pub stderr: StreamPolicy,
}

/// Build the launch request a configuration calls for: element 0 of the
/// command is the executable, the remainder are its arguments verbatim,
/// stdin is closed, and both output streams follow the verbosity mapping.
pub fn build_launch_request(opt: &Opt) -> (r: LaunchRequest)
    requires
        opt.well_formed(),
    ensures
        r.program@ == opt@.cmd[0],
        r.args@.map_values(|s: String| s@) == opt@.cmd.drop_first(),
        r.stdin == StdinPolicy::Closed,
        r.stdout == policy_for(opt.verbose),
        r.stderr == policy_for(opt.verbose),
{
    let program = opt.cmd[0].clone();
    let mut args: Vec<String> = Vec::new();
    let mut j: usize = 1;
    while j < opt.cmd.len()
        invariant
            1 <= j <= opt.cmd.len(),
            opt.cmd@.len() >= 1,
            args@ == opt.cmd@.subrange(1, j as int),
        decreases opt.cmd.len() - j,
    {
        args.push(opt.cmd[j].clone());
        assert(opt.cmd@.subrange(1, j + 1 as int) =~= opt.cmd@.subrange(1, j as int).push(
            opt.cmd@[j as int],
        ));
        j = j + 1;
    }
    assert(args@ =~= opt.cmd@.subrange(1, opt.cmd@.len() as int));
    let r = LaunchRequest {
        program,
        args,
        stdin: StdinPolicy::Closed,
        stdout: verbose_to_stream_policy(opt.verbose),
        stderr: verbose_to_stream_policy(opt.verbose),
    };
    assert(r.args@.map_values(|s: String| s@) =~= opt@.cmd.drop_first());
    r
}

} // verus!
