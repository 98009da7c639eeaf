//! The parsed configuration and the command-line grammar that yields it.
//!
//! Recognized flag tokens are exactly `-v`, `--verbose`, `-w`, `--wait`
//! and the terminator `--`; the first token that is none of these starts
//! the command, and from there on every token belongs to the command
//! verbatim, flags included.

use vstd::prelude::*;
use vstd::string::StringExecFns;
use crate::duration::{Dur, parsed_duration, parse_duration_str};

verus! {

/// Why a token list was rejected.
#[derive(Clone, Copy, Debug, PartialEq, Eq)]
pub enum UsageError {
    /// No command token was given: there is nothing to run.
    EmptyCommand,
    /// `-v`/`--verbose` appeared twice before the command started.
    DuplicateVerbose,
    /// `-w`/`--wait` appeared twice before the command started.
    DuplicateWait,
    /// `-w`/`--wait` was the last token, with no value after it.
    MissingWaitValue,
    /// The value after `-w`/`--wait` is not a duration expression.
    InvalidWait,
}

impl UsageError {
    /// A short description of the rejection, for the caller to print.
    pub fn message(&self) -> (m: String)
        ensures
            m@ == match *self {
                UsageError::EmptyCommand => "no command given"@,
                UsageError::DuplicateVerbose => "--verbose given more than once"@,
                UsageError::DuplicateWait => "--wait given more than once"@,
                UsageError::MissingWaitValue => "--wait needs a value"@,
                UsageError::InvalidWait => "--wait needs a duration such as 500ms or 2s"@,
            },
    {
        match *self {
            UsageError::EmptyCommand => String::from_str("no command given"),
            UsageError::DuplicateVerbose => String::from_str("--verbose given more than once"),
            UsageError::DuplicateWait => String::from_str("--wait given more than once"),
            UsageError::MissingWaitValue => String::from_str("--wait needs a value"),
            UsageError::InvalidWait => String::from_str(
                "--wait needs a duration such as 500ms or 2s",
            ),
        }
    }
}

/// The parsed configuration: the command to run, whether to pass its
/// output through, and how long to pause between attempts.
#[derive(Debug)]
pub struct Opt {
    /// Pass the child's stdout and stderr through to the parent's.
    pub verbose: bool,
    /// The pause between a failed attempt and the next one, if any.
    pub wait: Option<Dur>,
    /// The command and its arguments; the first element is the executable.
    pub cmd: Vec<String>,
}

/// The mathematical shape of a configuration.
pub ghost struct OptModel {
    pub verbose: bool,
    pub wait: Option<(u64, u32)>,
    pub cmd: Seq<Seq<char>>,
}

/// An optional wait, as (seconds, sub-second nanoseconds).
pub open spec fn wait_view(w: Option<Dur>) -> Option<(u64, u32)> {
    match w {
        Some(d) => Some((d.secs, d.nanos)),
        None => None,
    }
}

impl View for Opt {
    type V = OptModel;

    open spec fn view(&self) -> OptModel {
        OptModel {
            verbose: self.verbose,
            wait: wait_view(self.wait),
            cmd: self.cmd@.map_values(|s: String| s@),
        }
    }
}

impl Opt {
    /// A configuration always names a command, and its wait, if any,
    /// keeps the sub-second part below one second.
    pub open spec fn well_formed(self) -> bool {
        &&& self@.cmd.len() >= 1
        &&& (self@.wait matches Some(p) ==> p.1 < 1_000_000_000)
    }
}

/// Parsing the tokens from position `i` on, with the flags seen so far.
pub open spec fn parse_from(
    toks: Seq<Seq<char>>,
    i: int,
    verbose: bool,
    wait: Option<(u64, u32)>,
) -> Result<OptModel, UsageError>
    decreases toks.len() - i,
{
    if i < 0 || i >= toks.len() {
        Err(UsageError::EmptyCommand)
    } else if toks[i] == "-v"@ || toks[i] == "--verbose"@ {
        if verbose {
            Err(UsageError::DuplicateVerbose)
        } else {
            parse_from(toks, i + 1, true, wait)
        }
    } else if toks[i] == "-w"@ || toks[i] == "--wait"@ {
        if wait is Some {
            Err(UsageError::DuplicateWait)
        } else if i + 1 >= toks.len() {
            Err(UsageError::MissingWaitValue)
        } else {
            match parsed_duration(toks[i + 1]) {
                Some(p) => parse_from(toks, i + 2, verbose, Some(p)),
                None => Err(UsageError::InvalidWait),
            }
        }
    } else if toks[i] == "--"@ {
        if i + 1 >= toks.len() {
            Err(UsageError::EmptyCommand)
        } else {
            Ok(OptModel { verbose, wait, cmd: toks.subrange(i + 1, toks.len() as int) })
        }
    } else {
        Ok(OptModel { verbose, wait, cmd: toks.subrange(i, toks.len() as int) })
    }
}

/// What parsing a whole token list (the tokens after the program's own
/// name) yields: either a configuration or the error that rejected it.
pub open spec fn parse_spec(toks: Seq<Seq<char>>) -> Result<OptModel, UsageError> {
    parse_from(toks, 0, false, None)
}

/// Whether a token is exactly the given literal.
fn tok_is(t: &String, lit: &str) -> (r: bool)
    ensures
        r == (t@ == lit@),
{
    let s = String::from_str(lit);
    t.eq(&s)
}

/// The tokens from position `from` on, cloned.
fn clone_suffix(v: &Vec<String>, from: usize) -> (r: Vec<String>)
    requires
        from <= v.len(),
    ensures
        r@ == v@.subrange(from as int, v@.len() as int),
{
    let mut r: Vec<String> = Vec::new();
    let mut j: usize = from;
    while j < v.len()
        invariant
            from <= j <= v.len(),
            r@ == v@.subrange(from as int, j as int),
        decreases v.len() - j,
    {
        r.push(v[j].clone());
        assert(v@.subrange(from as int, j + 1 as int) =~= v@.subrange(
            from as int,
            j as int,
        ).push(v@[j as int]));
        j = j + 1;
    }
    assert(r@ =~= v@.subrange(from as int, v@.len() as int));
    r
}

impl Opt {
    /// Parse the tokens that follow the program's own name. Succeeds
    /// exactly where the grammar (`parse_spec`) accepts the tokens, and
    /// then yields exactly the configuration the grammar assigns them; a
    /// successful result always names a command.
    pub fn parse_args(tokens: &Vec<String>) -> (r: Result<Opt, UsageError>)
        ensures
            (r matches Ok(o) ==> {
                &&& parse_spec(tokens@.map_values(|s: String| s@)) == Ok::<OptModel, UsageError>(
                    o@,
                )
                &&& o.well_formed()
            }),
            (r matches Err(e) ==> parse_spec(tokens@.map_values(|s: String| s@))
                == Err::<OptModel, UsageError>(e)),
    {
        let ghost toks = tokens@.map_values(|s: String| s@);
        let mut i: usize = 0;
        let mut verbose = false;
        let mut wait: Option<Dur> = None;
        while i < tokens.len()
            invariant
                i <= tokens.len(),
                toks == tokens@.map_values(|s: String| s@),
                toks.len() == tokens@.len(),
                parse_spec(toks) == parse_from(toks, i as int, verbose, wait_view(wait)),
                wait matches Some(d) ==> d.wf(),
            decreases tokens.len() - i,
        {
            assert(toks[i as int] == tokens@[i as int]@);
            if tok_is(&tokens[i], "-v") || tok_is(&tokens[i], "--verbose") {
                if verbose {
                    return Err(UsageError::DuplicateVerbose);
                }
                verbose = true;
                i = i + 1;
            } else if tok_is(&tokens[i], "-w") || tok_is(&tokens[i], "--wait") {
                if wait.is_some() {
                    return Err(UsageError::DuplicateWait);
                }
                if i + 1 == tokens.len() {
                    return Err(UsageError::MissingWaitValue);
                }
                assert(toks[i + 1 as int] == tokens@[i + 1 as int]@);
                match parse_duration_str(&tokens[i + 1]) {
                    Ok(d) => {
                        wait = Some(d);
                        i = i + 2;
                    },
                    Err(_) => {
                        return Err(UsageError::InvalidWait);
                    },
                }
            } else if tok_is(&tokens[i], "--") {
                if i + 1 == tokens.len() {
                    return Err(UsageError::EmptyCommand);
                }
                let cmd = clone_suffix(tokens, i + 1);
                let o = Opt { verbose, wait, cmd };
                assert(o@.cmd =~= toks.subrange(i + 1 as int, toks.len() as int));
                return Ok(o);
            } else {
                let cmd = clone_suffix(tokens, i);
                let o = Opt { verbose, wait, cmd };
                assert(o@.cmd =~= toks.subrange(i as int, toks.len() as int));
                return Ok(o);
            }
        }
        Err(UsageError::EmptyCommand)
    }

    /// Parse a full argument vector, whose first element is the program's
    /// own name and takes no part in the grammar.
    pub fn from_iter(args: &Vec<String>) -> (r: Result<Opt, UsageError>)
        ensures
            (r matches Ok(o) ==> {
                &&& from_iter_spec(args@.map_values(|s: String| s@)) == Ok::<
                    OptModel,
                    UsageError,
                >(o@)
                &&& o.well_formed()
            }),
            (r matches Err(e) ==> from_iter_spec(args@.map_values(|s: String| s@))
                == Err::<OptModel, UsageError>(e)),
    {
        let ghost toks = args@.map_values(|s: String| s@);
        if args.len() == 0 {
            return Err(UsageError::EmptyCommand);
        }
        let rest = clone_suffix(args, 1);
        assert(rest@.map_values(|s: String| s@) =~= toks.drop_first());
        Self::parse_args(&rest)
    }
}

/// What parsing a full argument vector yields: the first token is the
/// program's own name; the rest go through the grammar.
pub open spec fn from_iter_spec(toks: Seq<Seq<char>>) -> Result<OptModel, UsageError> {
    if toks.len() == 0 {
        Err(UsageError::EmptyCommand)
    } else {
        parse_spec(toks.drop_first())
    }
}

/// Wherever the grammar accepts a token list, the command it yields is a
/// verbatim suffix of the input: the tokens from the first unrecognized
/// one on, in order, flags included.
pub proof fn lemma_argument_pass_through(toks: Seq<Seq<char>>)
    requires
        parse_spec(toks) is Ok,
    ensures
        exists|j: int|
            0 <= j <= toks.len() && parse_spec(toks)->Ok_0.cmd == #[trigger] toks.subrange(
                j,
                toks.len() as int,
            ),
{
    lemma_pass_through_from(toks, 0, false, None);
}

/// The command yielded from any intermediate parsing state is a verbatim
/// suffix of the input tokens.
proof fn lemma_pass_through_from(
    toks: Seq<Seq<char>>,
    i: int,
    verbose: bool,
    wait: Option<(u64, u32)>,
)
    requires
        0 <= i <= toks.len(),
        parse_from(toks, i, verbose, wait) is Ok,
    ensures
        exists|j: int|
            i <= j <= toks.len() && parse_from(toks, i, verbose, wait)->Ok_0.cmd
                == #[trigger] toks.subrange(j, toks.len() as int),
    decreases toks.len() - i,
{
    if i >= toks.len() {
        // parse_from is Err here; nothing to show
    } else if toks[i] == "-v"@ || toks[i] == "--verbose"@ {
        if !verbose {
            lemma_pass_through_from(toks, i + 1, true, wait);
        }
    } else if toks[i] == "-w"@ || toks[i] == "--wait"@ {
        if wait is None && i + 1 < toks.len() && parsed_duration(toks[i + 1]) is Some {
            lemma_pass_through_from(toks, i + 2, verbose, Some(parsed_duration(toks[i + 1])->0));
        }
    } else if toks[i] == "--"@ {
        assert(parse_from(toks, i, verbose, wait)->Ok_0.cmd == toks.subrange(
            i + 1,
            toks.len() as int,
        ));
    } else {
        assert(parse_from(toks, i, verbose, wait)->Ok_0.cmd == toks.subrange(
            i,
            toks.len() as int,
        ));
    }
}

} // verus!
