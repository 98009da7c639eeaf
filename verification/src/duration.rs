//! The span of time, if any, that passes between two attempts.

use vstd::prelude::*;

verus! {

/// A span of time: whole seconds plus a sub-second remainder in
/// nanoseconds, kept below one second.
#[derive(Clone, Copy, Debug, PartialEq, Eq)]
pub struct Dur {
    pub secs: u64,
    pub nanos: u32,
}

impl Dur {
    /// The sub-second part never reaches a full second.
    pub open spec fn wf(self) -> bool {
        self.nanos < 1_000_000_000
    }
}

/// The duration that a textual duration expression denotes, as
/// (seconds, sub-second nanoseconds), or `None` where the text does not
/// denote one. This is the reading that `parse_duration::parse` gives the
/// text, which depends on the characters alone.
pub uninterp spec fn parsed_duration(s: Seq<char>) -> Option<(u64, u32)>;

#[verifier::external_type_specification]
#[verifier::external_body]
pub struct ExParseDurationError(parse_duration::parse::Error);

/// Relies on `parse_duration::parse`: it reads a duration expression such
/// as "2s", "500ms" or "1 hour" into a `std::time::Duration`, reporting an
/// error for text it cannot read; the outcome is a function of the input
/// string alone. `Duration::subsec_nanos` is documented to stay below one
/// second.
#[verifier::external_body]
pub(crate) fn parse_duration_str(s: &String) -> (r: Result<Dur, parse_duration::parse::Error>)
    ensures
        r matches Ok(d) ==> parsed_duration(s@) == Some((d.secs, d.nanos)) && d.wf(),
        r is Err ==> parsed_duration(s@) is None,
{
    match parse_duration::parse(s.as_str()) {
        Ok(d) => Ok(Dur { secs: d.as_secs(), nanos: d.subsec_nanos() }),
        Err(e) => Err(e),
    }
}

} // verus!
