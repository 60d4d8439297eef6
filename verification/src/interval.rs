//! The retry-interval argument: a human-readable duration string, parsed by
//! an outside parser whose result this module only names.

use vstd::prelude::*;

verus! {

/// What `parse_duration::parse` denotes: the duration a string parses to,
/// as whole seconds and subsecond nanoseconds, or nothing where the string
/// does not parse. The result is a function of the string alone.
pub uninterp spec fn parsed_interval(s: Seq<char>) -> Option<(u64, u32)>;

/// Relies on `parse_duration::parse`, which turns a duration string such as
/// "1s" or "15 days 20 seconds" into a `std::time::Duration`; the result
/// depends on the string alone.
#[verifier::external_body]
pub(crate) fn parse_interval(s: &str) -> (r: Option<(u64, u32)>)
    ensures
        r == parsed_interval(s@),
{
    match parse_duration::parse(s) {
        Ok(d) => Some((d.as_secs(), d.subsec_nanos())),
        Err(_) => None,
    }
}

} // verus!
