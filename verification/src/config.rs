//! Resolution of the invocation: which numbering mode is active, and which
//! sources are read when none is named.

use vstd::prelude::*;
use vstd::string::StringExecFns;

verus! {

/// How each output line is formatted.
#[derive(Clone, Copy, Debug, PartialEq, Eq, Structural)]
pub enum Mode {
    /// Every line is written unchanged.
    Plain,
    /// Every line is prefixed with a running count.
    NumberAll,
    /// Only non-blank lines are prefixed with a running count.
    NumberNonblank,
}

/// The two numbering flags were both requested, which the configuration
/// rejects before any source is touched.
#[derive(Clone, Copy, Debug, PartialEq, Eq, Structural)]
pub struct UsageError;

impl UsageError {
    /// The description printed for this error.
    pub fn message(&self) -> (s: String)
        ensures
            s@ == "the argument '--number' cannot be used with '--number-nonblank'"@,
    {
        String::from_str("the argument '--number' cannot be used with '--number-nonblank'")
    }
}

/// The mode that a legal combination of the two flags selects.
pub open spec fn mode_for(number_all_lines: bool, number_nonblank_lines: bool) -> Mode {
    if number_all_lines {
        Mode::NumberAll
    } else if number_nonblank_lines {
        Mode::NumberNonblank
    } else {
        Mode::Plain
    }
}

/// Turns the two numbering flags into the active mode, rejecting the
/// combination in which both are set.
pub fn resolve_mode(number_all_lines: bool, number_nonblank_lines: bool) -> (r: Result<
    Mode,
    UsageError,
>)
    ensures
        r is Err <==> (number_all_lines && number_nonblank_lines),
        r is Ok ==> r == Ok::<Mode, UsageError>(mode_for(number_all_lines, number_nonblank_lines)),
{
    if number_all_lines && number_nonblank_lines {
        Err(UsageError)
    } else if number_all_lines {
        Ok(Mode::NumberAll)
    } else if number_nonblank_lines {
        Ok(Mode::NumberNonblank)
    } else {
        Ok(Mode::Plain)
    }
}

/// The view of the sentinel source identifier that names standard input.
pub open spec fn stdin_sentinel() -> Seq<char> {
    seq!['-']
}

/// The source list that a run processes: the identifiers as given, or the
/// single standard-input sentinel when none was named.
pub fn effective_sources(files: Vec<String>) -> (out: Vec<String>)
    ensures
        files@.len() == 0 ==> out.deep_view() =~= seq![stdin_sentinel()],
        files@.len() > 0 ==> out == files,
{
    if files.len() == 0 {
        let mut out: Vec<String> = Vec::new();
        let dash = String::from_str("-");
        proof {
            reveal_strlit("-");
            assert(dash@ =~= stdin_sentinel());
        }
        out.push(dash);
        proof {
            assert(out.deep_view() =~= seq![stdin_sentinel()]);
        }
        out
    } else {
        files
    }
}

} // verus!
