//! The output format selection.
//!
//! Rendering events as text or JSON is the consumers' work; the library
//! holds the format names and their parsing, matched without regard to
//! ASCII case.

use vstd::prelude::*;
use vstd::string::StringExecFns;
use crate::commands::matches_keyword_ci;

verus! {

/// How events are rendered for the user.
#[derive(Clone, Copy, PartialEq, Eq, Structural, Debug)]
pub enum OutputFormat {
    Text,
    JSON,
}

/// What `OutputFormat::parse` owes: the two format names, matched without
/// regard to ASCII case; anything else is rejected with an error naming the
/// input.
pub open spec fn output_format_spec(s: Seq<char>, r: Result<OutputFormat, String>) -> bool {
    if matches_keyword_ci(s, "text"@) {
        r == Ok::<OutputFormat, String>(OutputFormat::Text)
    } else if matches_keyword_ci(s, "json"@) {
        r == Ok::<OutputFormat, String>(OutputFormat::JSON)
    } else {
        r matches Err(m) && m@ == "Unknown output format: "@ + s
    }
}

impl OutputFormat {
    /// Parses a format name.
    pub fn parse(s: &str) -> (r: Result<OutputFormat, String>)
        ensures
            output_format_spec(s@, r),
    {
        if whole_matches_ci(s, "text") {
            Ok(OutputFormat::Text)
        } else if whole_matches_ci(s, "json") {
            Ok(OutputFormat::JSON)
        } else {
            Err(("Unknown output format: ".to_owned()).concat(s))
        }
    }
}

/// Whether the whole of `s` equals `kw` up to ASCII case.
fn whole_matches_ci(s: &str, kw: &str) -> (r: bool)
    ensures
        r == matches_keyword_ci(s@, kw@),
{
    let n = s.unicode_len();
    let r = crate::commands::span_matches_ci(s, 0, n, kw);
    proof {
        assert(s@.subrange(0, n as int) =~= s@);
    }
    r
}

} // verus!
