//! The single report line each invocation prints, in the fixed vocabulary
//! the calling test-station software parses: `GS` for a golden sample,
//! `OK`/`NK` with the counts for an admitted/rejected unit, `ER` with a
//! message for a failed run.

use vstd::prelude::*;

use crate::decimal::dec_int_str;
use crate::decimal::i32_dec_string;
use crate::decision::Classification;
use crate::error::spec_message;

verus! {

/// The exact text of the report line: `GS`; `OK <tested>` or
/// `OK <failures> (<tested>)`; `NK <tested>` or `NK <failures> (<tested>)`;
/// `ER <message>`. The failure count appears exactly when the panel was
/// examined.
pub open spec fn spec_report_line(c: Classification) -> Seq<char> {
    match c {
        Classification::GoldenSample => "GS"@,
        Classification::Admitted { failures: None, tested } => "OK "@ + dec_int_str(tested as int),
        Classification::Admitted { failures: Some(f), tested } => "OK "@ + dec_int_str(f as int)
            + " ("@ + dec_int_str(tested as int) + ")"@,
        Classification::Rejected { failures: None, tested } => "NK "@ + dec_int_str(tested as int),
        Classification::Rejected { failures: Some(f), tested } => "NK "@ + dec_int_str(f as int)
            + " ("@ + dec_int_str(tested as int) + ")"@,
        Classification::Error { error } => "ER "@ + spec_message(error),
    }
}

/// Renders a count pair after a verdict word: either the tested count
/// alone, or the failure count followed by the tested count in parentheses.
fn append_counts(line: &mut String, failures: Option<i32>, tested: i32)
    ensures
        final(line)@ == old(line)@ + (match failures {
            None => dec_int_str(tested as int),
            Some(f) => dec_int_str(f as int) + " ("@ + dec_int_str(tested as int) + ")"@,
        }),
{
    match failures {
        None => {
            let t = i32_dec_string(tested);
            line.append(t.as_str());
        },
        Some(f) => {
            let fs = i32_dec_string(f);
            line.append(fs.as_str());
            line.append(" (");
            let ts = i32_dec_string(tested);
            line.append(ts.as_str());
            line.append(")");
        },
    }
}

/// Renders the report line for a classification.
pub fn report_line(c: &Classification) -> (s: String)
    ensures
        s@ == spec_report_line(*c),
{
    match c {
        Classification::GoldenSample => String::from_str("GS"),
        Classification::Admitted { failures, tested } => {
            let mut line = String::from_str("OK ");
            append_counts(&mut line, *failures, *tested);
            line
        },
        Classification::Rejected { failures, tested } => {
            let mut line = String::from_str("NK ");
            append_counts(&mut line, *failures, *tested);
            line
        },
        Classification::Error { error } => {
            let mut line = String::from_str("ER ");
            let msg = error.message();
            line.append(msg.as_str());
            line
        },
    }
}

impl Classification {
    /// Whether this outcome is a hard error rather than a verdict; the
    /// process exit status distinguishes the two.
    pub fn is_error(&self) -> (b: bool)
        ensures
            b == (self is Error),
    {
        match self {
            Classification::Error { .. } => true,
            _ => false,
        }
    }
}

} // verus!
