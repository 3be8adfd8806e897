//! The failures the two workflows can report, and how each is rendered for
//! display.

use vstd::prelude::*;
use vstd::string::StringExecFns;
use crate::digits::{dec_rep, u64_to_string};

verus! {

/// Everything that can go wrong while generating a quiz.
pub enum GenError {
    /// The required credential is not configured.
    Config,
    /// The remote service answered with a non-success status.
    Remote { status: u16, body: String },
    /// The remote answer did not have the expected shape (no content string
    /// at the conventional path, or a body that is not JSON at all).
    ResponseShape { detail: String },
    /// The quiz payload does not conform to the quiz schema.
    Schema { diagnostic: String },
}

/// The display text of each failure.
pub open spec fn message_text(e: GenError) -> Seq<char> {
    match e {
        GenError::Config => "GROQ_API_KEY not found in env"@,
        GenError::Remote { status, body } => "Remote API error ("@ + dec_rep(
            status as nat,
        ) + "): "@ + body@,
        GenError::ResponseShape { detail } => "Unexpected API response: "@ + detail@,
        GenError::Schema { diagnostic } => "Invalid quiz JSON format: "@ + diagnostic@,
    }
}

impl GenError {
    /// Renders the failure as one descriptive line.
    pub fn message(&self) -> (r: String)
        ensures
            r@ == message_text(*self),
    {
        match self {
            GenError::Config => {
                let mut s = String::new();
                s.append("GROQ_API_KEY not found in env");
                assert(s@ =~= message_text(*self));
                s
            },
            GenError::Remote { status, body } => {
                let mut s = String::new();
                s.append("Remote API error (");
                let num = u64_to_string(*status as u64);
                s.append(num.as_str());
                s.append("): ");
                s.append(body.as_str());
                assert(s@ =~= message_text(*self));
                s
            },
            GenError::ResponseShape { detail } => {
                let mut s = String::new();
                s.append("Unexpected API response: ");
                s.append(detail.as_str());
                assert(s@ =~= message_text(*self));
                s
            },
            GenError::Schema { diagnostic } => {
                let mut s = String::new();
                s.append("Invalid quiz JSON format: ");
                s.append(diagnostic.as_str());
                assert(s@ =~= message_text(*self));
                s
            },
        }
    }
}

} // verus!
