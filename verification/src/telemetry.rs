//! What a request is traced with: the attributes of its span and the line
//! that reports a failed write.

use crate::identifier::hyphenated;
use crate::identifier::hyphenated_text;
use vstd::prelude::*;

verus! {

/// The attributes of a request span as plain text.
pub struct SpanFields {
    pub request_id: Seq<char>,
    pub request_email: Option<Seq<char>>,
    pub request_name: Option<Seq<char>>,
}

/// The attributes that tag the span of one request.
pub struct RequestSpan {
    /// The correlation identifier in hyphenated form.
    pub request_id: String,
    /// The submitted email, where the body held one.
    pub request_email: Option<String>,
    /// The submitted name, where the body held one.
    pub request_name: Option<String>,
}

impl View for RequestSpan {
    type V = SpanFields;

    open spec fn view(&self) -> SpanFields {
        SpanFields {
            request_id: self.request_id@,
            request_email: match self.request_email {
                Some(email) => Some(email@),
                None => None,
            },
            request_name: match self.request_name {
                Some(name) => Some(name@),
                None => None,
            },
        }
    }
}

/// The line that reports a failed write: the correlation identifier of the
/// request, then the detail that the store gave.
pub open spec fn failure_line(request_id: u128, detail: Seq<char>) -> Seq<char> {
    "Request ID: "@ + hyphenated(request_id) + " - Failed to execute query: "@ + detail
}

/// Writes the line that reports a failed write.
pub fn failure_message(request_id: u128, detail: &str) -> (line: String)
    ensures
        line@ == failure_line(request_id, detail@),
{
    let mut line = String::from_str("Request ID: ");
    let id = hyphenated_text(request_id);
    line.append(id.as_str());
    line.append(" - Failed to execute query: ");
    line.append(detail);
    line
}

} // verus!
