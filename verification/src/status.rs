//! The status document the Monitor fetches each tick, and its extraction
//! from the JSON text of the polled endpoint's response body.

use vstd::prelude::*;

verus! {

/// The status document of one poll tick, reduced to what the Monitor reads:
/// the optional `message` string of the fetched JSON object.
#[derive(Debug)]
pub struct StatusDocument {
    pub message: Option<String>,
}

/// The Monitor's error taxonomy. `Fetch` and `Report` are raised by the
/// transport around the library when an outbound call fails; `Parse` is
/// raised here when a response body is not valid JSON.
#[derive(Clone, Copy, Debug, PartialEq, Eq, Structural)]
pub enum MonitorError {
    Fetch,
    Parse,
    Report,
}

/// The description of each Monitor error, naming the call that failed.
pub open spec fn spec_describe(e: MonitorError) -> Seq<char> {
    match e {
        MonitorError::Fetch => "status fetch failed"@,
        MonitorError::Parse => "status body is not valid JSON"@,
        MonitorError::Report => "report delivery failed"@,
    }
}

impl MonitorError {
    /// A descriptive message naming the failed call.
    pub fn describe(&self) -> (r: &'static str)
        ensures
            r@ == spec_describe(*self),
    {
        match self {
            MonitorError::Fetch => "status fetch failed",
            MonitorError::Parse => "status body is not valid JSON",
            MonitorError::Report => "report delivery failed",
        }
    }
}

/// What the `message` field of a JSON text holds: `None` when the text is
/// not valid JSON; `Some(None)` when it is but carries no string `message`
/// field; `Some(Some(m))` when that field holds the string `m`.
pub uninterp spec fn message_field_of(text: Seq<char>) -> Option<Option<Seq<char>>>;

/// Relies on serde_json's `from_str::<Value>`, `Value::get` and
/// `Value::as_str`: whether a text parses as JSON, and what string its
/// `message` field holds, depend on the text alone.
#[verifier::external_body]
fn extract_string_field(body: &str, key: &str) -> (r: Option<Option<String>>)
    ensures
        key@ == "message"@ ==> r.deep_view() == message_field_of(body@),
{
    match serde_json::from_str::<serde_json::Value>(body) {
        Err(_) => None,
        Ok(doc) => match doc.get(key) {
            None => Some(None),
            Some(field) => match field.as_str() {
                None => Some(None),
                Some(text) => Some(Some(text.to_owned())),
            },
        },
    }
}

/// Parses one fetched response body into a [`StatusDocument`], failing with
/// [`MonitorError::Parse`] exactly when the body is not valid JSON.
pub fn parse_status(body: &str) -> (r: Result<StatusDocument, MonitorError>)
    ensures
        (message_field_of(body@) is None) <==> (r is Err),
        r is Err ==> r == Err::<StatusDocument, MonitorError>(MonitorError::Parse),
        message_field_of(body@) matches Some(f) ==> (r matches Ok(d) && d.message.deep_view() == f),
{
    match extract_string_field(body, "message") {
        None => Err(MonitorError::Parse),
        Some(message) => Ok(StatusDocument { message }),
    }
}

} // verus!
