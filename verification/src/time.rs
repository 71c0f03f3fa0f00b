//! Points in time as the API writes them.

use vstd::prelude::*;

verus! {

/// What `chrono` makes of a date and time text: the same instant written in
/// UTC, or nothing where it rejects the text.
pub uninterp spec fn utc_timestamp(text: Seq<char>) -> Option<Seq<char>>;

/// Reads the text as `chrono` deserializes a `DateTime<Utc>` (an RFC 3339
/// date and time, converted to UTC) and writes the instant back as `chrono`
/// serializes it (`to_rfc3339_opts` with automatic sub-second digits and `Z`).
#[verifier::external_body]
fn utc_text(text: &str) -> (r: Option<String>)
    ensures
        match r {
            Some(t) => utc_timestamp(text@) == Some(t@),
            None => utc_timestamp(text@) is None,
        },
{
    let read = text.parse::<chrono::DateTime<chrono::FixedOffset>>().ok()?;
    Some(read.with_timezone(&chrono::Utc).to_rfc3339_opts(chrono::SecondsFormat::AutoSi, true))
}

/// An instant, held as the UTC text that stands for it.
#[derive(Debug, Clone, PartialEq, Eq)]
pub struct Timestamp {
    text: String,
}

impl View for Timestamp {
    type V = Seq<char>;

    closed spec fn view(&self) -> Seq<char> {
        self.text@
    }
}

impl Timestamp {
    /// Reads a date and time; the instant is kept in UTC.
    pub fn parse(text: &str) -> (r: Option<Timestamp>)
        ensures
            match r {
                Some(t) => utc_timestamp(text@) == Some(t@),
                None => utc_timestamp(text@) is None,
            },
    {
        match utc_text(text) {
            Some(text) => Some(Timestamp { text }),
            None => None,
        }
    }

    /// The instant as text.
    pub fn as_str(&self) -> (r: &str)
        ensures
            r@ == self@,
    {
        self.text.as_str()
    }

    /// A copy.
    pub fn duplicate(&self) -> (r: Timestamp)
        ensures
            r@ == self@,
    {
        Timestamp { text: self.text.clone() }
    }
}

} // verus!
