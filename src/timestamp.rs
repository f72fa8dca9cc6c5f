//! RFC 3339 timestamps as they travel on the wire.
use vstd::prelude::*;

verus! {

/// Whether the timestamp validator accepts `text`.
pub uninterp spec fn timestamp_accepted(text: Seq<char>) -> bool;

/// Relies on `twitch_types::Timestamp::new`: it succeeds exactly on the texts
/// that its validator accepts, and keeps the text as it is.
#[verifier::external_body]
fn validate_timestamp(text: &String) -> (r: bool)
    ensures
        r == timestamp_accepted(text@),
{
    twitch_types::Timestamp::new(text.clone()).is_ok()
}

/// A validated timestamp; its view is the text it was read from.
#[derive(Debug, PartialEq, Eq)]
pub struct Timestamp {
    raw: String,
}

impl View for Timestamp {
    type V = Seq<char>;

    closed spec fn view(&self) -> Seq<char> {
        self.raw@
    }
}

impl Timestamp {
    /// Every timestamp holds text that the validator accepts.
    #[verifier::type_invariant]
    spec fn accepted(&self) -> bool {
        timestamp_accepted(self.raw@)
    }

    /// Validates `raw`; `None` when the validator rejects it.
    pub fn new(raw: String) -> (r: Option<Timestamp>)
        ensures
            r is Some <==> timestamp_accepted(raw@),
            r matches Some(t) ==> t@ == raw@,
    {
        if validate_timestamp(&raw) {
            Some(Timestamp { raw })
        } else {
            None
        }
    }

    /// The timestamp's text.
    pub fn as_str(&self) -> (r: &str)
        ensures
            r@ == self@,
            timestamp_accepted(r@),
    {
        proof {
            use_type_invariant(self);
        }
        self.raw.as_str()
    }

    /// A copy of the timestamp's text.
    pub fn to_text(&self) -> (r: String)
        ensures
            r@ == self@,
            timestamp_accepted(r@),
    {
        proof {
            use_type_invariant(self);
        }
        self.raw.clone()
    }
}

} // verus!
