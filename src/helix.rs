//! The Helix response pipeline: each operation reads the HTTP status first,
//! then, where its outcome has a body, decodes the body.
use vstd::prelude::*;

use crate::fields::{
    blank_timestamp_member, first_unknown, bool_member, either, err_of, int_member, object_member, opt_int_member, opt_str_member,
    opt_str_json, opt_view, read_blank_timestamp, read_bool, read_int, read_object, read_opt_int, read_opt_str, read_str,
    read_timestamp, str_member, timestamp_member,
};
use crate::json::{get, json_of_text, member, parse_json, DecodeError, Json};
use crate::payloads::PredictionOutcome;
use crate::text::str_eq;
use crate::timestamp::Timestamp;

verus! {

/// The status of a poll.
#[derive(Clone, Copy, Debug, PartialEq, Eq, Structural)]
pub enum PollStatus {
    /// The poll is running.
    Active,
    /// The poll ended on schedule.
    Completed,
    /// The poll was ended early and stays visible.
    Terminated,
    /// The poll was ended early and is hidden.
    Archived,
    /// The poll was deleted by moderation.
    Moderated,
    /// Something went wrong with the poll.
    Invalid,
}

impl PollStatus {
    /// The value named by the wire text `s`, if any.
    pub open spec fn of_wire(s: Seq<char>) -> Option<PollStatus> {
        if s == "ACTIVE"@ {
            Some(PollStatus::Active)
        } else if s == "active"@ {
            Some(PollStatus::Active)
        } else if s == "COMPLETED"@ {
            Some(PollStatus::Completed)
        } else if s == "completed"@ {
            Some(PollStatus::Completed)
        } else if s == "TERMINATED"@ {
            Some(PollStatus::Terminated)
        } else if s == "terminated"@ {
            Some(PollStatus::Terminated)
        } else if s == "ARCHIVED"@ {
            Some(PollStatus::Archived)
        } else if s == "archived"@ {
            Some(PollStatus::Archived)
        } else if s == "MODERATED"@ {
            Some(PollStatus::Moderated)
        } else if s == "moderated"@ {
            Some(PollStatus::Moderated)
        } else if s == "INVALID"@ {
            Some(PollStatus::Invalid)
        } else if s == "invalid"@ {
            Some(PollStatus::Invalid)
        } else {
            None
        }
    }

    /// The wire text of the value.
    pub open spec fn wire(self) -> Seq<char> {
        match self {
            PollStatus::Active => "ACTIVE"@,
            PollStatus::Completed => "COMPLETED"@,
            PollStatus::Terminated => "TERMINATED"@,
            PollStatus::Archived => "ARCHIVED"@,
            PollStatus::Moderated => "MODERATED"@,
            PollStatus::Invalid => "INVALID"@,
        }
    }

    /// Reads a value from its wire text.
    pub fn from_wire(s: &str) -> (r: Option<PollStatus>)
        ensures
            r == PollStatus::of_wire(s@),
    {
        if str_eq(s, "ACTIVE") {
            Some(PollStatus::Active)
        } else if str_eq(s, "active") {
            Some(PollStatus::Active)
        } else if str_eq(s, "COMPLETED") {
            Some(PollStatus::Completed)
        } else if str_eq(s, "completed") {
            Some(PollStatus::Completed)
        } else if str_eq(s, "TERMINATED") {
            Some(PollStatus::Terminated)
        } else if str_eq(s, "terminated") {
            Some(PollStatus::Terminated)
        } else if str_eq(s, "ARCHIVED") {
            Some(PollStatus::Archived)
        } else if str_eq(s, "archived") {
            Some(PollStatus::Archived)
        } else if str_eq(s, "MODERATED") {
            Some(PollStatus::Moderated)
        } else if str_eq(s, "moderated") {
            Some(PollStatus::Moderated)
        } else if str_eq(s, "INVALID") {
            Some(PollStatus::Invalid)
        } else if str_eq(s, "invalid") {
            Some(PollStatus::Invalid)
        } else {
            None
        }
    }

    /// The wire text of the value.
    pub fn as_str(&self) -> (r: &'static str)
        ensures
            r@ == self.wire(),
    {
        match self {
            PollStatus::Active => "ACTIVE",
            PollStatus::Completed => "COMPLETED",
            PollStatus::Terminated => "TERMINATED",
            PollStatus::Archived => "ARCHIVED",
            PollStatus::Moderated => "MODERATED",
            PollStatus::Invalid => "INVALID",
        }
    }

    /// The value of the member `key`: a string that names a known value.
    pub open spec fn member(o: Seq<(String, Json)>, key: &'static str) -> Result<PollStatus, DecodeError> {
        match str_member(o, key) {
            Ok(s) => match PollStatus::of_wire(s@) {
                Some(v) => Ok(v),
                None => Err(DecodeError::UnknownValue { field: key, raw: s }),
            },
            Err(e) => Err(e),
        }
    }

    /// Reads the member `key`.
    pub fn read(o: &Vec<(String, Json)>, key: &'static str) -> (r: Result<PollStatus, DecodeError>)
        ensures
            r == PollStatus::member(o@, key),
    {
        match read_str(o, key) {
            Ok(s) => match PollStatus::from_wire(s.as_str()) {
                Some(v) => Ok(v),
                None => Err(DecodeError::UnknownValue { field: key, raw: s }),
            },
            Err(e) => Err(e),
        }
    }

    /// Reading the wire text of a value gives the value back.
    pub proof fn lemma_wire_round_trip(self)
        ensures
            PollStatus::of_wire(self.wire()) == Some(self),
    {
        reveal_strlit("ACTIVE");
        reveal_strlit("active");
        reveal_strlit("COMPLETED");
        reveal_strlit("completed");
        reveal_strlit("TERMINATED");
        reveal_strlit("terminated");
        reveal_strlit("ARCHIVED");
        reveal_strlit("archived");
        reveal_strlit("MODERATED");
        reveal_strlit("moderated");
        reveal_strlit("INVALID");
        reveal_strlit("invalid");
        assert("ACTIVE"@.len() == 6);
        assert("active"@.len() == 6);
        assert("COMPLETED"@.len() == 9);
        assert("completed"@.len() == 9);
        assert("TERMINATED"@.len() == 10);
        assert("terminated"@.len() == 10);
        assert("ARCHIVED"@.len() == 8);
        assert("archived"@.len() == 8);
        assert("MODERATED"@.len() == 9);
        assert("moderated"@.len() == 9);
        assert("INVALID"@.len() == 7);
        assert("invalid"@.len() == 7);
        match self {
            PollStatus::Active => {},
            PollStatus::Completed => {
                assert("COMPLETED"@ != "ACTIVE"@);
                assert("COMPLETED"@ != "active"@);
            },
            PollStatus::Terminated => {
                assert("TERMINATED"@ != "ACTIVE"@);
                assert("TERMINATED"@ != "active"@);
                assert("TERMINATED"@ != "COMPLETED"@);
                assert("TERMINATED"@ != "completed"@);
            },
            PollStatus::Archived => {
                assert("ARCHIVED"@ != "ACTIVE"@);
                assert("ARCHIVED"@ != "active"@);
                assert("ARCHIVED"@ != "COMPLETED"@);
                assert("ARCHIVED"@ != "completed"@);
                assert("ARCHIVED"@ != "TERMINATED"@);
                assert("ARCHIVED"@ != "terminated"@);
            },
            PollStatus::Moderated => {
                assert("MODERATED"@ != "ACTIVE"@);
                assert("MODERATED"@ != "active"@);
                assert("MODERATED"@[0] != "COMPLETED"@[0]);
                assert("MODERATED"@ != "COMPLETED"@);
                assert("MODERATED"@[0] != "completed"@[0]);
                assert("MODERATED"@ != "completed"@);
                assert("MODERATED"@ != "TERMINATED"@);
                assert("MODERATED"@ != "terminated"@);
                assert("MODERATED"@ != "ARCHIVED"@);
                assert("MODERATED"@ != "archived"@);
            },
            PollStatus::Invalid => {
                assert("INVALID"@ != "ACTIVE"@);
                assert("INVALID"@ != "active"@);
                assert("INVALID"@ != "COMPLETED"@);
                assert("INVALID"@ != "completed"@);
                assert("INVALID"@ != "TERMINATED"@);
                assert("INVALID"@ != "terminated"@);
                assert("INVALID"@ != "ARCHIVED"@);
                assert("INVALID"@ != "archived"@);
                assert("INVALID"@ != "MODERATED"@);
                assert("INVALID"@ != "moderated"@);
            },
        }
    }
}

/// The status of a prediction.
#[derive(Clone, Copy, Debug, PartialEq, Eq, Structural)]
pub enum PredictionStatus {
    /// A winning outcome was chosen.
    Resolved,
    /// The prediction is running.
    Active,
    /// The prediction was canceled and points refunded.
    Canceled,
    /// The prediction no longer takes predictions.
    Locked,
}

impl PredictionStatus {
    /// The value named by the wire text `s`, if any.
    pub open spec fn of_wire(s: Seq<char>) -> Option<PredictionStatus> {
        if s == "RESOLVED"@ {
            Some(PredictionStatus::Resolved)
        } else if s == "resolved"@ {
            Some(PredictionStatus::Resolved)
        } else if s == "ACTIVE"@ {
            Some(PredictionStatus::Active)
        } else if s == "active"@ {
            Some(PredictionStatus::Active)
        } else if s == "CANCELED"@ {
            Some(PredictionStatus::Canceled)
        } else if s == "canceled"@ {
            Some(PredictionStatus::Canceled)
        } else if s == "LOCKED"@ {
            Some(PredictionStatus::Locked)
        } else if s == "locked"@ {
            Some(PredictionStatus::Locked)
        } else {
            None
        }
    }

    /// The wire text of the value.
    pub open spec fn wire(self) -> Seq<char> {
        match self {
            PredictionStatus::Resolved => "RESOLVED"@,
            PredictionStatus::Active => "ACTIVE"@,
            PredictionStatus::Canceled => "CANCELED"@,
            PredictionStatus::Locked => "LOCKED"@,
        }
    }

    /// Reads a value from its wire text.
    pub fn from_wire(s: &str) -> (r: Option<PredictionStatus>)
        ensures
            r == PredictionStatus::of_wire(s@),
    {
        if str_eq(s, "RESOLVED") {
            Some(PredictionStatus::Resolved)
        } else if str_eq(s, "resolved") {
            Some(PredictionStatus::Resolved)
        } else if str_eq(s, "ACTIVE") {
            Some(PredictionStatus::Active)
        } else if str_eq(s, "active") {
            Some(PredictionStatus::Active)
        } else if str_eq(s, "CANCELED") {
            Some(PredictionStatus::Canceled)
        } else if str_eq(s, "canceled") {
            Some(PredictionStatus::Canceled)
        } else if str_eq(s, "LOCKED") {
            Some(PredictionStatus::Locked)
        } else if str_eq(s, "locked") {
            Some(PredictionStatus::Locked)
        } else {
            None
        }
    }

    /// The wire text of the value.
    pub fn as_str(&self) -> (r: &'static str)
        ensures
            r@ == self.wire(),
    {
        match self {
            PredictionStatus::Resolved => "RESOLVED",
            PredictionStatus::Active => "ACTIVE",
            PredictionStatus::Canceled => "CANCELED",
            PredictionStatus::Locked => "LOCKED",
        }
    }

    /// The value of the member `key`: a string that names a known value.
    pub open spec fn member(o: Seq<(String, Json)>, key: &'static str) -> Result<PredictionStatus, DecodeError> {
        match str_member(o, key) {
            Ok(s) => match PredictionStatus::of_wire(s@) {
                Some(v) => Ok(v),
                None => Err(DecodeError::UnknownValue { field: key, raw: s }),
            },
            Err(e) => Err(e),
        }
    }

    /// Reads the member `key`.
    pub fn read(o: &Vec<(String, Json)>, key: &'static str) -> (r: Result<PredictionStatus, DecodeError>)
        ensures
            r == PredictionStatus::member(o@, key),
    {
        match read_str(o, key) {
            Ok(s) => match PredictionStatus::from_wire(s.as_str()) {
                Some(v) => Ok(v),
                None => Err(DecodeError::UnknownValue { field: key, raw: s }),
            },
            Err(e) => Err(e),
        }
    }

    /// Reading the wire text of a value gives the value back.
    pub proof fn lemma_wire_round_trip(self)
        ensures
            PredictionStatus::of_wire(self.wire()) == Some(self),
    {
        reveal_strlit("RESOLVED");
        reveal_strlit("resolved");
        reveal_strlit("ACTIVE");
        reveal_strlit("active");
        reveal_strlit("CANCELED");
        reveal_strlit("canceled");
        reveal_strlit("LOCKED");
        reveal_strlit("locked");
        assert("RESOLVED"@.len() == 8);
        assert("resolved"@.len() == 8);
        assert("ACTIVE"@.len() == 6);
        assert("active"@.len() == 6);
        assert("CANCELED"@.len() == 8);
        assert("canceled"@.len() == 8);
        assert("LOCKED"@.len() == 6);
        assert("locked"@.len() == 6);
        match self {
            PredictionStatus::Resolved => {},
            PredictionStatus::Active => {
                assert("ACTIVE"@ != "RESOLVED"@);
                assert("ACTIVE"@ != "resolved"@);
            },
            PredictionStatus::Canceled => {
                assert("CANCELED"@[0] != "RESOLVED"@[0]);
                assert("CANCELED"@ != "RESOLVED"@);
                assert("CANCELED"@[0] != "resolved"@[0]);
                assert("CANCELED"@ != "resolved"@);
                assert("CANCELED"@ != "ACTIVE"@);
                assert("CANCELED"@ != "active"@);
            },
            PredictionStatus::Locked => {
                assert("LOCKED"@ != "RESOLVED"@);
                assert("LOCKED"@ != "resolved"@);
                assert("LOCKED"@[0] != "ACTIVE"@[0]);
                assert("LOCKED"@ != "ACTIVE"@);
                assert("LOCKED"@[0] != "active"@[0]);
                assert("LOCKED"@ != "active"@);
                assert("LOCKED"@ != "CANCELED"@);
                assert("LOCKED"@ != "canceled"@);
            },
        }
    }
}

/// A choice of a poll.
#[derive(Debug)]
pub struct PollChoice {
    /// The choice id.
    pub id: String,
    /// The choice text.
    pub title: String,
    /// Total votes.
    pub votes: i64,
    /// Votes cast with channel points.
    pub channel_points_votes: Option<i64>,
    /// Votes cast with bits.
    pub bits_votes: Option<i64>,
}

impl PollChoice {
    /// Whether `k` names a member that the record reads.
    pub open spec fn knows(k: Seq<char>) -> bool {
        k == "id"@
            || k == "title"@
            || k == "votes"@
            || k == "channel_points_votes"@
            || k == "bits_votes"@
    }

    /// [`PollChoice::knows`] as a predicate.
    pub open spec fn known() -> spec_fn(Seq<char>) -> bool {
        |k: Seq<char>| PollChoice::knows(k)
    }

    fn is_known(k: &str) -> (r: bool)
        ensures
            r == PollChoice::knows(k@),
    {
        str_eq(k, "id")
            || str_eq(k, "title")
            || str_eq(k, "votes")
            || str_eq(k, "channel_points_votes")
            || str_eq(k, "bits_votes")
    }

    /// Finds the first member that the record does not read.
    pub fn unknown_member(o: &Vec<(String, Json)>) -> (r: Option<DecodeError>)
        ensures
            r == first_unknown(o@, PollChoice::known()),
    {
        let mut i: usize = 0;
        assert(o@.subrange(0, o@.len() as int) == o@);
        while i < o.len()
            invariant
                i <= o@.len(),
                first_unknown(o@, PollChoice::known()) == first_unknown(o@.subrange(i as int, o@.len() as int), PollChoice::known()),
            decreases o@.len() - i,
        {
            let ghost rest = o@.subrange(i as int, o@.len() as int);
            assert(rest.drop_first() == o@.subrange(i + 1, o@.len() as int));
            if !PollChoice::is_known(o[i].0.as_str()) {
                return Some(DecodeError::UnknownField(o[i].0.clone()));
            }
            i = i + 1;
        }
        None
    }

    /// The first error of `o`: a member the record does not read, when those are
    /// denied, then the first field, in declaration order, that cannot be read.
    pub open spec fn error(o: Seq<(String, Json)>, deny: bool) -> Option<DecodeError> {
        either(if deny { first_unknown(o, PollChoice::known()) } else { None },
        either(err_of(str_member(o, "id")),
        either(err_of(str_member(o, "title")),
        either(err_of(int_member(o, "votes")),
        either(err_of(opt_int_member(o, "channel_points_votes")),
        err_of(opt_int_member(o, "bits_votes")))))))
    }

    /// Whether every field of `x` is the value read from `o`.
    pub open spec fn reads_as(o: Seq<(String, Json)>, x: PollChoice) -> bool {
        &&& x.id == str_member(o, "id")->Ok_0
        &&& x.title == str_member(o, "title")->Ok_0
        &&& x.votes == int_member(o, "votes")->Ok_0
        &&& x.channel_points_votes == opt_int_member(o, "channel_points_votes")->Ok_0
        &&& x.bits_votes == opt_int_member(o, "bits_votes")->Ok_0
    }

    /// Whether `r` is what decoding the members `o` yields.
    pub open spec fn decoded(o: Seq<(String, Json)>, deny: bool, r: Result<PollChoice, DecodeError>) -> bool {
        match r {
            Ok(x) => PollChoice::error(o, deny) is None && PollChoice::reads_as(o, x),
            Err(e) => PollChoice::error(o, deny) == Some(e),
        }
    }

    /// Decodes the record from the members of a JSON object; with `deny`, a
    /// member that the record does not read is an error.
    pub fn decode(o: &Vec<(String, Json)>, deny: bool) -> (r: Result<PollChoice, DecodeError>)
        ensures
            PollChoice::decoded(o@, deny, r),
    {
        if deny {
            if let Some(e) = PollChoice::unknown_member(o) {
                return Err(e);
            }
        }
        let id = match read_str(o, "id") {
            Ok(v) => v,
            Err(e) => return Err(e),
        };
        let title = match read_str(o, "title") {
            Ok(v) => v,
            Err(e) => return Err(e),
        };
        let votes = match read_int(o, "votes") {
            Ok(v) => v,
            Err(e) => return Err(e),
        };
        let channel_points_votes = match read_opt_int(o, "channel_points_votes") {
            Ok(v) => v,
            Err(e) => return Err(e),
        };
        let bits_votes = match read_opt_int(o, "bits_votes") {
            Ok(v) => v,
            Err(e) => return Err(e),
        };
        Ok(PollChoice { id, title, votes, channel_points_votes, bits_votes })
    }
}

impl PollChoice {
    /// The first error among the items of an array of `PollChoice` records.
    pub open spec fn list_error(items: Seq<Json>, key: &'static str, deny: bool) -> Option<DecodeError>
        decreases items.len(),
    {
        if items.len() == 0 {
            None
        } else {
            either(
                match items[0] {
                    Json::Object(m) => PollChoice::error(m@, deny),
                    _ => Some(DecodeError::WrongShape(key)),
                },
                PollChoice::list_error(items.drop_first(), key, deny),
            )
        }
    }

    /// Whether each item is an object that reads as the record at its index.
    pub open spec fn list_reads_as(items: Seq<Json>, v: Seq<PollChoice>) -> bool {
        &&& items.len() == v.len()
        &&& forall|i: int| 0 <= i < items.len() ==> (#[trigger] items[i] matches Json::Object(m) && PollChoice::reads_as(m@, v[i]))
    }

    /// Decodes an array of records.
    pub fn decode_list(items: &Vec<Json>, key: &'static str, deny: bool) -> (r: Result<Vec<PollChoice>, DecodeError>)
        ensures
            match PollChoice::list_error(items@, key, deny) {
                Some(e) => r == Err::<Vec<PollChoice>, DecodeError>(e),
                None => r is Ok && PollChoice::list_reads_as(items@, r->Ok_0@),
            },
    {
        let mut out: Vec<PollChoice> = Vec::new();
        let mut i: usize = 0;
        assert(items@.subrange(0, items@.len() as int) == items@);
        while i < items.len()
            invariant
                i <= items@.len(),
                out@.len() == i,
                PollChoice::list_error(items@, key, deny) == PollChoice::list_error(items@.subrange(i as int, items@.len() as int), key, deny),
                forall|k: int| 0 <= k < i ==> (#[trigger] items@[k] matches Json::Object(m) && PollChoice::reads_as(m@, out@[k])),
            decreases items@.len() - i,
        {
            let ghost rest = items@.subrange(i as int, items@.len() as int);
            assert(rest.drop_first() == items@.subrange(i + 1, items@.len() as int));
            assert(rest[0] == items@[i as int]);
            match &items[i] {
                Json::Object(m) => match PollChoice::decode(m, deny) {
                    Ok(x) => out.push(x),
                    Err(e) => return Err(e),
                },
                _ => return Err(DecodeError::WrongShape(key)),
            }
            i = i + 1;
        }
        Ok(out)
    }

}

/// A poll.
#[derive(Debug)]
pub struct Poll {
    /// The poll id.
    pub id: String,
    /// The broadcaster's id.
    pub broadcaster_id: String,
    /// The broadcaster's display name.
    pub broadcaster_name: String,
    /// The broadcaster's login.
    pub broadcaster_login: String,
    /// The question.
    pub title: String,
    /// The choices.
    pub choices: Vec<PollChoice>,
    /// Whether extra votes with channel points are allowed.
    pub channel_points_voting_enabled: bool,
    /// Channel points per extra vote.
    pub channel_points_per_vote: i64,
    /// The poll status.
    pub status: PollStatus,
    /// Running time in seconds.
    pub duration: i64,
    /// When the poll started.
    pub started_at: Timestamp,
    /// When the poll ended, if it did.
    pub ended_at: Option<Timestamp>,
}

impl Poll {
    /// Whether `k` names a member that the record reads.
    pub open spec fn knows(k: Seq<char>) -> bool {
        k == "id"@
            || k == "broadcaster_id"@
            || k == "broadcaster_name"@
            || k == "broadcaster_login"@
            || k == "title"@
            || k == "choices"@
            || k == "channel_points_voting_enabled"@
            || k == "channel_points_per_vote"@
            || k == "status"@
            || k == "duration"@
            || k == "started_at"@
            || k == "ended_at"@
    }

    /// [`Poll::knows`] as a predicate.
    pub open spec fn known() -> spec_fn(Seq<char>) -> bool {
        |k: Seq<char>| Poll::knows(k)
    }

    fn is_known(k: &str) -> (r: bool)
        ensures
            r == Poll::knows(k@),
    {
        str_eq(k, "id")
            || str_eq(k, "broadcaster_id")
            || str_eq(k, "broadcaster_name")
            || str_eq(k, "broadcaster_login")
            || str_eq(k, "title")
            || str_eq(k, "choices")
            || str_eq(k, "channel_points_voting_enabled")
            || str_eq(k, "channel_points_per_vote")
            || str_eq(k, "status")
            || str_eq(k, "duration")
            || str_eq(k, "started_at")
            || str_eq(k, "ended_at")
    }

    /// Finds the first member that the record does not read.
    pub fn unknown_member(o: &Vec<(String, Json)>) -> (r: Option<DecodeError>)
        ensures
            r == first_unknown(o@, Poll::known()),
    {
        let mut i: usize = 0;
        assert(o@.subrange(0, o@.len() as int) == o@);
        while i < o.len()
            invariant
                i <= o@.len(),
                first_unknown(o@, Poll::known()) == first_unknown(o@.subrange(i as int, o@.len() as int), Poll::known()),
            decreases o@.len() - i,
        {
            let ghost rest = o@.subrange(i as int, o@.len() as int);
            assert(rest.drop_first() == o@.subrange(i + 1, o@.len() as int));
            if !Poll::is_known(o[i].0.as_str()) {
                return Some(DecodeError::UnknownField(o[i].0.clone()));
            }
            i = i + 1;
        }
        None
    }

    /// The first error of `o`: a member the record does not read, when those are
    /// denied, then the first field, in declaration order, that cannot be read.
    pub open spec fn error(o: Seq<(String, Json)>, deny: bool) -> Option<DecodeError> {
        either(if deny { first_unknown(o, Poll::known()) } else { None },
        either(err_of(str_member(o, "id")),
        either(err_of(str_member(o, "broadcaster_id")),
        either(err_of(str_member(o, "broadcaster_name")),
        either(err_of(str_member(o, "broadcaster_login")),
        either(err_of(str_member(o, "title")),
        either(match member(o, "choices"@) { Some(Json::Array(items)) => PollChoice::list_error(items@, "choices", deny), Some(_) => Some(DecodeError::WrongShape("choices")), None => Some(DecodeError::MissingField("choices")) },
        either(err_of(bool_member(o, "channel_points_voting_enabled")),
        either(err_of(int_member(o, "channel_points_per_vote")),
        either(err_of(PollStatus::member(o, "status")),
        either(err_of(int_member(o, "duration")),
        either(err_of(timestamp_member(o, "started_at")),
        err_of(blank_timestamp_member(o, "ended_at"))))))))))))))
    }

    /// Whether every field of `x` is the value read from `o`.
    pub open spec fn reads_as(o: Seq<(String, Json)>, x: Poll) -> bool {
        &&& x.id == str_member(o, "id")->Ok_0
        &&& x.broadcaster_id == str_member(o, "broadcaster_id")->Ok_0
        &&& x.broadcaster_name == str_member(o, "broadcaster_name")->Ok_0
        &&& x.broadcaster_login == str_member(o, "broadcaster_login")->Ok_0
        &&& x.title == str_member(o, "title")->Ok_0
        &&& (member(o, "choices"@) matches Some(Json::Array(items)) && PollChoice::list_reads_as(items@, x.choices@))
        &&& x.channel_points_voting_enabled == bool_member(o, "channel_points_voting_enabled")->Ok_0
        &&& x.channel_points_per_vote == int_member(o, "channel_points_per_vote")->Ok_0
        &&& x.status == PollStatus::member(o, "status")->Ok_0
        &&& x.duration == int_member(o, "duration")->Ok_0
        &&& x.started_at@ == timestamp_member(o, "started_at")->Ok_0
        &&& opt_view(x.ended_at) == blank_timestamp_member(o, "ended_at")->Ok_0
    }

    /// Whether `r` is what decoding the members `o` yields.
    pub open spec fn decoded(o: Seq<(String, Json)>, deny: bool, r: Result<Poll, DecodeError>) -> bool {
        match r {
            Ok(x) => Poll::error(o, deny) is None && Poll::reads_as(o, x),
            Err(e) => Poll::error(o, deny) == Some(e),
        }
    }

    /// Decodes the record from the members of a JSON object; with `deny`, a
    /// member that the record does not read is an error.
    pub fn decode(o: &Vec<(String, Json)>, deny: bool) -> (r: Result<Poll, DecodeError>)
        ensures
            Poll::decoded(o@, deny, r),
    {
        if deny {
            if let Some(e) = Poll::unknown_member(o) {
                return Err(e);
            }
        }
        let id = match read_str(o, "id") {
            Ok(v) => v,
            Err(e) => return Err(e),
        };
        let broadcaster_id = match read_str(o, "broadcaster_id") {
            Ok(v) => v,
            Err(e) => return Err(e),
        };
        let broadcaster_name = match read_str(o, "broadcaster_name") {
            Ok(v) => v,
            Err(e) => return Err(e),
        };
        let broadcaster_login = match read_str(o, "broadcaster_login") {
            Ok(v) => v,
            Err(e) => return Err(e),
        };
        let title = match read_str(o, "title") {
            Ok(v) => v,
            Err(e) => return Err(e),
        };
        let choices = match get(o, "choices") {
            Some(Json::Array(items)) => match PollChoice::decode_list(items, "choices", deny) {
                Ok(v) => v,
                Err(e) => return Err(e),
            },
            Some(_) => return Err(DecodeError::WrongShape("choices")),
            None => return Err(DecodeError::MissingField("choices")),
        };
        let channel_points_voting_enabled = match read_bool(o, "channel_points_voting_enabled") {
            Ok(v) => v,
            Err(e) => return Err(e),
        };
        let channel_points_per_vote = match read_int(o, "channel_points_per_vote") {
            Ok(v) => v,
            Err(e) => return Err(e),
        };
        let status = match PollStatus::read(o, "status") {
            Ok(v) => v,
            Err(e) => return Err(e),
        };
        let duration = match read_int(o, "duration") {
            Ok(v) => v,
            Err(e) => return Err(e),
        };
        let started_at = match read_timestamp(o, "started_at") {
            Ok(v) => v,
            Err(e) => return Err(e),
        };
        let ended_at = match read_blank_timestamp(o, "ended_at") {
            Ok(v) => v,
            Err(e) => return Err(e),
        };
        Ok(Poll { id, broadcaster_id, broadcaster_name, broadcaster_login, title, choices, channel_points_voting_enabled, channel_points_per_vote, status, duration, started_at, ended_at })
    }
}

impl Poll {
    /// The first error among the items of an array of `Poll` records.
    pub open spec fn list_error(items: Seq<Json>, key: &'static str, deny: bool) -> Option<DecodeError>
        decreases items.len(),
    {
        if items.len() == 0 {
            None
        } else {
            either(
                match items[0] {
                    Json::Object(m) => Poll::error(m@, deny),
                    _ => Some(DecodeError::WrongShape(key)),
                },
                Poll::list_error(items.drop_first(), key, deny),
            )
        }
    }

    /// Whether each item is an object that reads as the record at its index.
    pub open spec fn list_reads_as(items: Seq<Json>, v: Seq<Poll>) -> bool {
        &&& items.len() == v.len()
        &&& forall|i: int| 0 <= i < items.len() ==> (#[trigger] items[i] matches Json::Object(m) && Poll::reads_as(m@, v[i]))
    }

    /// Decodes an array of records.
    pub fn decode_list(items: &Vec<Json>, key: &'static str, deny: bool) -> (r: Result<Vec<Poll>, DecodeError>)
        ensures
            match Poll::list_error(items@, key, deny) {
                Some(e) => r == Err::<Vec<Poll>, DecodeError>(e),
                None => r is Ok && Poll::list_reads_as(items@, r->Ok_0@),
            },
    {
        let mut out: Vec<Poll> = Vec::new();
        let mut i: usize = 0;
        assert(items@.subrange(0, items@.len() as int) == items@);
        while i < items.len()
            invariant
                i <= items@.len(),
                out@.len() == i,
                Poll::list_error(items@, key, deny) == Poll::list_error(items@.subrange(i as int, items@.len() as int), key, deny),
                forall|k: int| 0 <= k < i ==> (#[trigger] items@[k] matches Json::Object(m) && Poll::reads_as(m@, out@[k])),
            decreases items@.len() - i,
        {
            let ghost rest = items@.subrange(i as int, items@.len() as int);
            assert(rest.drop_first() == items@.subrange(i + 1, items@.len() as int));
            assert(rest[0] == items@[i as int]);
            match &items[i] {
                Json::Object(m) => match Poll::decode(m, deny) {
                    Ok(x) => out.push(x),
                    Err(e) => return Err(e),
                },
                _ => return Err(DecodeError::WrongShape(key)),
            }
            i = i + 1;
        }
        Ok(out)
    }

}

/// A prediction.
#[derive(Debug)]
pub struct Prediction {
    /// The prediction id.
    pub id: String,
    /// The broadcaster's id.
    pub broadcaster_id: String,
    /// The broadcaster's display name.
    pub broadcaster_name: String,
    /// The broadcaster's login.
    pub broadcaster_login: String,
    /// The question.
    pub title: String,
    /// The winning outcome, once resolved.
    pub winning_outcome_id: Option<String>,
    /// The outcomes.
    pub outcomes: Vec<PredictionOutcome>,
    /// Seconds during which predictions are taken.
    pub prediction_window: i64,
    /// The prediction status.
    pub status: PredictionStatus,
    /// When the prediction was created.
    pub created_at: Timestamp,
    /// When it ended, if it did.
    pub ended_at: Option<Timestamp>,
    /// When it locked, if it did.
    pub locked_at: Option<Timestamp>,
}

impl Prediction {
    /// Whether `k` names a member that the record reads.
    pub open spec fn knows(k: Seq<char>) -> bool {
        k == "id"@
            || k == "broadcaster_id"@
            || k == "broadcaster_name"@
            || k == "broadcaster_login"@
            || k == "title"@
            || k == "winning_outcome_id"@
            || k == "outcomes"@
            || k == "prediction_window"@
            || k == "status"@
            || k == "created_at"@
            || k == "ended_at"@
            || k == "locked_at"@
    }

    /// [`Prediction::knows`] as a predicate.
    pub open spec fn known() -> spec_fn(Seq<char>) -> bool {
        |k: Seq<char>| Prediction::knows(k)
    }

    fn is_known(k: &str) -> (r: bool)
        ensures
            r == Prediction::knows(k@),
    {
        str_eq(k, "id")
            || str_eq(k, "broadcaster_id")
            || str_eq(k, "broadcaster_name")
            || str_eq(k, "broadcaster_login")
            || str_eq(k, "title")
            || str_eq(k, "winning_outcome_id")
            || str_eq(k, "outcomes")
            || str_eq(k, "prediction_window")
            || str_eq(k, "status")
            || str_eq(k, "created_at")
            || str_eq(k, "ended_at")
            || str_eq(k, "locked_at")
    }

    /// Finds the first member that the record does not read.
    pub fn unknown_member(o: &Vec<(String, Json)>) -> (r: Option<DecodeError>)
        ensures
            r == first_unknown(o@, Prediction::known()),
    {
        let mut i: usize = 0;
        assert(o@.subrange(0, o@.len() as int) == o@);
        while i < o.len()
            invariant
                i <= o@.len(),
                first_unknown(o@, Prediction::known()) == first_unknown(o@.subrange(i as int, o@.len() as int), Prediction::known()),
            decreases o@.len() - i,
        {
            let ghost rest = o@.subrange(i as int, o@.len() as int);
            assert(rest.drop_first() == o@.subrange(i + 1, o@.len() as int));
            if !Prediction::is_known(o[i].0.as_str()) {
                return Some(DecodeError::UnknownField(o[i].0.clone()));
            }
            i = i + 1;
        }
        None
    }

    /// The first error of `o`: a member the record does not read, when those are
    /// denied, then the first field, in declaration order, that cannot be read.
    pub open spec fn error(o: Seq<(String, Json)>, deny: bool) -> Option<DecodeError> {
        either(if deny { first_unknown(o, Prediction::known()) } else { None },
        either(err_of(str_member(o, "id")),
        either(err_of(str_member(o, "broadcaster_id")),
        either(err_of(str_member(o, "broadcaster_name")),
        either(err_of(str_member(o, "broadcaster_login")),
        either(err_of(str_member(o, "title")),
        either(err_of(opt_str_member(o, "winning_outcome_id")),
        either(match member(o, "outcomes"@) { Some(Json::Array(items)) => PredictionOutcome::list_error(items@, "outcomes", deny), Some(_) => Some(DecodeError::WrongShape("outcomes")), None => Some(DecodeError::MissingField("outcomes")) },
        either(err_of(int_member(o, "prediction_window")),
        either(err_of(PredictionStatus::member(o, "status")),
        either(err_of(timestamp_member(o, "created_at")),
        either(err_of(blank_timestamp_member(o, "ended_at")),
        err_of(blank_timestamp_member(o, "locked_at"))))))))))))))
    }

    /// Whether every field of `x` is the value read from `o`.
    pub open spec fn reads_as(o: Seq<(String, Json)>, x: Prediction) -> bool {
        &&& x.id == str_member(o, "id")->Ok_0
        &&& x.broadcaster_id == str_member(o, "broadcaster_id")->Ok_0
        &&& x.broadcaster_name == str_member(o, "broadcaster_name")->Ok_0
        &&& x.broadcaster_login == str_member(o, "broadcaster_login")->Ok_0
        &&& x.title == str_member(o, "title")->Ok_0
        &&& x.winning_outcome_id == opt_str_member(o, "winning_outcome_id")->Ok_0
        &&& (member(o, "outcomes"@) matches Some(Json::Array(items)) && PredictionOutcome::list_reads_as(items@, x.outcomes@))
        &&& x.prediction_window == int_member(o, "prediction_window")->Ok_0
        &&& x.status == PredictionStatus::member(o, "status")->Ok_0
        &&& x.created_at@ == timestamp_member(o, "created_at")->Ok_0
        &&& opt_view(x.ended_at) == blank_timestamp_member(o, "ended_at")->Ok_0
        &&& opt_view(x.locked_at) == blank_timestamp_member(o, "locked_at")->Ok_0
    }

    /// Whether `r` is what decoding the members `o` yields.
    pub open spec fn decoded(o: Seq<(String, Json)>, deny: bool, r: Result<Prediction, DecodeError>) -> bool {
        match r {
            Ok(x) => Prediction::error(o, deny) is None && Prediction::reads_as(o, x),
            Err(e) => Prediction::error(o, deny) == Some(e),
        }
    }

    /// Decodes the record from the members of a JSON object; with `deny`, a
    /// member that the record does not read is an error.
    pub fn decode(o: &Vec<(String, Json)>, deny: bool) -> (r: Result<Prediction, DecodeError>)
        ensures
            Prediction::decoded(o@, deny, r),
    {
        if deny {
            if let Some(e) = Prediction::unknown_member(o) {
                return Err(e);
            }
        }
        let id = match read_str(o, "id") {
            Ok(v) => v,
            Err(e) => return Err(e),
        };
        let broadcaster_id = match read_str(o, "broadcaster_id") {
            Ok(v) => v,
            Err(e) => return Err(e),
        };
        let broadcaster_name = match read_str(o, "broadcaster_name") {
            Ok(v) => v,
            Err(e) => return Err(e),
        };
        let broadcaster_login = match read_str(o, "broadcaster_login") {
            Ok(v) => v,
            Err(e) => return Err(e),
        };
        let title = match read_str(o, "title") {
            Ok(v) => v,
            Err(e) => return Err(e),
        };
        let winning_outcome_id = match read_opt_str(o, "winning_outcome_id") {
            Ok(v) => v,
            Err(e) => return Err(e),
        };
        let outcomes = match get(o, "outcomes") {
            Some(Json::Array(items)) => match PredictionOutcome::decode_list(items, "outcomes", deny) {
                Ok(v) => v,
                Err(e) => return Err(e),
            },
            Some(_) => return Err(DecodeError::WrongShape("outcomes")),
            None => return Err(DecodeError::MissingField("outcomes")),
        };
        let prediction_window = match read_int(o, "prediction_window") {
            Ok(v) => v,
            Err(e) => return Err(e),
        };
        let status = match PredictionStatus::read(o, "status") {
            Ok(v) => v,
            Err(e) => return Err(e),
        };
        let created_at = match read_timestamp(o, "created_at") {
            Ok(v) => v,
            Err(e) => return Err(e),
        };
        let ended_at = match read_blank_timestamp(o, "ended_at") {
            Ok(v) => v,
            Err(e) => return Err(e),
        };
        let locked_at = match read_blank_timestamp(o, "locked_at") {
            Ok(v) => v,
            Err(e) => return Err(e),
        };
        Ok(Prediction { id, broadcaster_id, broadcaster_name, broadcaster_login, title, winning_outcome_id, outcomes, prediction_window, status, created_at, ended_at, locked_at })
    }
}

impl Prediction {
    /// The first error among the items of an array of `Prediction` records.
    pub open spec fn list_error(items: Seq<Json>, key: &'static str, deny: bool) -> Option<DecodeError>
        decreases items.len(),
    {
        if items.len() == 0 {
            None
        } else {
            either(
                match items[0] {
                    Json::Object(m) => Prediction::error(m@, deny),
                    _ => Some(DecodeError::WrongShape(key)),
                },
                Prediction::list_error(items.drop_first(), key, deny),
            )
        }
    }

    /// Whether each item is an object that reads as the record at its index.
    pub open spec fn list_reads_as(items: Seq<Json>, v: Seq<Prediction>) -> bool {
        &&& items.len() == v.len()
        &&& forall|i: int| 0 <= i < items.len() ==> (#[trigger] items[i] matches Json::Object(m) && Prediction::reads_as(m@, v[i]))
    }

    /// Decodes an array of records.
    pub fn decode_list(items: &Vec<Json>, key: &'static str, deny: bool) -> (r: Result<Vec<Prediction>, DecodeError>)
        ensures
            match Prediction::list_error(items@, key, deny) {
                Some(e) => r == Err::<Vec<Prediction>, DecodeError>(e),
                None => r is Ok && Prediction::list_reads_as(items@, r->Ok_0@),
            },
    {
        let mut out: Vec<Prediction> = Vec::new();
        let mut i: usize = 0;
        assert(items@.subrange(0, items@.len() as int) == items@);
        while i < items.len()
            invariant
                i <= items@.len(),
                out@.len() == i,
                Prediction::list_error(items@, key, deny) == Prediction::list_error(items@.subrange(i as int, items@.len() as int), key, deny),
                forall|k: int| 0 <= k < i ==> (#[trigger] items@[k] matches Json::Object(m) && Prediction::reads_as(m@, out@[k])),
            decreases items@.len() - i,
        {
            let ghost rest = items@.subrange(i as int, items@.len() as int);
            assert(rest.drop_first() == items@.subrange(i + 1, items@.len() as int));
            assert(rest[0] == items@[i as int]);
            match &items[i] {
                Json::Object(m) => match Prediction::decode(m, deny) {
                    Ok(x) => out.push(x),
                    Err(e) => return Err(e),
                },
                _ => return Err(DecodeError::WrongShape(key)),
            }
            i = i + 1;
        }
        Ok(out)
    }

}

/// A user on the bits leaderboard.
#[derive(Debug)]
pub struct LeaderboardUser {
    /// Leaderboard rank.
    pub rank: i64,
    /// Bits given.
    pub score: i64,
    /// The user's id.
    pub user_id: String,
    /// The user's display name.
    pub user_name: String,
    /// The user's login.
    pub user_login: String,
}

impl LeaderboardUser {
    /// Whether `k` names a member that the record reads.
    pub open spec fn knows(k: Seq<char>) -> bool {
        k == "rank"@
            || k == "score"@
            || k == "user_id"@
            || k == "user_name"@
            || k == "user_login"@
    }

    /// [`LeaderboardUser::knows`] as a predicate.
    pub open spec fn known() -> spec_fn(Seq<char>) -> bool {
        |k: Seq<char>| LeaderboardUser::knows(k)
    }

    fn is_known(k: &str) -> (r: bool)
        ensures
            r == LeaderboardUser::knows(k@),
    {
        str_eq(k, "rank")
            || str_eq(k, "score")
            || str_eq(k, "user_id")
            || str_eq(k, "user_name")
            || str_eq(k, "user_login")
    }

    /// Finds the first member that the record does not read.
    pub fn unknown_member(o: &Vec<(String, Json)>) -> (r: Option<DecodeError>)
        ensures
            r == first_unknown(o@, LeaderboardUser::known()),
    {
        let mut i: usize = 0;
        assert(o@.subrange(0, o@.len() as int) == o@);
        while i < o.len()
            invariant
                i <= o@.len(),
                first_unknown(o@, LeaderboardUser::known()) == first_unknown(o@.subrange(i as int, o@.len() as int), LeaderboardUser::known()),
            decreases o@.len() - i,
        {
            let ghost rest = o@.subrange(i as int, o@.len() as int);
            assert(rest.drop_first() == o@.subrange(i + 1, o@.len() as int));
            if !LeaderboardUser::is_known(o[i].0.as_str()) {
                return Some(DecodeError::UnknownField(o[i].0.clone()));
            }
            i = i + 1;
        }
        None
    }

    /// The first error of `o`: a member the record does not read, when those are
    /// denied, then the first field, in declaration order, that cannot be read.
    pub open spec fn error(o: Seq<(String, Json)>, deny: bool) -> Option<DecodeError> {
        either(if deny { first_unknown(o, LeaderboardUser::known()) } else { None },
        either(err_of(int_member(o, "rank")),
        either(err_of(int_member(o, "score")),
        either(err_of(str_member(o, "user_id")),
        either(err_of(str_member(o, "user_name")),
        err_of(str_member(o, "user_login")))))))
    }

    /// Whether every field of `x` is the value read from `o`.
    pub open spec fn reads_as(o: Seq<(String, Json)>, x: LeaderboardUser) -> bool {
        &&& x.rank == int_member(o, "rank")->Ok_0
        &&& x.score == int_member(o, "score")->Ok_0
        &&& x.user_id == str_member(o, "user_id")->Ok_0
        &&& x.user_name == str_member(o, "user_name")->Ok_0
        &&& x.user_login == str_member(o, "user_login")->Ok_0
    }

    /// Whether `r` is what decoding the members `o` yields.
    pub open spec fn decoded(o: Seq<(String, Json)>, deny: bool, r: Result<LeaderboardUser, DecodeError>) -> bool {
        match r {
            Ok(x) => LeaderboardUser::error(o, deny) is None && LeaderboardUser::reads_as(o, x),
            Err(e) => LeaderboardUser::error(o, deny) == Some(e),
        }
    }

    /// Decodes the record from the members of a JSON object; with `deny`, a
    /// member that the record does not read is an error.
    pub fn decode(o: &Vec<(String, Json)>, deny: bool) -> (r: Result<LeaderboardUser, DecodeError>)
        ensures
            LeaderboardUser::decoded(o@, deny, r),
    {
        if deny {
            if let Some(e) = LeaderboardUser::unknown_member(o) {
                return Err(e);
            }
        }
        let rank = match read_int(o, "rank") {
            Ok(v) => v,
            Err(e) => return Err(e),
        };
        let score = match read_int(o, "score") {
            Ok(v) => v,
            Err(e) => return Err(e),
        };
        let user_id = match read_str(o, "user_id") {
            Ok(v) => v,
            Err(e) => return Err(e),
        };
        let user_name = match read_str(o, "user_name") {
            Ok(v) => v,
            Err(e) => return Err(e),
        };
        let user_login = match read_str(o, "user_login") {
            Ok(v) => v,
            Err(e) => return Err(e),
        };
        Ok(LeaderboardUser { rank, score, user_id, user_name, user_login })
    }
}

impl LeaderboardUser {
    /// The first error among the items of an array of `LeaderboardUser` records.
    pub open spec fn list_error(items: Seq<Json>, key: &'static str, deny: bool) -> Option<DecodeError>
        decreases items.len(),
    {
        if items.len() == 0 {
            None
        } else {
            either(
                match items[0] {
                    Json::Object(m) => LeaderboardUser::error(m@, deny),
                    _ => Some(DecodeError::WrongShape(key)),
                },
                LeaderboardUser::list_error(items.drop_first(), key, deny),
            )
        }
    }

    /// Whether each item is an object that reads as the record at its index.
    pub open spec fn list_reads_as(items: Seq<Json>, v: Seq<LeaderboardUser>) -> bool {
        &&& items.len() == v.len()
        &&& forall|i: int| 0 <= i < items.len() ==> (#[trigger] items[i] matches Json::Object(m) && LeaderboardUser::reads_as(m@, v[i]))
    }

    /// Decodes an array of records.
    pub fn decode_list(items: &Vec<Json>, key: &'static str, deny: bool) -> (r: Result<Vec<LeaderboardUser>, DecodeError>)
        ensures
            match LeaderboardUser::list_error(items@, key, deny) {
                Some(e) => r == Err::<Vec<LeaderboardUser>, DecodeError>(e),
                None => r is Ok && LeaderboardUser::list_reads_as(items@, r->Ok_0@),
            },
    {
        let mut out: Vec<LeaderboardUser> = Vec::new();
        let mut i: usize = 0;
        assert(items@.subrange(0, items@.len() as int) == items@);
        while i < items.len()
            invariant
                i <= items@.len(),
                out@.len() == i,
                LeaderboardUser::list_error(items@, key, deny) == LeaderboardUser::list_error(items@.subrange(i as int, items@.len() as int), key, deny),
                forall|k: int| 0 <= k < i ==> (#[trigger] items@[k] matches Json::Object(m) && LeaderboardUser::reads_as(m@, out@[k])),
            decreases items@.len() - i,
        {
            let ghost rest = items@.subrange(i as int, items@.len() as int);
            assert(rest.drop_first() == items@.subrange(i + 1, items@.len() as int));
            assert(rest[0] == items@[i as int]);
            match &items[i] {
                Json::Object(m) => match LeaderboardUser::decode(m, deny) {
                    Ok(x) => out.push(x),
                    Err(e) => return Err(e),
                },
                _ => return Err(DecodeError::WrongShape(key)),
            }
            i = i + 1;
        }
        Ok(out)
    }

}

/// The period a leaderboard covers.
#[derive(Debug)]
pub struct DateRange {
    /// Start of the period.
    pub started_at: Timestamp,
    /// End of the period.
    pub ended_at: Timestamp,
}

impl DateRange {
    /// Whether `k` names a member that the record reads.
    pub open spec fn knows(k: Seq<char>) -> bool {
        k == "started_at"@
            || k == "ended_at"@
    }

    /// [`DateRange::knows`] as a predicate.
    pub open spec fn known() -> spec_fn(Seq<char>) -> bool {
        |k: Seq<char>| DateRange::knows(k)
    }

    fn is_known(k: &str) -> (r: bool)
        ensures
            r == DateRange::knows(k@),
    {
        str_eq(k, "started_at")
            || str_eq(k, "ended_at")
    }

    /// Finds the first member that the record does not read.
    pub fn unknown_member(o: &Vec<(String, Json)>) -> (r: Option<DecodeError>)
        ensures
            r == first_unknown(o@, DateRange::known()),
    {
        let mut i: usize = 0;
        assert(o@.subrange(0, o@.len() as int) == o@);
        while i < o.len()
            invariant
                i <= o@.len(),
                first_unknown(o@, DateRange::known()) == first_unknown(o@.subrange(i as int, o@.len() as int), DateRange::known()),
            decreases o@.len() - i,
        {
            let ghost rest = o@.subrange(i as int, o@.len() as int);
            assert(rest.drop_first() == o@.subrange(i + 1, o@.len() as int));
            if !DateRange::is_known(o[i].0.as_str()) {
                return Some(DecodeError::UnknownField(o[i].0.clone()));
            }
            i = i + 1;
        }
        None
    }

    /// The first error of `o`: a member the record does not read, when those are
    /// denied, then the first field, in declaration order, that cannot be read.
    pub open spec fn error(o: Seq<(String, Json)>, deny: bool) -> Option<DecodeError> {
        either(if deny { first_unknown(o, DateRange::known()) } else { None },
        either(err_of(timestamp_member(o, "started_at")),
        err_of(timestamp_member(o, "ended_at"))))
    }

    /// Whether every field of `x` is the value read from `o`.
    pub open spec fn reads_as(o: Seq<(String, Json)>, x: DateRange) -> bool {
        &&& x.started_at@ == timestamp_member(o, "started_at")->Ok_0
        &&& x.ended_at@ == timestamp_member(o, "ended_at")->Ok_0
    }

    /// Whether `r` is what decoding the members `o` yields.
    pub open spec fn decoded(o: Seq<(String, Json)>, deny: bool, r: Result<DateRange, DecodeError>) -> bool {
        match r {
            Ok(x) => DateRange::error(o, deny) is None && DateRange::reads_as(o, x),
            Err(e) => DateRange::error(o, deny) == Some(e),
        }
    }

    /// Decodes the record from the members of a JSON object; with `deny`, a
    /// member that the record does not read is an error.
    pub fn decode(o: &Vec<(String, Json)>, deny: bool) -> (r: Result<DateRange, DecodeError>)
        ensures
            DateRange::decoded(o@, deny, r),
    {
        if deny {
            if let Some(e) = DateRange::unknown_member(o) {
                return Err(e);
            }
        }
        let started_at = match read_timestamp(o, "started_at") {
            Ok(v) => v,
            Err(e) => return Err(e),
        };
        let ended_at = match read_timestamp(o, "ended_at") {
            Ok(v) => v,
            Err(e) => return Err(e),
        };
        Ok(DateRange { started_at, ended_at })
    }
}

/// A bits leaderboard.
#[derive(Debug)]
pub struct BitsLeaderboard {
    /// The ranked users.
    pub leaderboard: Vec<LeaderboardUser>,
    /// The period covered.
    pub date_range: DateRange,
    /// Number of users returned: the count asked for or the leaderboard's size, whichever is less.
    pub total: i64,
}

impl BitsLeaderboard {
    /// Whether `k` names a member that the record reads.
    pub open spec fn knows(k: Seq<char>) -> bool {
        k == "data"@
            || k == "date_range"@
            || k == "total"@
            || k == "pagination"@
    }

    /// [`BitsLeaderboard::knows`] as a predicate.
    pub open spec fn known() -> spec_fn(Seq<char>) -> bool {
        |k: Seq<char>| BitsLeaderboard::knows(k)
    }

    fn is_known(k: &str) -> (r: bool)
        ensures
            r == BitsLeaderboard::knows(k@),
    {
        str_eq(k, "data")
            || str_eq(k, "date_range")
            || str_eq(k, "total")
            || str_eq(k, "pagination")
    }

    /// Finds the first member that the record does not read.
    pub fn unknown_member(o: &Vec<(String, Json)>) -> (r: Option<DecodeError>)
        ensures
            r == first_unknown(o@, BitsLeaderboard::known()),
    {
        let mut i: usize = 0;
        assert(o@.subrange(0, o@.len() as int) == o@);
        while i < o.len()
            invariant
                i <= o@.len(),
                first_unknown(o@, BitsLeaderboard::known()) == first_unknown(o@.subrange(i as int, o@.len() as int), BitsLeaderboard::known()),
            decreases o@.len() - i,
        {
            let ghost rest = o@.subrange(i as int, o@.len() as int);
            assert(rest.drop_first() == o@.subrange(i + 1, o@.len() as int));
            if !BitsLeaderboard::is_known(o[i].0.as_str()) {
                return Some(DecodeError::UnknownField(o[i].0.clone()));
            }
            i = i + 1;
        }
        None
    }

    /// The first error of `o`: a member the record does not read, when those are
    /// denied, then the first field, in declaration order, that cannot be read.
    pub open spec fn error(o: Seq<(String, Json)>, deny: bool) -> Option<DecodeError> {
        either(if deny { first_unknown(o, BitsLeaderboard::known()) } else { None },
        either(match member(o, "data"@) { Some(Json::Array(items)) => LeaderboardUser::list_error(items@, "data", deny), Some(_) => Some(DecodeError::WrongShape("data")), None => Some(DecodeError::MissingField("data")) },
        either(match object_member(o, "date_range") { Ok(m) => DateRange::error(m, deny), Err(e) => Some(e) },
        err_of(int_member(o, "total")))))
    }

    /// Whether every field of `x` is the value read from `o`.
    pub open spec fn reads_as(o: Seq<(String, Json)>, x: BitsLeaderboard) -> bool {
        &&& (member(o, "data"@) matches Some(Json::Array(items)) && LeaderboardUser::list_reads_as(items@, x.leaderboard@))
        &&& DateRange::reads_as(object_member(o, "date_range")->Ok_0, x.date_range)
        &&& x.total == int_member(o, "total")->Ok_0
    }

    /// Whether `r` is what decoding the members `o` yields.
    pub open spec fn decoded(o: Seq<(String, Json)>, deny: bool, r: Result<BitsLeaderboard, DecodeError>) -> bool {
        match r {
            Ok(x) => BitsLeaderboard::error(o, deny) is None && BitsLeaderboard::reads_as(o, x),
            Err(e) => BitsLeaderboard::error(o, deny) == Some(e),
        }
    }

    /// Decodes the record from the members of a JSON object; with `deny`, a
    /// member that the record does not read is an error.
    pub fn decode(o: &Vec<(String, Json)>, deny: bool) -> (r: Result<BitsLeaderboard, DecodeError>)
        ensures
            BitsLeaderboard::decoded(o@, deny, r),
    {
        if deny {
            if let Some(e) = BitsLeaderboard::unknown_member(o) {
                return Err(e);
            }
        }
        let leaderboard = match get(o, "data") {
            Some(Json::Array(items)) => match LeaderboardUser::decode_list(items, "data", deny) {
                Ok(v) => v,
                Err(e) => return Err(e),
            },
            Some(_) => return Err(DecodeError::WrongShape("data")),
            None => return Err(DecodeError::MissingField("data")),
        };
        let date_range = match read_object(o, "date_range") {
            Ok(m) => match DateRange::decode(m, deny) {
                Ok(v) => v,
                Err(e) => return Err(e),
            },
            Err(e) => return Err(e),
        };
        let total = match read_int(o, "total") {
            Ok(v) => v,
            Err(e) => return Err(e),
        };
        Ok(BitsLeaderboard { leaderboard, date_range, total })
    }
}
/// Where the blocked user was met.
#[derive(Clone, Copy, Debug, PartialEq, Eq, Structural)]
pub enum SourceContext {
    /// Chat.
    Chat,
    /// Whispers.
    Whispher,
}

impl SourceContext {
    /// The value named by the wire text `s`, if any.
    pub open spec fn of_wire(s: Seq<char>) -> Option<SourceContext> {
        if s == "chat"@ {
            Some(SourceContext::Chat)
        } else if s == "whisper"@ {
            Some(SourceContext::Whispher)
        } else {
            None
        }
    }

    /// The wire text of the value.
    pub open spec fn wire(self) -> Seq<char> {
        match self {
            SourceContext::Chat => "chat"@,
            SourceContext::Whispher => "whisper"@,
        }
    }

    /// Reads a value from its wire text.
    pub fn from_wire(s: &str) -> (r: Option<SourceContext>)
        ensures
            r == SourceContext::of_wire(s@),
    {
        if str_eq(s, "chat") {
            Some(SourceContext::Chat)
        } else if str_eq(s, "whisper") {
            Some(SourceContext::Whispher)
        } else {
            None
        }
    }

    /// The wire text of the value.
    pub fn as_str(&self) -> (r: &'static str)
        ensures
            r@ == self.wire(),
    {
        match self {
            SourceContext::Chat => "chat",
            SourceContext::Whispher => "whisper",
        }
    }


    /// Reading the wire text of a value gives the value back.
    pub proof fn lemma_wire_round_trip(self)
        ensures
            SourceContext::of_wire(self.wire()) == Some(self),
    {
        reveal_strlit("chat");
        reveal_strlit("whisper");
        assert("chat"@.len() == 4);
        assert("whisper"@.len() == 7);
        match self {
            SourceContext::Chat => {},
            SourceContext::Whispher => {
                assert("whisper"@ != "chat"@);
            },
        }
    }
}

/// Why a user is blocked.
#[derive(Clone, Copy, Debug, PartialEq, Eq, Structural)]
pub enum Reason {
    /// Spam.
    Spam,
    /// Harassment.
    Harassment,
    /// Another reason.
    Other,
}

impl Reason {
    /// The value named by the wire text `s`, if any.
    pub open spec fn of_wire(s: Seq<char>) -> Option<Reason> {
        if s == "spam"@ {
            Some(Reason::Spam)
        } else if s == "harassment"@ {
            Some(Reason::Harassment)
        } else if s == "other"@ {
            Some(Reason::Other)
        } else {
            None
        }
    }

    /// The wire text of the value.
    pub open spec fn wire(self) -> Seq<char> {
        match self {
            Reason::Spam => "spam"@,
            Reason::Harassment => "harassment"@,
            Reason::Other => "other"@,
        }
    }

    /// Reads a value from its wire text.
    pub fn from_wire(s: &str) -> (r: Option<Reason>)
        ensures
            r == Reason::of_wire(s@),
    {
        if str_eq(s, "spam") {
            Some(Reason::Spam)
        } else if str_eq(s, "harassment") {
            Some(Reason::Harassment)
        } else if str_eq(s, "other") {
            Some(Reason::Other)
        } else {
            None
        }
    }

    /// The wire text of the value.
    pub fn as_str(&self) -> (r: &'static str)
        ensures
            r@ == self.wire(),
    {
        match self {
            Reason::Spam => "spam",
            Reason::Harassment => "harassment",
            Reason::Other => "other",
        }
    }


    /// Reading the wire text of a value gives the value back.
    pub proof fn lemma_wire_round_trip(self)
        ensures
            Reason::of_wire(self.wire()) == Some(self),
    {
        reveal_strlit("spam");
        reveal_strlit("harassment");
        reveal_strlit("other");
        assert("spam"@.len() == 4);
        assert("harassment"@.len() == 10);
        assert("other"@.len() == 5);
        match self {
            Reason::Spam => {},
            Reason::Harassment => {
                assert("harassment"@ != "spam"@);
            },
            Reason::Other => {
                assert("other"@ != "spam"@);
                assert("other"@ != "harassment"@);
            },
        }
    }
}

/// Body of End Poll.
#[derive(Debug)]
pub struct EndPollBody {
    /// The broadcaster running the poll; must match the token's user.
    pub broadcaster_id: String,
    /// The poll id.
    pub id: String,
    /// `TERMINATED` to end and keep visible, `ARCHIVED` to end and hide.
    pub status: PollStatus,
}

impl EndPollBody {
    /// Whether `k` names a member that the record reads.
    pub open spec fn knows(k: Seq<char>) -> bool {
        k == "broadcaster_id"@
            || k == "id"@
            || k == "status"@
    }

    /// [`EndPollBody::knows`] as a predicate.
    pub open spec fn known() -> spec_fn(Seq<char>) -> bool {
        |k: Seq<char>| EndPollBody::knows(k)
    }

    fn is_known(k: &str) -> (r: bool)
        ensures
            r == EndPollBody::knows(k@),
    {
        str_eq(k, "broadcaster_id")
            || str_eq(k, "id")
            || str_eq(k, "status")
    }

    /// Finds the first member that the record does not read.
    pub fn unknown_member(o: &Vec<(String, Json)>) -> (r: Option<DecodeError>)
        ensures
            r == first_unknown(o@, EndPollBody::known()),
    {
        let mut i: usize = 0;
        assert(o@.subrange(0, o@.len() as int) == o@);
        while i < o.len()
            invariant
                i <= o@.len(),
                first_unknown(o@, EndPollBody::known()) == first_unknown(o@.subrange(i as int, o@.len() as int), EndPollBody::known()),
            decreases o@.len() - i,
        {
            let ghost rest = o@.subrange(i as int, o@.len() as int);
            assert(rest.drop_first() == o@.subrange(i + 1, o@.len() as int));
            if !EndPollBody::is_known(o[i].0.as_str()) {
                return Some(DecodeError::UnknownField(o[i].0.clone()));
            }
            i = i + 1;
        }
        None
    }

    /// The first error of `o`: a member the record does not read, when those are
    /// denied, then the first field, in declaration order, that cannot be read.
    pub open spec fn error(o: Seq<(String, Json)>, deny: bool) -> Option<DecodeError> {
        either(if deny { first_unknown(o, EndPollBody::known()) } else { None },
        either(err_of(str_member(o, "broadcaster_id")),
        either(err_of(str_member(o, "id")),
        err_of(PollStatus::member(o, "status")))))
    }

    /// Whether every field of `x` is the value read from `o`.
    pub open spec fn reads_as(o: Seq<(String, Json)>, x: EndPollBody) -> bool {
        &&& x.broadcaster_id == str_member(o, "broadcaster_id")->Ok_0
        &&& x.id == str_member(o, "id")->Ok_0
        &&& x.status == PollStatus::member(o, "status")->Ok_0
    }

    /// Whether `r` is what decoding the members `o` yields.
    pub open spec fn decoded(o: Seq<(String, Json)>, deny: bool, r: Result<EndPollBody, DecodeError>) -> bool {
        match r {
            Ok(x) => EndPollBody::error(o, deny) is None && EndPollBody::reads_as(o, x),
            Err(e) => EndPollBody::error(o, deny) == Some(e),
        }
    }

    /// Decodes the record from the members of a JSON object; with `deny`, a
    /// member that the record does not read is an error.
    pub fn decode(o: &Vec<(String, Json)>, deny: bool) -> (r: Result<EndPollBody, DecodeError>)
        ensures
            EndPollBody::decoded(o@, deny, r),
    {
        if deny {
            if let Some(e) = EndPollBody::unknown_member(o) {
                return Err(e);
            }
        }
        let broadcaster_id = match read_str(o, "broadcaster_id") {
            Ok(v) => v,
            Err(e) => return Err(e),
        };
        let id = match read_str(o, "id") {
            Ok(v) => v,
            Err(e) => return Err(e),
        };
        let status = match PollStatus::read(o, "status") {
            Ok(v) => v,
            Err(e) => return Err(e),
        };
        Ok(EndPollBody { broadcaster_id, id, status })
    }

    /// Encodes the record as the members of a JSON object; decoding them, in
    /// either mode, gives the record back.
    pub fn to_members(&self) -> (r: Vec<(String, Json)>)
        ensures
            EndPollBody::decoded(r@, false, Ok(*self)),
            EndPollBody::decoded(r@, true, Ok(*self)),
    {
        let r = vec![
            (String::from_str("broadcaster_id"), Json::Str(self.broadcaster_id.clone())),
            (String::from_str("id"), Json::Str(self.id.clone())),
            (String::from_str("status"), Json::Str(String::from_str(self.status.as_str()))),
        ];
        proof {
            reveal_with_fuel(member, 4);
            reveal_with_fuel(first_unknown, 4);
            reveal_strlit("broadcaster_id");
            reveal_strlit("id");
            reveal_strlit("status");
            assert("broadcaster_id"@.len() == 14);
            assert("id"@.len() == 2);
            assert("status"@.len() == 6);
            assert("id"@ != "broadcaster_id"@);
            assert("status"@ != "broadcaster_id"@);
            assert("status"@ != "id"@);
            self.status.lemma_wire_round_trip();
        }
        r
    }
}

/// Body of End Prediction.
#[derive(Debug)]
pub struct EndPredictionBody {
    /// The broadcaster running the prediction; must match the token's user.
    pub broadcaster_id: String,
    /// The prediction id.
    pub id: String,
    /// `RESOLVED`, `CANCELED` or `LOCKED`.
    pub status: PredictionStatus,
    /// The winning outcome; required when resolving.
    pub winning_outcome_id: Option<String>,
}

impl EndPredictionBody {
    /// Whether `k` names a member that the record reads.
    pub open spec fn knows(k: Seq<char>) -> bool {
        k == "broadcaster_id"@
            || k == "id"@
            || k == "status"@
            || k == "winning_outcome_id"@
    }

    /// [`EndPredictionBody::knows`] as a predicate.
    pub open spec fn known() -> spec_fn(Seq<char>) -> bool {
        |k: Seq<char>| EndPredictionBody::knows(k)
    }

    fn is_known(k: &str) -> (r: bool)
        ensures
            r == EndPredictionBody::knows(k@),
    {
        str_eq(k, "broadcaster_id")
            || str_eq(k, "id")
            || str_eq(k, "status")
            || str_eq(k, "winning_outcome_id")
    }

    /// Finds the first member that the record does not read.
    pub fn unknown_member(o: &Vec<(String, Json)>) -> (r: Option<DecodeError>)
        ensures
            r == first_unknown(o@, EndPredictionBody::known()),
    {
        let mut i: usize = 0;
        assert(o@.subrange(0, o@.len() as int) == o@);
        while i < o.len()
            invariant
                i <= o@.len(),
                first_unknown(o@, EndPredictionBody::known()) == first_unknown(o@.subrange(i as int, o@.len() as int), EndPredictionBody::known()),
            decreases o@.len() - i,
        {
            let ghost rest = o@.subrange(i as int, o@.len() as int);
            assert(rest.drop_first() == o@.subrange(i + 1, o@.len() as int));
            if !EndPredictionBody::is_known(o[i].0.as_str()) {
                return Some(DecodeError::UnknownField(o[i].0.clone()));
            }
            i = i + 1;
        }
        None
    }

    /// The first error of `o`: a member the record does not read, when those are
    /// denied, then the first field, in declaration order, that cannot be read.
    pub open spec fn error(o: Seq<(String, Json)>, deny: bool) -> Option<DecodeError> {
        either(if deny { first_unknown(o, EndPredictionBody::known()) } else { None },
        either(err_of(str_member(o, "broadcaster_id")),
        either(err_of(str_member(o, "id")),
        either(err_of(PredictionStatus::member(o, "status")),
        err_of(opt_str_member(o, "winning_outcome_id"))))))
    }

    /// Whether every field of `x` is the value read from `o`.
    pub open spec fn reads_as(o: Seq<(String, Json)>, x: EndPredictionBody) -> bool {
        &&& x.broadcaster_id == str_member(o, "broadcaster_id")->Ok_0
        &&& x.id == str_member(o, "id")->Ok_0
        &&& x.status == PredictionStatus::member(o, "status")->Ok_0
        &&& x.winning_outcome_id == opt_str_member(o, "winning_outcome_id")->Ok_0
    }

    /// Whether `r` is what decoding the members `o` yields.
    pub open spec fn decoded(o: Seq<(String, Json)>, deny: bool, r: Result<EndPredictionBody, DecodeError>) -> bool {
        match r {
            Ok(x) => EndPredictionBody::error(o, deny) is None && EndPredictionBody::reads_as(o, x),
            Err(e) => EndPredictionBody::error(o, deny) == Some(e),
        }
    }

    /// Decodes the record from the members of a JSON object; with `deny`, a
    /// member that the record does not read is an error.
    pub fn decode(o: &Vec<(String, Json)>, deny: bool) -> (r: Result<EndPredictionBody, DecodeError>)
        ensures
            EndPredictionBody::decoded(o@, deny, r),
    {
        if deny {
            if let Some(e) = EndPredictionBody::unknown_member(o) {
                return Err(e);
            }
        }
        let broadcaster_id = match read_str(o, "broadcaster_id") {
            Ok(v) => v,
            Err(e) => return Err(e),
        };
        let id = match read_str(o, "id") {
            Ok(v) => v,
            Err(e) => return Err(e),
        };
        let status = match PredictionStatus::read(o, "status") {
            Ok(v) => v,
            Err(e) => return Err(e),
        };
        let winning_outcome_id = match read_opt_str(o, "winning_outcome_id") {
            Ok(v) => v,
            Err(e) => return Err(e),
        };
        Ok(EndPredictionBody { broadcaster_id, id, status, winning_outcome_id })
    }

    /// Encodes the record as the members of a JSON object; decoding them, in
    /// either mode, gives the record back.
    pub fn to_members(&self) -> (r: Vec<(String, Json)>)
        ensures
            EndPredictionBody::decoded(r@, false, Ok(*self)),
            EndPredictionBody::decoded(r@, true, Ok(*self)),
    {
        let r = vec![
            (String::from_str("broadcaster_id"), Json::Str(self.broadcaster_id.clone())),
            (String::from_str("id"), Json::Str(self.id.clone())),
            (String::from_str("status"), Json::Str(String::from_str(self.status.as_str()))),
            (String::from_str("winning_outcome_id"), opt_str_json(&self.winning_outcome_id)),
        ];
        proof {
            reveal_with_fuel(member, 5);
            reveal_with_fuel(first_unknown, 5);
            reveal_strlit("broadcaster_id");
            reveal_strlit("id");
            reveal_strlit("status");
            reveal_strlit("winning_outcome_id");
            assert("broadcaster_id"@.len() == 14);
            assert("id"@.len() == 2);
            assert("status"@.len() == 6);
            assert("winning_outcome_id"@.len() == 18);
            assert("id"@ != "broadcaster_id"@);
            assert("status"@ != "broadcaster_id"@);
            assert("status"@ != "id"@);
            assert("winning_outcome_id"@ != "broadcaster_id"@);
            assert("winning_outcome_id"@ != "id"@);
            assert("winning_outcome_id"@ != "status"@);
            self.status.lemma_wire_round_trip();
        }
        r
    }
}

/// The decoded outcome of a Helix call, with the pagination cursor and the
/// total when the body gives them.
#[derive(Debug)]
pub struct HelixResponse<D> {
    /// The operation's outcome.
    pub data: D,
    /// The cursor of the next page, when there is one.
    pub pagination: Option<String>,
    /// The total the body reports, when it reports one.
    pub total: Option<i64>,
}

/// Why a Helix response could not be turned into an outcome; each variant
/// keeps what is needed to diagnose it without repeating the request.
#[derive(Debug)]
#[allow(inconsistent_fields)]
pub enum HelixRequestError {
    /// The body is the server's error object.
    Error { error: String, status: i64, message: String, uri: String, response: String, http_status: u16 },
    /// The body is not JSON.
    BodySyntax { response: String, status: u16, uri: String },
    /// The body does not fit the outcome's schema.
    DeserializeError { response: String, error: DecodeError, status: u16, uri: String },
    /// The status is outside the operation's documented set, or the body lacks what the status promises.
    InvalidResponse { reason: &'static str, response: String, status: u16, uri: String },
}

/// Whether `r` is the invalid-response error with these parts.
pub open spec fn is_invalid_response<T>(
    r: Result<T, HelixRequestError>,
    reason: Seq<char>,
    body: Seq<char>,
    status: u16,
    uri: Seq<char>,
) -> bool {
    r matches Err(HelixRequestError::InvalidResponse { reason: rs, response, status: st, uri: u }) && rs@ == reason
        && response@ == body && st == status && u@ == uri
}

/// Whether `r` is the deserialize error with these parts.
pub open spec fn is_deserialize_error<T>(
    r: Result<T, HelixRequestError>,
    e: DecodeError,
    body: Seq<char>,
    status: u16,
    uri: Seq<char>,
) -> bool {
    r matches Err(HelixRequestError::DeserializeError { response, error, status: st, uri: u }) && error == e
        && response@ == body && st == status && u@ == uri
}

/// Whether `r` is the body-syntax error with these parts.
pub open spec fn is_body_syntax<T>(r: Result<T, HelixRequestError>, body: Seq<char>, status: u16, uri: Seq<char>) -> bool {
    r matches Err(HelixRequestError::BodySyntax { response, status: st, uri: u }) && response@ == body && st == status
        && u@ == uri
}

fn invalid_response(reason: &'static str, body: &str, status: u16, uri: &str) -> (r: HelixRequestError)
    ensures
        is_invalid_response(Err::<(), HelixRequestError>(r), reason@, body@, status, uri@),
{
    HelixRequestError::InvalidResponse {
        reason,
        response: String::from_str(body),
        status,
        uri: String::from_str(uri),
    }
}

fn deserialize_error(e: DecodeError, body: &str, status: u16, uri: &str) -> (r: HelixRequestError)
    ensures
        is_deserialize_error(Err::<(), HelixRequestError>(r), e, body@, status, uri@),
{
    HelixRequestError::DeserializeError {
        response: String::from_str(body),
        error: e,
        status,
        uri: String::from_str(uri),
    }
}

fn body_syntax(body: &str, status: u16, uri: &str) -> (r: HelixRequestError)
    ensures
        is_body_syntax(Err::<(), HelixRequestError>(r), body@, status, uri@),
{
    HelixRequestError::BodySyntax { response: String::from_str(body), status, uri: String::from_str(uri) }
}

/// The members of the server's error object `{"error", "status", "message"}`, when the body is one.
pub open spec fn error_object(body: Seq<char>) -> Option<Seq<(String, Json)>> {
    match json_of_text(body) {
        Some(Json::Object(o)) => if str_member(o@, "error") is Ok && int_member(o@, "status") is Ok && str_member(
            o@,
            "message",
        ) is Ok {
            Some(o@)
        } else {
            None
        },
        _ => None,
    }
}

/// Whether `r` is the error that the error object `o` describes, with the
/// raw body, the HTTP status and the URI it came with.
pub open spec fn is_server_error<T>(
    r: Result<T, HelixRequestError>,
    o: Seq<(String, Json)>,
    body: Seq<char>,
    http_status: u16,
    uri: Seq<char>,
) -> bool {
    r matches Err(HelixRequestError::Error { error, status, message, uri: u, response, http_status: hs })
        && error == str_member(o, "error")->Ok_0 && status == int_member(o, "status")->Ok_0
        && message == str_member(o, "message")->Ok_0 && u@ == uri && response@ == body && hs == http_status
}

/// Reads the server's error object from a body, if the body is one.
pub fn error_from_body(body: &str, http_status: u16, uri: &str) -> (r: Option<HelixRequestError>)
    ensures
        match error_object(body@) {
            None => r is None,
            Some(o) => r is Some && is_server_error(Err::<(), HelixRequestError>(r->Some_0), o, body@, http_status, uri@),
        },
{
    match parse_json(body) {
        Some(Json::Object(o)) => {
            let error = match read_str(&o, "error") {
                Ok(v) => v,
                Err(_) => return None,
            };
            let status = match read_int(&o, "status") {
                Ok(v) => v,
                Err(_) => return None,
            };
            let message = match read_str(&o, "message") {
                Ok(v) => v,
                Err(_) => return None,
            };
            Some(
                HelixRequestError::Error {
                    error,
                    status,
                    message,
                    uri: String::from_str(uri),
                    response: String::from_str(body),
                    http_status,
                },
            )
        },
        _ => None,
    }
}

/// The pagination cursor of a listing body: `pagination.cursor`, when it is a non-empty string.
pub open spec fn cursor_member(o: Seq<(String, Json)>) -> Option<String> {
    match member(o, "pagination"@) {
        Some(Json::Object(p)) => match member(p@, "cursor"@) {
            Some(Json::Str(c)) => if c@.len() > 0 { Some(c) } else { None },
            _ => None,
        },
        _ => None,
    }
}

/// Reads the pagination cursor of a listing body.
pub fn read_cursor(o: &Vec<(String, Json)>) -> (r: Option<String>)
    ensures
        r == cursor_member(o@),
{
    match get(o, "pagination") {
        Some(Json::Object(p)) => match get(p, "cursor") {
            Some(Json::Str(c)) => if c.as_str().unicode_len() > 0 {
                Some(c.clone())
            } else {
                None
            },
            _ => None,
        },
        _ => None,
    }
}

/// Query of Remove Channel VIP.
#[derive(Debug)]
pub struct RemoveChannelVipRequest {
    /// The broadcaster whose VIP is removed.
    pub broadcaster_id: String,
    /// The user removed as VIP.
    pub user_id: String,
}

/// Outcome of query of remove channel vip.
#[derive(Clone, Copy, Debug, PartialEq, Eq, Structural)]
pub enum RemoveChannelVipResponse {
    /// 204: done.
    Success,
}

impl RemoveChannelVipRequest {
    /// Removes `user_id` as VIP of `broadcaster_id`.
    pub fn new(broadcaster_id: String, user_id: String) -> (r: RemoveChannelVipRequest)
        ensures
            r.broadcaster_id == broadcaster_id,
            r.user_id == user_id,
    {
        RemoveChannelVipRequest { broadcaster_id, user_id }
    }

    /// The endpoint's path under the Helix root.
    pub fn path() -> (r: &'static str)
        ensures
            r@ == "channels/vips"@,
    {
        "channels/vips"
    }

    /// The scope the token must hold.
    pub fn scope() -> (r: &'static str)
        ensures
            r@ == "channel:manage:vips"@,
    {
        "channel:manage:vips"
    }

    /// Interprets a response by its status alone: 204 is success, without
    /// reading the body; any other status is an invalid response.
    pub fn parse_inner_response(status: u16, response: &str, uri: &str) -> (r: Result<HelixResponse<RemoveChannelVipResponse>, HelixRequestError>)
        ensures
            status == 204 ==> (r matches Ok(x) && x.data == RemoveChannelVipResponse::Success && x.pagination is None && x.total is None),
            status != 204 ==> is_invalid_response(r, "unexpected status"@, response@, status, uri@),
    {
        if status == 204 {
            Ok(HelixResponse { data: RemoveChannelVipResponse::Success, pagination: None, total: None })
        } else {
            Err(invalid_response("unexpected status", response, status, uri))
        }
    }

    /// Interprets a response: a body that is the server's error object is
    /// that error; otherwise as [`RemoveChannelVipRequest::parse_inner_response`].
    pub fn parse_response(status: u16, response: &str, uri: &str) -> (r: Result<HelixResponse<RemoveChannelVipResponse>, HelixRequestError>)
        ensures
            match error_object(response@) {
                Some(o) => is_server_error(r, o, response@, status, uri@),
                None => status == 204 ==> (r matches Ok(x) && x.data == RemoveChannelVipResponse::Success),
            },
            error_object(response@) is None && status != 204 ==> is_invalid_response(r, "unexpected status"@, response@, status, uri@),
    {
        match error_from_body(response, status, uri) {
            Some(e) => Err(e),
            None => RemoveChannelVipRequest::parse_inner_response(status, response, uri),
        }
    }
}

/// Query of Remove Blocked Term.
#[derive(Debug)]
pub struct RemoveBlockedTermRequest {
    /// The broadcaster that owns the term list.
    pub broadcaster_id: String,
    /// The moderator acting; must match the token's user.
    pub moderator_id: String,
    /// The term to remove.
    pub id: String,
}

/// Outcome of query of remove blocked term.
#[derive(Clone, Copy, Debug, PartialEq, Eq, Structural)]
pub enum RemoveBlockedTerm {
    /// 204: done.
    Success,
}

impl RemoveBlockedTermRequest {
    /// Removes the blocked term `id`.
    pub fn new(broadcaster_id: String, moderator_id: String, id: String) -> (r: RemoveBlockedTermRequest)
        ensures
            r.broadcaster_id == broadcaster_id,
            r.moderator_id == moderator_id,
            r.id == id,
    {
        RemoveBlockedTermRequest { broadcaster_id, moderator_id, id }
    }

    /// The endpoint's path under the Helix root.
    pub fn path() -> (r: &'static str)
        ensures
            r@ == "moderation/blocked_terms"@,
    {
        "moderation/blocked_terms"
    }

    /// The scope the token must hold.
    pub fn scope() -> (r: &'static str)
        ensures
            r@ == "moderator:manage:blocked_terms"@,
    {
        "moderator:manage:blocked_terms"
    }

    /// Interprets a response by its status alone: 204 is success, without
    /// reading the body; any other status is an invalid response.
    pub fn parse_inner_response(status: u16, response: &str, uri: &str) -> (r: Result<HelixResponse<RemoveBlockedTerm>, HelixRequestError>)
        ensures
            status == 204 ==> (r matches Ok(x) && x.data == RemoveBlockedTerm::Success && x.pagination is None && x.total is None),
            status != 204 ==> is_invalid_response(r, "unexpected status"@, response@, status, uri@),
    {
        if status == 204 {
            Ok(HelixResponse { data: RemoveBlockedTerm::Success, pagination: None, total: None })
        } else {
            Err(invalid_response("unexpected status", response, status, uri))
        }
    }

    /// Interprets a response: a body that is the server's error object is
    /// that error; otherwise as [`RemoveBlockedTermRequest::parse_inner_response`].
    pub fn parse_response(status: u16, response: &str, uri: &str) -> (r: Result<HelixResponse<RemoveBlockedTerm>, HelixRequestError>)
        ensures
            match error_object(response@) {
                Some(o) => is_server_error(r, o, response@, status, uri@),
                None => status == 204 ==> (r matches Ok(x) && x.data == RemoveBlockedTerm::Success),
            },
            error_object(response@) is None && status != 204 ==> is_invalid_response(r, "unexpected status"@, response@, status, uri@),
    {
        match error_from_body(response, status, uri) {
            Some(e) => Err(e),
            None => RemoveBlockedTermRequest::parse_inner_response(status, response, uri),
        }
    }
}

/// Query of Unban User.
#[derive(Debug)]
pub struct UnbanUserRequest {
    /// The broadcaster whose chat the user is banned from.
    pub broadcaster_id: String,
    /// The moderator acting; must match the token's user.
    pub moderator_id: String,
    /// The user to unban.
    pub user_id: String,
}

/// Outcome of query of unban user.
#[derive(Clone, Copy, Debug, PartialEq, Eq, Structural)]
pub enum UnbanUserResponse {
    /// 204: done.
    Success,
}

impl UnbanUserRequest {
    /// Lifts the ban or timeout of `user_id`.
    pub fn new(broadcaster_id: String, moderator_id: String, user_id: String) -> (r: UnbanUserRequest)
        ensures
            r.broadcaster_id == broadcaster_id,
            r.moderator_id == moderator_id,
            r.user_id == user_id,
    {
        UnbanUserRequest { broadcaster_id, moderator_id, user_id }
    }

    /// The endpoint's path under the Helix root.
    pub fn path() -> (r: &'static str)
        ensures
            r@ == "moderation/bans"@,
    {
        "moderation/bans"
    }

    /// The scope the token must hold.
    pub fn scope() -> (r: &'static str)
        ensures
            r@ == "moderator:manage:banned_users"@,
    {
        "moderator:manage:banned_users"
    }

    /// Interprets a response by its status alone: 204 is success, without
    /// reading the body; any other status is an invalid response.
    pub fn parse_inner_response(status: u16, response: &str, uri: &str) -> (r: Result<HelixResponse<UnbanUserResponse>, HelixRequestError>)
        ensures
            status == 204 ==> (r matches Ok(x) && x.data == UnbanUserResponse::Success && x.pagination is None && x.total is None),
            status != 204 ==> is_invalid_response(r, "unexpected status"@, response@, status, uri@),
    {
        if status == 204 {
            Ok(HelixResponse { data: UnbanUserResponse::Success, pagination: None, total: None })
        } else {
            Err(invalid_response("unexpected status", response, status, uri))
        }
    }

    /// Interprets a response: a body that is the server's error object is
    /// that error; otherwise as [`UnbanUserRequest::parse_inner_response`].
    pub fn parse_response(status: u16, response: &str, uri: &str) -> (r: Result<HelixResponse<UnbanUserResponse>, HelixRequestError>)
        ensures
            match error_object(response@) {
                Some(o) => is_server_error(r, o, response@, status, uri@),
                None => status == 204 ==> (r matches Ok(x) && x.data == UnbanUserResponse::Success),
            },
            error_object(response@) is None && status != 204 ==> is_invalid_response(r, "unexpected status"@, response@, status, uri@),
    {
        match error_from_body(response, status, uri) {
            Some(e) => Err(e),
            None => UnbanUserRequest::parse_inner_response(status, response, uri),
        }
    }
}

/// Query of Block User.
#[derive(Debug)]
pub struct BlockUserRequest {
    /// The user to block.
    pub target_user_id: String,
    /// Where the user was met.
    pub source_context: Option<SourceContext>,
    /// Why the user is blocked.
    pub reason: Option<Reason>,
}

/// Outcome of query of block user.
#[derive(Clone, Copy, Debug, PartialEq, Eq, Structural)]
pub enum BlockUser {
    /// 204: done.
    Success,
}

impl BlockUserRequest {
    /// Blocks `target_user_id`, with no context and no reason.
    pub fn block_user(target_user_id: String) -> (r: BlockUserRequest)
        ensures
            r.target_user_id == target_user_id,
            r.source_context is None,
            r.reason is None,
    {
        BlockUserRequest { target_user_id, source_context: None, reason: None }
    }

    /// Sets where the user was met.
    pub fn source_context(self, source_context: SourceContext) -> (r: BlockUserRequest)
        ensures
            r.target_user_id == self.target_user_id,
            r.source_context == Some(source_context),
            r.reason == self.reason,
    {
        BlockUserRequest { source_context: Some(source_context), ..self }
    }

    /// Sets why the user is blocked.
    pub fn reason(self, reason: Reason) -> (r: BlockUserRequest)
        ensures
            r.target_user_id == self.target_user_id,
            r.source_context == self.source_context,
            r.reason == Some(reason),
    {
        BlockUserRequest { reason: Some(reason), ..self }
    }

    /// The endpoint's path under the Helix root.
    pub fn path() -> (r: &'static str)
        ensures
            r@ == "users/blocks"@,
    {
        "users/blocks"
    }

    /// The scope the token must hold.
    pub fn scope() -> (r: &'static str)
        ensures
            r@ == "user:manage:blocked_users"@,
    {
        "user:manage:blocked_users"
    }

    /// Interprets a response by its status alone: 204 is success, without
    /// reading the body; any other status is an invalid response.
    pub fn parse_inner_response(status: u16, response: &str, uri: &str) -> (r: Result<HelixResponse<BlockUser>, HelixRequestError>)
        ensures
            status == 204 ==> (r matches Ok(x) && x.data == BlockUser::Success && x.pagination is None && x.total is None),
            status != 204 ==> is_invalid_response(r, "unexpected status"@, response@, status, uri@),
    {
        if status == 204 {
            Ok(HelixResponse { data: BlockUser::Success, pagination: None, total: None })
        } else {
            Err(invalid_response("unexpected status", response, status, uri))
        }
    }

    /// Interprets a response: a body that is the server's error object is
    /// that error; otherwise as [`BlockUserRequest::parse_inner_response`].
    pub fn parse_response(status: u16, response: &str, uri: &str) -> (r: Result<HelixResponse<BlockUser>, HelixRequestError>)
        ensures
            match error_object(response@) {
                Some(o) => is_server_error(r, o, response@, status, uri@),
                None => status == 204 ==> (r matches Ok(x) && x.data == BlockUser::Success),
            },
            error_object(response@) is None && status != 204 ==> is_invalid_response(r, "unexpected status"@, response@, status, uri@),
    {
        match error_from_body(response, status, uri) {
            Some(e) => Err(e),
            None => BlockUserRequest::parse_inner_response(status, response, uri),
        }
    }
}

/// Query of End Poll; the poll to end travels in the body.
#[derive(Clone, Copy, Debug, PartialEq, Eq, Structural)]
pub struct EndPollRequest {}

/// Outcome of End Poll.
#[derive(Debug)]
pub enum EndPoll {
    /// 200: the poll ended.
    Success(Poll),
    /// 400: a query or body parameter is missing or invalid.
    MissingQuery,
    /// 401: the token is missing or invalid.
    AuthFailed,
}

/// Whether `r` is what a 200 response with the body `body` yields: the first
/// record of the `data` array; with `deny`, a member that a record does not
/// read is an error.
pub open spec fn poll_success_decoded(
    body: Seq<char>,
    uri: Seq<char>,
    deny: bool,
    r: Result<HelixResponse<EndPoll>, HelixRequestError>,
) -> bool {
    match json_of_text(body) {
        None => is_body_syntax(r, body, 200, uri),
        Some(Json::Object(o)) => match member(o@, "data"@) {
            Some(Json::Array(items)) => match Poll::list_error(items@, "data", deny) {
                Some(e) => is_deserialize_error(r, e, body, 200, uri),
                None => if items@.len() == 0 {
                    is_invalid_response(r, "expected at least one element in data"@, body, 200, uri)
                } else {
                    r matches Ok(x) && x.data matches EndPoll::Success(p) && items@[0] matches Json::Object(m)
                        && Poll::reads_as(m@, p) && x.pagination is None && x.total is None
                },
            },
            Some(_) => is_deserialize_error(r, DecodeError::WrongShape("data"), body, 200, uri),
            None => is_deserialize_error(r, DecodeError::MissingField("data"), body, 200, uri),
        },
        Some(_) => is_deserialize_error(r, DecodeError::NotObject, body, 200, uri),
    }
}

/// Whether `r` is what a response with `status` and the body `body` yields,
/// the body not being the server's error object.
pub open spec fn poll_outcome(
    status: u16,
    body: Seq<char>,
    uri: Seq<char>,
    deny: bool,
    r: Result<HelixResponse<EndPoll>, HelixRequestError>,
) -> bool {
    &&& status == 200 ==> poll_success_decoded(body, uri, deny, r)
    &&& status == 400 ==> (r matches Ok(x) && x.data is MissingQuery && x.pagination is None && x.total is None)
    &&& status == 401 ==> (r matches Ok(x) && x.data is AuthFailed && x.pagination is None && x.total is None)
    &&& status != 200 && status != 400 && status != 401 ==> is_invalid_response(
        r,
        "unexpected status code"@,
        body,
        status,
        uri,
    )
}

/// Whether `r` is what a response with `status` and the body `body` yields:
/// a body that is the server's error object is that error, whatever the status.
pub open spec fn poll_response(
    status: u16,
    body: Seq<char>,
    uri: Seq<char>,
    deny: bool,
    r: Result<HelixResponse<EndPoll>, HelixRequestError>,
) -> bool {
    match error_object(body) {
        Some(o) => is_server_error(r, o, body, status, uri),
        None => poll_outcome(status, body, uri, deny, r),
    }
}

impl EndPollRequest {
    /// Makes the query.
    pub fn new() -> (r: EndPollRequest) {
        EndPollRequest {}
    }

    /// The endpoint's path under the Helix root.
    pub fn path() -> (r: &'static str)
        ensures
            r@ == "polls"@,
    {
        "polls"
    }

    /// The scope the token must hold.
    pub fn scope() -> (r: &'static str)
        ensures
            r@ == "channel:manage:polls"@,
    {
        "channel:manage:polls"
    }

    fn decode_success(response: &str, uri: &str, deny: bool) -> (r: Result<HelixResponse<EndPoll>, HelixRequestError>)
        ensures
            poll_success_decoded(response@, uri@, deny, r),
    {
        let o = match parse_json(response) {
            None => return Err(body_syntax(response, 200, uri)),
            Some(Json::Object(o)) => o,
            Some(_) => return Err(deserialize_error(DecodeError::NotObject, response, 200, uri)),
        };
        let mut all = match get(&o, "data") {
            Some(Json::Array(items)) => match Poll::decode_list(items, "data", deny) {
                Ok(v) => v,
                Err(e) => return Err(deserialize_error(e, response, 200, uri)),
            },
            Some(_) => return Err(deserialize_error(DecodeError::WrongShape("data"), response, 200, uri)),
            None => return Err(deserialize_error(DecodeError::MissingField("data"), response, 200, uri)),
        };
        if all.len() == 0 {
            return Err(invalid_response("expected at least one element in data", response, 200, uri));
        }
        let first = all.remove(0);
        Ok(HelixResponse { data: EndPoll::Success(first), pagination: None, total: None })
    }

    /// Interprets a response by its status, ignoring members that a record
    /// does not read; see [`poll_outcome`].
    pub fn parse_inner_response(status: u16, response: &str, uri: &str) -> (r: Result<HelixResponse<EndPoll>, HelixRequestError>)
        ensures
            poll_outcome(status, response@, uri@, false, r),
    {
        EndPollRequest::parse_inner_response_with(status, response, uri, false)
    }

    /// Interprets a response by its status: 200 decodes the body, 400 and 401
    /// are their outcomes without reading the body, and any other status is an
    /// invalid response.
    pub fn parse_inner_response_with(status: u16, response: &str, uri: &str, deny: bool) -> (r: Result<HelixResponse<EndPoll>, HelixRequestError>)
        ensures
            poll_outcome(status, response@, uri@, deny, r),
    {
        if status == 200 {
            EndPollRequest::decode_success(response, uri, deny)
        } else if status == 400 {
            Ok(HelixResponse { data: EndPoll::MissingQuery, pagination: None, total: None })
        } else if status == 401 {
            Ok(HelixResponse { data: EndPoll::AuthFailed, pagination: None, total: None })
        } else {
            Err(invalid_response("unexpected status code", response, status, uri))
        }
    }

    /// Interprets a response, ignoring members that a record does not read.
    pub fn parse_response(status: u16, response: &str, uri: &str) -> (r: Result<HelixResponse<EndPoll>, HelixRequestError>)
        ensures
            poll_response(status, response@, uri@, false, r),
    {
        EndPollRequest::parse_response_with(status, response, uri, false)
    }

    /// Interprets a response; a member that a record does not read is an error.
    pub fn parse_response_strict(status: u16, response: &str, uri: &str) -> (r: Result<HelixResponse<EndPoll>, HelixRequestError>)
        ensures
            poll_response(status, response@, uri@, true, r),
    {
        EndPollRequest::parse_response_with(status, response, uri, true)
    }

    /// Interprets a response: a body that is the server's error object is
    /// that error; otherwise as [`EndPollRequest::parse_inner_response_with`].
    pub fn parse_response_with(status: u16, response: &str, uri: &str, deny: bool) -> (r: Result<HelixResponse<EndPoll>, HelixRequestError>)
        ensures
            poll_response(status, response@, uri@, deny, r),
    {
        match error_from_body(response, status, uri) {
            Some(e) => Err(e),
            None => EndPollRequest::parse_inner_response_with(status, response, uri, deny),
        }
    }
}

/// Query of End Prediction; the prediction to end travels in the body.
#[derive(Clone, Copy, Debug, PartialEq, Eq, Structural)]
pub struct EndPredictionRequest {}

/// Outcome of End Prediction.
#[derive(Debug)]
pub enum EndPrediction {
    /// 200: the prediction ended.
    Success(Prediction),
    /// 400: a query or body parameter is missing or invalid.
    MissingQuery,
    /// 401: the token is missing or invalid.
    AuthFailed,
}

/// Whether `r` is what a 200 response with the body `body` yields: the first
/// record of the `data` array; with `deny`, a member that a record does not
/// read is an error.
pub open spec fn prediction_success_decoded(
    body: Seq<char>,
    uri: Seq<char>,
    deny: bool,
    r: Result<HelixResponse<EndPrediction>, HelixRequestError>,
) -> bool {
    match json_of_text(body) {
        None => is_body_syntax(r, body, 200, uri),
        Some(Json::Object(o)) => match member(o@, "data"@) {
            Some(Json::Array(items)) => match Prediction::list_error(items@, "data", deny) {
                Some(e) => is_deserialize_error(r, e, body, 200, uri),
                None => if items@.len() == 0 {
                    is_invalid_response(r, "expected at least one element in data"@, body, 200, uri)
                } else {
                    r matches Ok(x) && x.data matches EndPrediction::Success(p) && items@[0] matches Json::Object(m)
                        && Prediction::reads_as(m@, p) && x.pagination is None && x.total is None
                },
            },
            Some(_) => is_deserialize_error(r, DecodeError::WrongShape("data"), body, 200, uri),
            None => is_deserialize_error(r, DecodeError::MissingField("data"), body, 200, uri),
        },
        Some(_) => is_deserialize_error(r, DecodeError::NotObject, body, 200, uri),
    }
}

/// Whether `r` is what a response with `status` and the body `body` yields,
/// the body not being the server's error object.
pub open spec fn prediction_outcome(
    status: u16,
    body: Seq<char>,
    uri: Seq<char>,
    deny: bool,
    r: Result<HelixResponse<EndPrediction>, HelixRequestError>,
) -> bool {
    &&& status == 200 ==> prediction_success_decoded(body, uri, deny, r)
    &&& status == 400 ==> (r matches Ok(x) && x.data is MissingQuery && x.pagination is None && x.total is None)
    &&& status == 401 ==> (r matches Ok(x) && x.data is AuthFailed && x.pagination is None && x.total is None)
    &&& status != 200 && status != 400 && status != 401 ==> is_invalid_response(
        r,
        "unexpected status code"@,
        body,
        status,
        uri,
    )
}

/// Whether `r` is what a response with `status` and the body `body` yields:
/// a body that is the server's error object is that error, whatever the status.
pub open spec fn prediction_response(
    status: u16,
    body: Seq<char>,
    uri: Seq<char>,
    deny: bool,
    r: Result<HelixResponse<EndPrediction>, HelixRequestError>,
) -> bool {
    match error_object(body) {
        Some(o) => is_server_error(r, o, body, status, uri),
        None => prediction_outcome(status, body, uri, deny, r),
    }
}

impl EndPredictionRequest {
    /// Makes the query.
    pub fn new() -> (r: EndPredictionRequest) {
        EndPredictionRequest {}
    }

    /// The endpoint's path under the Helix root.
    pub fn path() -> (r: &'static str)
        ensures
            r@ == "predictions"@,
    {
        "predictions"
    }

    /// The scope the token must hold.
    pub fn scope() -> (r: &'static str)
        ensures
            r@ == "channel:manage:predictions"@,
    {
        "channel:manage:predictions"
    }

    fn decode_success(response: &str, uri: &str, deny: bool) -> (r: Result<HelixResponse<EndPrediction>, HelixRequestError>)
        ensures
            prediction_success_decoded(response@, uri@, deny, r),
    {
        let o = match parse_json(response) {
            None => return Err(body_syntax(response, 200, uri)),
            Some(Json::Object(o)) => o,
            Some(_) => return Err(deserialize_error(DecodeError::NotObject, response, 200, uri)),
        };
        let mut all = match get(&o, "data") {
            Some(Json::Array(items)) => match Prediction::decode_list(items, "data", deny) {
                Ok(v) => v,
                Err(e) => return Err(deserialize_error(e, response, 200, uri)),
            },
            Some(_) => return Err(deserialize_error(DecodeError::WrongShape("data"), response, 200, uri)),
            None => return Err(deserialize_error(DecodeError::MissingField("data"), response, 200, uri)),
        };
        if all.len() == 0 {
            return Err(invalid_response("expected at least one element in data", response, 200, uri));
        }
        let first = all.remove(0);
        Ok(HelixResponse { data: EndPrediction::Success(first), pagination: None, total: None })
    }

    /// Interprets a response by its status, ignoring members that a record
    /// does not read; see [`prediction_outcome`].
    pub fn parse_inner_response(status: u16, response: &str, uri: &str) -> (r: Result<HelixResponse<EndPrediction>, HelixRequestError>)
        ensures
            prediction_outcome(status, response@, uri@, false, r),
    {
        EndPredictionRequest::parse_inner_response_with(status, response, uri, false)
    }

    /// Interprets a response by its status: 200 decodes the body, 400 and 401
    /// are their outcomes without reading the body, and any other status is an
    /// invalid response.
    pub fn parse_inner_response_with(status: u16, response: &str, uri: &str, deny: bool) -> (r: Result<HelixResponse<EndPrediction>, HelixRequestError>)
        ensures
            prediction_outcome(status, response@, uri@, deny, r),
    {
        if status == 200 {
            EndPredictionRequest::decode_success(response, uri, deny)
        } else if status == 400 {
            Ok(HelixResponse { data: EndPrediction::MissingQuery, pagination: None, total: None })
        } else if status == 401 {
            Ok(HelixResponse { data: EndPrediction::AuthFailed, pagination: None, total: None })
        } else {
            Err(invalid_response("unexpected status code", response, status, uri))
        }
    }

    /// Interprets a response, ignoring members that a record does not read.
    pub fn parse_response(status: u16, response: &str, uri: &str) -> (r: Result<HelixResponse<EndPrediction>, HelixRequestError>)
        ensures
            prediction_response(status, response@, uri@, false, r),
    {
        EndPredictionRequest::parse_response_with(status, response, uri, false)
    }

    /// Interprets a response; a member that a record does not read is an error.
    pub fn parse_response_strict(status: u16, response: &str, uri: &str) -> (r: Result<HelixResponse<EndPrediction>, HelixRequestError>)
        ensures
            prediction_response(status, response@, uri@, true, r),
    {
        EndPredictionRequest::parse_response_with(status, response, uri, true)
    }

    /// Interprets a response: a body that is the server's error object is
    /// that error; otherwise as [`EndPredictionRequest::parse_inner_response_with`].
    pub fn parse_response_with(status: u16, response: &str, uri: &str, deny: bool) -> (r: Result<HelixResponse<EndPrediction>, HelixRequestError>)
        ensures
            prediction_response(status, response@, uri@, deny, r),
    {
        match error_from_body(response, status, uri) {
            Some(e) => Err(e),
            None => EndPredictionRequest::parse_inner_response_with(status, response, uri, deny),
        }
    }
}

impl EndPollBody {
    /// Ends the poll `id` of `broadcaster_id` with `status`.
    pub fn new(broadcaster_id: String, id: String, status: PollStatus) -> (r: EndPollBody)
        ensures
            r.broadcaster_id == broadcaster_id,
            r.id == id,
            r.status == status,
    {
        EndPollBody { broadcaster_id, id, status }
    }
}

impl EndPredictionBody {
    /// Ends the prediction `id` of `broadcaster_id` with `status`, with no winning outcome yet.
    pub fn new(broadcaster_id: String, id: String, status: PredictionStatus) -> (r: EndPredictionBody)
        ensures
            r.broadcaster_id == broadcaster_id,
            r.id == id,
            r.status == status,
            r.winning_outcome_id is None,
    {
        EndPredictionBody { broadcaster_id, id, status, winning_outcome_id: None }
    }

    /// Sets the winning outcome; required when resolving.
    pub fn winning_outcome_id(self, winning_outcome_id: String) -> (r: EndPredictionBody)
        ensures
            r.broadcaster_id == self.broadcaster_id,
            r.id == self.id,
            r.status == self.status,
            r.winning_outcome_id == Some(winning_outcome_id),
    {
        EndPredictionBody { winning_outcome_id: Some(winning_outcome_id), ..self }
    }
}

/// Query of Get Bits Leaderboard.
#[derive(Debug)]
pub struct GetBitsLeaderboardRequest {
    /// Number of results: at most 100, 10 when absent.
    pub count: Option<i32>,
    /// `day`, `week`, `month`, `year` or `all` (the default).
    pub period: Option<String>,
    /// Start of the period; ignored for `all`.
    pub started_at: Option<Timestamp>,
    /// A user whose rank is wanted.
    pub user_id: Option<String>,
}

/// Whether `r` is what a 2xx response with `status` and the leaderboard body
/// `body` yields; with `deny`, a member that a record does not read is an error.
pub open spec fn leaderboard_decoded(
    body: Seq<char>,
    status: u16,
    uri: Seq<char>,
    deny: bool,
    r: Result<HelixResponse<BitsLeaderboard>, HelixRequestError>,
) -> bool {
    match json_of_text(body) {
        None => is_body_syntax(r, body, status, uri),
        Some(Json::Object(o)) => match BitsLeaderboard::error(o@, deny) {
            Some(e) => is_deserialize_error(r, e, body, status, uri),
            None => r matches Ok(x) && BitsLeaderboard::reads_as(o@, x.data) && x.total == Some(x.data.total)
                && x.pagination == cursor_member(o@),
        },
        Some(_) => is_deserialize_error(r, DecodeError::NotObject, body, status, uri),
    }
}

/// Whether `r` is what a response with `status` and the body `body` yields,
/// the body not being the server's error object: a 2xx status decodes the
/// body, any other status is an invalid response.
pub open spec fn leaderboard_outcome(
    status: u16,
    body: Seq<char>,
    uri: Seq<char>,
    deny: bool,
    r: Result<HelixResponse<BitsLeaderboard>, HelixRequestError>,
) -> bool {
    &&& 200 <= status <= 299 ==> leaderboard_decoded(body, status, uri, deny, r)
    &&& !(200 <= status <= 299) ==> is_invalid_response(r, "unexpected status"@, body, status, uri)
}

/// Whether `r` is what a response with `status` and the body `body` yields:
/// a body that is the server's error object is that error, whatever the status.
pub open spec fn leaderboard_response(
    status: u16,
    body: Seq<char>,
    uri: Seq<char>,
    deny: bool,
    r: Result<HelixResponse<BitsLeaderboard>, HelixRequestError>,
) -> bool {
    match error_object(body) {
        Some(o) => is_server_error(r, o, body, status, uri),
        None => leaderboard_outcome(status, body, uri, deny, r),
    }
}

impl GetBitsLeaderboardRequest {
    /// The query with every parameter left to its default.
    pub fn new() -> (r: GetBitsLeaderboardRequest)
        ensures
            r.count is None && r.period is None && r.started_at is None && r.user_id is None,
    {
        GetBitsLeaderboardRequest { count: None, period: None, started_at: None, user_id: None }
    }

    /// Sets the number of results.
    pub fn count(self, count: i32) -> (r: GetBitsLeaderboardRequest)
        ensures
            r.count == Some(count) && r.period == self.period && r.started_at == self.started_at
                && r.user_id == self.user_id,
    {
        GetBitsLeaderboardRequest { count: Some(count), ..self }
    }

    /// Sets the period.
    pub fn period(self, period: String) -> (r: GetBitsLeaderboardRequest)
        ensures
            r.count == self.count && r.period == Some(period) && r.started_at == self.started_at
                && r.user_id == self.user_id,
    {
        GetBitsLeaderboardRequest { period: Some(period), ..self }
    }

    /// Sets the start of the period.
    pub fn started_at(self, started_at: Timestamp) -> (r: GetBitsLeaderboardRequest)
        ensures
            r.count == self.count && r.period == self.period && r.started_at == Some(started_at)
                && r.user_id == self.user_id,
    {
        GetBitsLeaderboardRequest { started_at: Some(started_at), ..self }
    }

    /// Sets the user whose rank is wanted.
    pub fn user_id(self, user_id: String) -> (r: GetBitsLeaderboardRequest)
        ensures
            r.count == self.count && r.period == self.period && r.started_at == self.started_at
                && r.user_id == Some(user_id),
    {
        GetBitsLeaderboardRequest { user_id: Some(user_id), ..self }
    }

    /// The endpoint's path under the Helix root.
    pub fn path() -> (r: &'static str)
        ensures
            r@ == "bits/leaderboard"@,
    {
        "bits/leaderboard"
    }

    /// The scope the token must hold.
    pub fn scope() -> (r: &'static str)
        ensures
            r@ == "bits:read"@,
    {
        "bits:read"
    }

    /// Interprets a response by its status, ignoring members that a record
    /// does not read; see [`leaderboard_outcome`].
    pub fn parse_inner_response(status: u16, response: &str, uri: &str) -> (r: Result<HelixResponse<BitsLeaderboard>, HelixRequestError>)
        ensures
            leaderboard_outcome(status, response@, uri@, false, r),
    {
        GetBitsLeaderboardRequest::parse_inner_response_with(status, response, uri, false)
    }

    /// Interprets a response by its status: a 2xx decodes the leaderboard body,
    /// surfacing the total and any pagination cursor beside the data; any
    /// other status is an invalid response.
    pub fn parse_inner_response_with(status: u16, response: &str, uri: &str, deny: bool) -> (r: Result<HelixResponse<BitsLeaderboard>, HelixRequestError>)
        ensures
            leaderboard_outcome(status, response@, uri@, deny, r),
    {
        if !(200 <= status && status <= 299) {
            return Err(invalid_response("unexpected status", response, status, uri));
        }
        let o = match parse_json(response) {
            None => return Err(body_syntax(response, status, uri)),
            Some(Json::Object(o)) => o,
            Some(_) => return Err(deserialize_error(DecodeError::NotObject, response, status, uri)),
        };
        match BitsLeaderboard::decode(&o, deny) {
            Ok(data) => {
                let total = data.total;
                let pagination = read_cursor(&o);
                Ok(HelixResponse { data, pagination, total: Some(total) })
            },
            Err(e) => Err(deserialize_error(e, response, status, uri)),
        }
    }

    /// Interprets a response, ignoring members that a record does not read.
    pub fn parse_response(status: u16, response: &str, uri: &str) -> (r: Result<HelixResponse<BitsLeaderboard>, HelixRequestError>)
        ensures
            leaderboard_response(status, response@, uri@, false, r),
    {
        GetBitsLeaderboardRequest::parse_response_with(status, response, uri, false)
    }

    /// Interprets a response; a member that a record does not read is an error.
    pub fn parse_response_strict(status: u16, response: &str, uri: &str) -> (r: Result<HelixResponse<BitsLeaderboard>, HelixRequestError>)
        ensures
            leaderboard_response(status, response@, uri@, true, r),
    {
        GetBitsLeaderboardRequest::parse_response_with(status, response, uri, true)
    }

    /// Interprets a response: a body that is the server's error object is
    /// that error; otherwise as [`GetBitsLeaderboardRequest::parse_inner_response_with`].
    pub fn parse_response_with(status: u16, response: &str, uri: &str, deny: bool) -> (r: Result<HelixResponse<BitsLeaderboard>, HelixRequestError>)
        ensures
            leaderboard_response(status, response@, uri@, deny, r),
    {
        match error_from_body(response, status, uri) {
            Some(e) => Err(e),
            None => GetBitsLeaderboardRequest::parse_inner_response_with(status, response, uri, deny),
        }
    }
}

} // verus!
