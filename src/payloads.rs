//! Payloads and conditions of the EventSub subscription types.
use vstd::prelude::*;

use crate::fields::{
    alias_str_member, bool_member, either, err_of, first_unknown, int_member, opt_int_json, opt_int_member,
    opt_str_json, opt_str_member, read_alias_str, read_bool, read_int, read_opt_int,
    read_opt_str, read_str, read_str_list, read_timestamp, str_list_json, str_list_member, str_member,
    timestamp_member,
};
use crate::json::{get, member, DecodeError, Json};
use crate::text::str_eq;
use crate::timestamp::Timestamp;

verus! {

/// Condition of `stream.online` v1: the broadcaster starts a stream.
#[derive(Debug)]
pub struct StreamOnlineV1 {
    /// The broadcaster to get notifications for.
    pub broadcaster_user_id: String,
}

impl StreamOnlineV1 {
    /// Whether `k` names a member that the record reads.
    pub open spec fn knows(k: Seq<char>) -> bool {
        k == "broadcaster_user_id"@
    }

    /// [`StreamOnlineV1::knows`] as a predicate.
    pub open spec fn known() -> spec_fn(Seq<char>) -> bool {
        |k: Seq<char>| StreamOnlineV1::knows(k)
    }

    fn is_known(k: &str) -> (r: bool)
        ensures
            r == StreamOnlineV1::knows(k@),
    {
        str_eq(k, "broadcaster_user_id")
    }

    /// Finds the first member that the record does not read.
    pub fn unknown_member(o: &Vec<(String, Json)>) -> (r: Option<DecodeError>)
        ensures
            r == first_unknown(o@, StreamOnlineV1::known()),
    {
        let mut i: usize = 0;
        assert(o@.subrange(0, o@.len() as int) == o@);
        while i < o.len()
            invariant
                i <= o@.len(),
                first_unknown(o@, StreamOnlineV1::known()) == first_unknown(o@.subrange(i as int, o@.len() as int), StreamOnlineV1::known()),
            decreases o@.len() - i,
        {
            let ghost rest = o@.subrange(i as int, o@.len() as int);
            assert(rest.drop_first() == o@.subrange(i + 1, o@.len() as int));
            if !StreamOnlineV1::is_known(o[i].0.as_str()) {
                return Some(DecodeError::UnknownField(o[i].0.clone()));
            }
            i = i + 1;
        }
        None
    }

    /// The first error of `o`: a member the record does not read, when those are
    /// denied, then the first field, in declaration order, that cannot be read.
    pub open spec fn error(o: Seq<(String, Json)>, deny: bool) -> Option<DecodeError> {
        either(if deny { first_unknown(o, StreamOnlineV1::known()) } else { None },
        err_of(str_member(o, "broadcaster_user_id")))
    }

    /// Whether every field of `x` is the value read from `o`.
    pub open spec fn reads_as(o: Seq<(String, Json)>, x: StreamOnlineV1) -> bool {
        &&& x.broadcaster_user_id == str_member(o, "broadcaster_user_id")->Ok_0
    }

    /// Whether `r` is what decoding the members `o` yields.
    pub open spec fn decoded(o: Seq<(String, Json)>, deny: bool, r: Result<StreamOnlineV1, DecodeError>) -> bool {
        match r {
            Ok(x) => StreamOnlineV1::error(o, deny) is None && StreamOnlineV1::reads_as(o, x),
            Err(e) => StreamOnlineV1::error(o, deny) == Some(e),
        }
    }

    /// Decodes the record from the members of a JSON object; with `deny`, a
    /// member that the record does not read is an error.
    pub fn decode(o: &Vec<(String, Json)>, deny: bool) -> (r: Result<StreamOnlineV1, DecodeError>)
        ensures
            StreamOnlineV1::decoded(o@, deny, r),
    {
        if deny {
            if let Some(e) = StreamOnlineV1::unknown_member(o) {
                return Err(e);
            }
        }
        let broadcaster_user_id = match read_str(o, "broadcaster_user_id") {
            Ok(v) => v,
            Err(e) => return Err(e),
        };
        Ok(StreamOnlineV1 { broadcaster_user_id })
    }

    /// Encodes the record as the members of a JSON object; decoding them, in
    /// either mode, gives the record back.
    pub fn to_members(&self) -> (r: Vec<(String, Json)>)
        ensures
            StreamOnlineV1::decoded(r@, false, Ok(*self)),
            StreamOnlineV1::decoded(r@, true, Ok(*self)),
    {
        let r = vec![
            (String::from_str("broadcaster_user_id"), Json::Str(self.broadcaster_user_id.clone())),
        ];
        proof {
            reveal_with_fuel(member, 2);
            reveal_with_fuel(first_unknown, 2);
            reveal_strlit("broadcaster_user_id");
            assert("broadcaster_user_id"@.len() == 19);
        }
        r
    }
}

impl StreamOnlineV1 {
    /// The condition for the broadcaster `broadcaster_user_id`.
    pub fn broadcaster_user_id(broadcaster_user_id: String) -> (r: StreamOnlineV1)
        ensures
            r.broadcaster_user_id == broadcaster_user_id,
    {
        StreamOnlineV1 { broadcaster_user_id }
    }
}

/// Condition of `stream.offline` v1: the broadcaster stops a stream.
#[derive(Debug)]
pub struct StreamOfflineV1 {
    /// The broadcaster to get notifications for.
    pub broadcaster_user_id: String,
}

impl StreamOfflineV1 {
    /// Whether `k` names a member that the record reads.
    pub open spec fn knows(k: Seq<char>) -> bool {
        k == "broadcaster_user_id"@
    }

    /// [`StreamOfflineV1::knows`] as a predicate.
    pub open spec fn known() -> spec_fn(Seq<char>) -> bool {
        |k: Seq<char>| StreamOfflineV1::knows(k)
    }

    fn is_known(k: &str) -> (r: bool)
        ensures
            r == StreamOfflineV1::knows(k@),
    {
        str_eq(k, "broadcaster_user_id")
    }

    /// Finds the first member that the record does not read.
    pub fn unknown_member(o: &Vec<(String, Json)>) -> (r: Option<DecodeError>)
        ensures
            r == first_unknown(o@, StreamOfflineV1::known()),
    {
        let mut i: usize = 0;
        assert(o@.subrange(0, o@.len() as int) == o@);
        while i < o.len()
            invariant
                i <= o@.len(),
                first_unknown(o@, StreamOfflineV1::known()) == first_unknown(o@.subrange(i as int, o@.len() as int), StreamOfflineV1::known()),
            decreases o@.len() - i,
        {
            let ghost rest = o@.subrange(i as int, o@.len() as int);
            assert(rest.drop_first() == o@.subrange(i + 1, o@.len() as int));
            if !StreamOfflineV1::is_known(o[i].0.as_str()) {
                return Some(DecodeError::UnknownField(o[i].0.clone()));
            }
            i = i + 1;
        }
        None
    }

    /// The first error of `o`: a member the record does not read, when those are
    /// denied, then the first field, in declaration order, that cannot be read.
    pub open spec fn error(o: Seq<(String, Json)>, deny: bool) -> Option<DecodeError> {
        either(if deny { first_unknown(o, StreamOfflineV1::known()) } else { None },
        err_of(str_member(o, "broadcaster_user_id")))
    }

    /// Whether every field of `x` is the value read from `o`.
    pub open spec fn reads_as(o: Seq<(String, Json)>, x: StreamOfflineV1) -> bool {
        &&& x.broadcaster_user_id == str_member(o, "broadcaster_user_id")->Ok_0
    }

    /// Whether `r` is what decoding the members `o` yields.
    pub open spec fn decoded(o: Seq<(String, Json)>, deny: bool, r: Result<StreamOfflineV1, DecodeError>) -> bool {
        match r {
            Ok(x) => StreamOfflineV1::error(o, deny) is None && StreamOfflineV1::reads_as(o, x),
            Err(e) => StreamOfflineV1::error(o, deny) == Some(e),
        }
    }

    /// Decodes the record from the members of a JSON object; with `deny`, a
    /// member that the record does not read is an error.
    pub fn decode(o: &Vec<(String, Json)>, deny: bool) -> (r: Result<StreamOfflineV1, DecodeError>)
        ensures
            StreamOfflineV1::decoded(o@, deny, r),
    {
        if deny {
            if let Some(e) = StreamOfflineV1::unknown_member(o) {
                return Err(e);
            }
        }
        let broadcaster_user_id = match read_str(o, "broadcaster_user_id") {
            Ok(v) => v,
            Err(e) => return Err(e),
        };
        Ok(StreamOfflineV1 { broadcaster_user_id })
    }

    /// Encodes the record as the members of a JSON object; decoding them, in
    /// either mode, gives the record back.
    pub fn to_members(&self) -> (r: Vec<(String, Json)>)
        ensures
            StreamOfflineV1::decoded(r@, false, Ok(*self)),
            StreamOfflineV1::decoded(r@, true, Ok(*self)),
    {
        let r = vec![
            (String::from_str("broadcaster_user_id"), Json::Str(self.broadcaster_user_id.clone())),
        ];
        proof {
            reveal_with_fuel(member, 2);
            reveal_with_fuel(first_unknown, 2);
            reveal_strlit("broadcaster_user_id");
            assert("broadcaster_user_id"@.len() == 19);
        }
        r
    }
}

impl StreamOfflineV1 {
    /// The condition for the broadcaster `broadcaster_user_id`.
    pub fn broadcaster_user_id(broadcaster_user_id: String) -> (r: StreamOfflineV1)
        ensures
            r.broadcaster_user_id == broadcaster_user_id,
    {
        StreamOfflineV1 { broadcaster_user_id }
    }
}

/// Condition of `channel.update` v1 (deprecated): the channel's category, title, mature flag or language changed.
#[derive(Debug)]
pub struct ChannelUpdateV1 {
    /// The broadcaster to get notifications for.
    pub broadcaster_user_id: String,
}

impl ChannelUpdateV1 {
    /// Whether `k` names a member that the record reads.
    pub open spec fn knows(k: Seq<char>) -> bool {
        k == "broadcaster_user_id"@
    }

    /// [`ChannelUpdateV1::knows`] as a predicate.
    pub open spec fn known() -> spec_fn(Seq<char>) -> bool {
        |k: Seq<char>| ChannelUpdateV1::knows(k)
    }

    fn is_known(k: &str) -> (r: bool)
        ensures
            r == ChannelUpdateV1::knows(k@),
    {
        str_eq(k, "broadcaster_user_id")
    }

    /// Finds the first member that the record does not read.
    pub fn unknown_member(o: &Vec<(String, Json)>) -> (r: Option<DecodeError>)
        ensures
            r == first_unknown(o@, ChannelUpdateV1::known()),
    {
        let mut i: usize = 0;
        assert(o@.subrange(0, o@.len() as int) == o@);
        while i < o.len()
            invariant
                i <= o@.len(),
                first_unknown(o@, ChannelUpdateV1::known()) == first_unknown(o@.subrange(i as int, o@.len() as int), ChannelUpdateV1::known()),
            decreases o@.len() - i,
        {
            let ghost rest = o@.subrange(i as int, o@.len() as int);
            assert(rest.drop_first() == o@.subrange(i + 1, o@.len() as int));
            if !ChannelUpdateV1::is_known(o[i].0.as_str()) {
                return Some(DecodeError::UnknownField(o[i].0.clone()));
            }
            i = i + 1;
        }
        None
    }

    /// The first error of `o`: a member the record does not read, when those are
    /// denied, then the first field, in declaration order, that cannot be read.
    pub open spec fn error(o: Seq<(String, Json)>, deny: bool) -> Option<DecodeError> {
        either(if deny { first_unknown(o, ChannelUpdateV1::known()) } else { None },
        err_of(str_member(o, "broadcaster_user_id")))
    }

    /// Whether every field of `x` is the value read from `o`.
    pub open spec fn reads_as(o: Seq<(String, Json)>, x: ChannelUpdateV1) -> bool {
        &&& x.broadcaster_user_id == str_member(o, "broadcaster_user_id")->Ok_0
    }

    /// Whether `r` is what decoding the members `o` yields.
    pub open spec fn decoded(o: Seq<(String, Json)>, deny: bool, r: Result<ChannelUpdateV1, DecodeError>) -> bool {
        match r {
            Ok(x) => ChannelUpdateV1::error(o, deny) is None && ChannelUpdateV1::reads_as(o, x),
            Err(e) => ChannelUpdateV1::error(o, deny) == Some(e),
        }
    }

    /// Decodes the record from the members of a JSON object; with `deny`, a
    /// member that the record does not read is an error.
    pub fn decode(o: &Vec<(String, Json)>, deny: bool) -> (r: Result<ChannelUpdateV1, DecodeError>)
        ensures
            ChannelUpdateV1::decoded(o@, deny, r),
    {
        if deny {
            if let Some(e) = ChannelUpdateV1::unknown_member(o) {
                return Err(e);
            }
        }
        let broadcaster_user_id = match read_str(o, "broadcaster_user_id") {
            Ok(v) => v,
            Err(e) => return Err(e),
        };
        Ok(ChannelUpdateV1 { broadcaster_user_id })
    }

    /// Encodes the record as the members of a JSON object; decoding them, in
    /// either mode, gives the record back.
    pub fn to_members(&self) -> (r: Vec<(String, Json)>)
        ensures
            ChannelUpdateV1::decoded(r@, false, Ok(*self)),
            ChannelUpdateV1::decoded(r@, true, Ok(*self)),
    {
        let r = vec![
            (String::from_str("broadcaster_user_id"), Json::Str(self.broadcaster_user_id.clone())),
        ];
        proof {
            reveal_with_fuel(member, 2);
            reveal_with_fuel(first_unknown, 2);
            reveal_strlit("broadcaster_user_id");
            assert("broadcaster_user_id"@.len() == 19);
        }
        r
    }
}

impl ChannelUpdateV1 {
    /// The condition for the broadcaster `broadcaster_user_id`.
    pub fn broadcaster_user_id(broadcaster_user_id: String) -> (r: ChannelUpdateV1)
        ensures
            r.broadcaster_user_id == broadcaster_user_id,
    {
        ChannelUpdateV1 { broadcaster_user_id }
    }
}

/// Condition of `channel.update` v2: the channel's category, title, labels or language changed.
#[derive(Debug)]
pub struct ChannelUpdateV2 {
    /// The broadcaster to get notifications for.
    pub broadcaster_user_id: String,
}

impl ChannelUpdateV2 {
    /// Whether `k` names a member that the record reads.
    pub open spec fn knows(k: Seq<char>) -> bool {
        k == "broadcaster_user_id"@
    }

    /// [`ChannelUpdateV2::knows`] as a predicate.
    pub open spec fn known() -> spec_fn(Seq<char>) -> bool {
        |k: Seq<char>| ChannelUpdateV2::knows(k)
    }

    fn is_known(k: &str) -> (r: bool)
        ensures
            r == ChannelUpdateV2::knows(k@),
    {
        str_eq(k, "broadcaster_user_id")
    }

    /// Finds the first member that the record does not read.
    pub fn unknown_member(o: &Vec<(String, Json)>) -> (r: Option<DecodeError>)
        ensures
            r == first_unknown(o@, ChannelUpdateV2::known()),
    {
        let mut i: usize = 0;
        assert(o@.subrange(0, o@.len() as int) == o@);
        while i < o.len()
            invariant
                i <= o@.len(),
                first_unknown(o@, ChannelUpdateV2::known()) == first_unknown(o@.subrange(i as int, o@.len() as int), ChannelUpdateV2::known()),
            decreases o@.len() - i,
        {
            let ghost rest = o@.subrange(i as int, o@.len() as int);
            assert(rest.drop_first() == o@.subrange(i + 1, o@.len() as int));
            if !ChannelUpdateV2::is_known(o[i].0.as_str()) {
                return Some(DecodeError::UnknownField(o[i].0.clone()));
            }
            i = i + 1;
        }
        None
    }

    /// The first error of `o`: a member the record does not read, when those are
    /// denied, then the first field, in declaration order, that cannot be read.
    pub open spec fn error(o: Seq<(String, Json)>, deny: bool) -> Option<DecodeError> {
        either(if deny { first_unknown(o, ChannelUpdateV2::known()) } else { None },
        err_of(str_member(o, "broadcaster_user_id")))
    }

    /// Whether every field of `x` is the value read from `o`.
    pub open spec fn reads_as(o: Seq<(String, Json)>, x: ChannelUpdateV2) -> bool {
        &&& x.broadcaster_user_id == str_member(o, "broadcaster_user_id")->Ok_0
    }

    /// Whether `r` is what decoding the members `o` yields.
    pub open spec fn decoded(o: Seq<(String, Json)>, deny: bool, r: Result<ChannelUpdateV2, DecodeError>) -> bool {
        match r {
            Ok(x) => ChannelUpdateV2::error(o, deny) is None && ChannelUpdateV2::reads_as(o, x),
            Err(e) => ChannelUpdateV2::error(o, deny) == Some(e),
        }
    }

    /// Decodes the record from the members of a JSON object; with `deny`, a
    /// member that the record does not read is an error.
    pub fn decode(o: &Vec<(String, Json)>, deny: bool) -> (r: Result<ChannelUpdateV2, DecodeError>)
        ensures
            ChannelUpdateV2::decoded(o@, deny, r),
    {
        if deny {
            if let Some(e) = ChannelUpdateV2::unknown_member(o) {
                return Err(e);
            }
        }
        let broadcaster_user_id = match read_str(o, "broadcaster_user_id") {
            Ok(v) => v,
            Err(e) => return Err(e),
        };
        Ok(ChannelUpdateV2 { broadcaster_user_id })
    }

    /// Encodes the record as the members of a JSON object; decoding them, in
    /// either mode, gives the record back.
    pub fn to_members(&self) -> (r: Vec<(String, Json)>)
        ensures
            ChannelUpdateV2::decoded(r@, false, Ok(*self)),
            ChannelUpdateV2::decoded(r@, true, Ok(*self)),
    {
        let r = vec![
            (String::from_str("broadcaster_user_id"), Json::Str(self.broadcaster_user_id.clone())),
        ];
        proof {
            reveal_with_fuel(member, 2);
            reveal_with_fuel(first_unknown, 2);
            reveal_strlit("broadcaster_user_id");
            assert("broadcaster_user_id"@.len() == 19);
        }
        r
    }
}

impl ChannelUpdateV2 {
    /// The condition for the broadcaster `broadcaster_user_id`.
    pub fn broadcaster_user_id(broadcaster_user_id: String) -> (r: ChannelUpdateV2)
        ensures
            r.broadcaster_user_id == broadcaster_user_id,
    {
        ChannelUpdateV2 { broadcaster_user_id }
    }
}

/// Condition of `channel.cheer` v1: a user cheers on the channel.
#[derive(Debug)]
pub struct ChannelCheerV1 {
    /// The broadcaster to get notifications for.
    pub broadcaster_user_id: String,
}

impl ChannelCheerV1 {
    /// Whether `k` names a member that the record reads.
    pub open spec fn knows(k: Seq<char>) -> bool {
        k == "broadcaster_user_id"@
    }

    /// [`ChannelCheerV1::knows`] as a predicate.
    pub open spec fn known() -> spec_fn(Seq<char>) -> bool {
        |k: Seq<char>| ChannelCheerV1::knows(k)
    }

    fn is_known(k: &str) -> (r: bool)
        ensures
            r == ChannelCheerV1::knows(k@),
    {
        str_eq(k, "broadcaster_user_id")
    }

    /// Finds the first member that the record does not read.
    pub fn unknown_member(o: &Vec<(String, Json)>) -> (r: Option<DecodeError>)
        ensures
            r == first_unknown(o@, ChannelCheerV1::known()),
    {
        let mut i: usize = 0;
        assert(o@.subrange(0, o@.len() as int) == o@);
        while i < o.len()
            invariant
                i <= o@.len(),
                first_unknown(o@, ChannelCheerV1::known()) == first_unknown(o@.subrange(i as int, o@.len() as int), ChannelCheerV1::known()),
            decreases o@.len() - i,
        {
            let ghost rest = o@.subrange(i as int, o@.len() as int);
            assert(rest.drop_first() == o@.subrange(i + 1, o@.len() as int));
            if !ChannelCheerV1::is_known(o[i].0.as_str()) {
                return Some(DecodeError::UnknownField(o[i].0.clone()));
            }
            i = i + 1;
        }
        None
    }

    /// The first error of `o`: a member the record does not read, when those are
    /// denied, then the first field, in declaration order, that cannot be read.
    pub open spec fn error(o: Seq<(String, Json)>, deny: bool) -> Option<DecodeError> {
        either(if deny { first_unknown(o, ChannelCheerV1::known()) } else { None },
        err_of(str_member(o, "broadcaster_user_id")))
    }

    /// Whether every field of `x` is the value read from `o`.
    pub open spec fn reads_as(o: Seq<(String, Json)>, x: ChannelCheerV1) -> bool {
        &&& x.broadcaster_user_id == str_member(o, "broadcaster_user_id")->Ok_0
    }

    /// Whether `r` is what decoding the members `o` yields.
    pub open spec fn decoded(o: Seq<(String, Json)>, deny: bool, r: Result<ChannelCheerV1, DecodeError>) -> bool {
        match r {
            Ok(x) => ChannelCheerV1::error(o, deny) is None && ChannelCheerV1::reads_as(o, x),
            Err(e) => ChannelCheerV1::error(o, deny) == Some(e),
        }
    }

    /// Decodes the record from the members of a JSON object; with `deny`, a
    /// member that the record does not read is an error.
    pub fn decode(o: &Vec<(String, Json)>, deny: bool) -> (r: Result<ChannelCheerV1, DecodeError>)
        ensures
            ChannelCheerV1::decoded(o@, deny, r),
    {
        if deny {
            if let Some(e) = ChannelCheerV1::unknown_member(o) {
                return Err(e);
            }
        }
        let broadcaster_user_id = match read_str(o, "broadcaster_user_id") {
            Ok(v) => v,
            Err(e) => return Err(e),
        };
        Ok(ChannelCheerV1 { broadcaster_user_id })
    }

    /// Encodes the record as the members of a JSON object; decoding them, in
    /// either mode, gives the record back.
    pub fn to_members(&self) -> (r: Vec<(String, Json)>)
        ensures
            ChannelCheerV1::decoded(r@, false, Ok(*self)),
            ChannelCheerV1::decoded(r@, true, Ok(*self)),
    {
        let r = vec![
            (String::from_str("broadcaster_user_id"), Json::Str(self.broadcaster_user_id.clone())),
        ];
        proof {
            reveal_with_fuel(member, 2);
            reveal_with_fuel(first_unknown, 2);
            reveal_strlit("broadcaster_user_id");
            assert("broadcaster_user_id"@.len() == 19);
        }
        r
    }
}

impl ChannelCheerV1 {
    /// The condition for the broadcaster `broadcaster_user_id`.
    pub fn broadcaster_user_id(broadcaster_user_id: String) -> (r: ChannelCheerV1)
        ensures
            r.broadcaster_user_id == broadcaster_user_id,
    {
        ChannelCheerV1 { broadcaster_user_id }
    }
}

/// Condition of `channel.prediction.lock` v1: a prediction was locked.
#[derive(Debug)]
pub struct ChannelPredictionLockV1 {
    /// The broadcaster to get notifications for.
    pub broadcaster_user_id: String,
}

impl ChannelPredictionLockV1 {
    /// Whether `k` names a member that the record reads.
    pub open spec fn knows(k: Seq<char>) -> bool {
        k == "broadcaster_user_id"@
    }

    /// [`ChannelPredictionLockV1::knows`] as a predicate.
    pub open spec fn known() -> spec_fn(Seq<char>) -> bool {
        |k: Seq<char>| ChannelPredictionLockV1::knows(k)
    }

    fn is_known(k: &str) -> (r: bool)
        ensures
            r == ChannelPredictionLockV1::knows(k@),
    {
        str_eq(k, "broadcaster_user_id")
    }

    /// Finds the first member that the record does not read.
    pub fn unknown_member(o: &Vec<(String, Json)>) -> (r: Option<DecodeError>)
        ensures
            r == first_unknown(o@, ChannelPredictionLockV1::known()),
    {
        let mut i: usize = 0;
        assert(o@.subrange(0, o@.len() as int) == o@);
        while i < o.len()
            invariant
                i <= o@.len(),
                first_unknown(o@, ChannelPredictionLockV1::known()) == first_unknown(o@.subrange(i as int, o@.len() as int), ChannelPredictionLockV1::known()),
            decreases o@.len() - i,
        {
            let ghost rest = o@.subrange(i as int, o@.len() as int);
            assert(rest.drop_first() == o@.subrange(i + 1, o@.len() as int));
            if !ChannelPredictionLockV1::is_known(o[i].0.as_str()) {
                return Some(DecodeError::UnknownField(o[i].0.clone()));
            }
            i = i + 1;
        }
        None
    }

    /// The first error of `o`: a member the record does not read, when those are
    /// denied, then the first field, in declaration order, that cannot be read.
    pub open spec fn error(o: Seq<(String, Json)>, deny: bool) -> Option<DecodeError> {
        either(if deny { first_unknown(o, ChannelPredictionLockV1::known()) } else { None },
        err_of(str_member(o, "broadcaster_user_id")))
    }

    /// Whether every field of `x` is the value read from `o`.
    pub open spec fn reads_as(o: Seq<(String, Json)>, x: ChannelPredictionLockV1) -> bool {
        &&& x.broadcaster_user_id == str_member(o, "broadcaster_user_id")->Ok_0
    }

    /// Whether `r` is what decoding the members `o` yields.
    pub open spec fn decoded(o: Seq<(String, Json)>, deny: bool, r: Result<ChannelPredictionLockV1, DecodeError>) -> bool {
        match r {
            Ok(x) => ChannelPredictionLockV1::error(o, deny) is None && ChannelPredictionLockV1::reads_as(o, x),
            Err(e) => ChannelPredictionLockV1::error(o, deny) == Some(e),
        }
    }

    /// Decodes the record from the members of a JSON object; with `deny`, a
    /// member that the record does not read is an error.
    pub fn decode(o: &Vec<(String, Json)>, deny: bool) -> (r: Result<ChannelPredictionLockV1, DecodeError>)
        ensures
            ChannelPredictionLockV1::decoded(o@, deny, r),
    {
        if deny {
            if let Some(e) = ChannelPredictionLockV1::unknown_member(o) {
                return Err(e);
            }
        }
        let broadcaster_user_id = match read_str(o, "broadcaster_user_id") {
            Ok(v) => v,
            Err(e) => return Err(e),
        };
        Ok(ChannelPredictionLockV1 { broadcaster_user_id })
    }

    /// Encodes the record as the members of a JSON object; decoding them, in
    /// either mode, gives the record back.
    pub fn to_members(&self) -> (r: Vec<(String, Json)>)
        ensures
            ChannelPredictionLockV1::decoded(r@, false, Ok(*self)),
            ChannelPredictionLockV1::decoded(r@, true, Ok(*self)),
    {
        let r = vec![
            (String::from_str("broadcaster_user_id"), Json::Str(self.broadcaster_user_id.clone())),
        ];
        proof {
            reveal_with_fuel(member, 2);
            reveal_with_fuel(first_unknown, 2);
            reveal_strlit("broadcaster_user_id");
            assert("broadcaster_user_id"@.len() == 19);
        }
        r
    }
}

impl ChannelPredictionLockV1 {
    /// The condition for the broadcaster `broadcaster_user_id`.
    pub fn broadcaster_user_id(broadcaster_user_id: String) -> (r: ChannelPredictionLockV1)
        ensures
            r.broadcaster_user_id == broadcaster_user_id,
    {
        ChannelPredictionLockV1 { broadcaster_user_id }
    }
}

/// Condition of `channel.raid` v1: a broadcaster raids another broadcaster's channel.
#[derive(Debug)]
pub struct ChannelRaidV1 {
    /// The broadcaster that raids.
    pub from_broadcaster_user_id: Option<String>,
    /// The broadcaster that is raided.
    pub to_broadcaster_user_id: Option<String>,
}

impl ChannelRaidV1 {
    /// Whether `k` names a member that the record reads.
    pub open spec fn knows(k: Seq<char>) -> bool {
        k == "from_broadcaster_user_id"@
            || k == "to_broadcaster_user_id"@
    }

    /// [`ChannelRaidV1::knows`] as a predicate.
    pub open spec fn known() -> spec_fn(Seq<char>) -> bool {
        |k: Seq<char>| ChannelRaidV1::knows(k)
    }

    fn is_known(k: &str) -> (r: bool)
        ensures
            r == ChannelRaidV1::knows(k@),
    {
        str_eq(k, "from_broadcaster_user_id")
            || str_eq(k, "to_broadcaster_user_id")
    }

    /// Finds the first member that the record does not read.
    pub fn unknown_member(o: &Vec<(String, Json)>) -> (r: Option<DecodeError>)
        ensures
            r == first_unknown(o@, ChannelRaidV1::known()),
    {
        let mut i: usize = 0;
        assert(o@.subrange(0, o@.len() as int) == o@);
        while i < o.len()
            invariant
                i <= o@.len(),
                first_unknown(o@, ChannelRaidV1::known()) == first_unknown(o@.subrange(i as int, o@.len() as int), ChannelRaidV1::known()),
            decreases o@.len() - i,
        {
            let ghost rest = o@.subrange(i as int, o@.len() as int);
            assert(rest.drop_first() == o@.subrange(i + 1, o@.len() as int));
            if !ChannelRaidV1::is_known(o[i].0.as_str()) {
                return Some(DecodeError::UnknownField(o[i].0.clone()));
            }
            i = i + 1;
        }
        None
    }

    /// The first error of `o`: a member the record does not read, when those are
    /// denied, then the first field, in declaration order, that cannot be read.
    pub open spec fn error(o: Seq<(String, Json)>, deny: bool) -> Option<DecodeError> {
        either(if deny { first_unknown(o, ChannelRaidV1::known()) } else { None },
        either(err_of(opt_str_member(o, "from_broadcaster_user_id")),
        err_of(opt_str_member(o, "to_broadcaster_user_id"))))
    }

    /// Whether every field of `x` is the value read from `o`.
    pub open spec fn reads_as(o: Seq<(String, Json)>, x: ChannelRaidV1) -> bool {
        &&& x.from_broadcaster_user_id == opt_str_member(o, "from_broadcaster_user_id")->Ok_0
        &&& x.to_broadcaster_user_id == opt_str_member(o, "to_broadcaster_user_id")->Ok_0
    }

    /// Whether `r` is what decoding the members `o` yields.
    pub open spec fn decoded(o: Seq<(String, Json)>, deny: bool, r: Result<ChannelRaidV1, DecodeError>) -> bool {
        match r {
            Ok(x) => ChannelRaidV1::error(o, deny) is None && ChannelRaidV1::reads_as(o, x),
            Err(e) => ChannelRaidV1::error(o, deny) == Some(e),
        }
    }

    /// Decodes the record from the members of a JSON object; with `deny`, a
    /// member that the record does not read is an error.
    pub fn decode(o: &Vec<(String, Json)>, deny: bool) -> (r: Result<ChannelRaidV1, DecodeError>)
        ensures
            ChannelRaidV1::decoded(o@, deny, r),
    {
        if deny {
            if let Some(e) = ChannelRaidV1::unknown_member(o) {
                return Err(e);
            }
        }
        let from_broadcaster_user_id = match read_opt_str(o, "from_broadcaster_user_id") {
            Ok(v) => v,
            Err(e) => return Err(e),
        };
        let to_broadcaster_user_id = match read_opt_str(o, "to_broadcaster_user_id") {
            Ok(v) => v,
            Err(e) => return Err(e),
        };
        Ok(ChannelRaidV1 { from_broadcaster_user_id, to_broadcaster_user_id })
    }

    /// Encodes the record as the members of a JSON object; decoding them, in
    /// either mode, gives the record back.
    pub fn to_members(&self) -> (r: Vec<(String, Json)>)
        ensures
            ChannelRaidV1::decoded(r@, false, Ok(*self)),
            ChannelRaidV1::decoded(r@, true, Ok(*self)),
    {
        let r = vec![
            (String::from_str("from_broadcaster_user_id"), opt_str_json(&self.from_broadcaster_user_id)),
            (String::from_str("to_broadcaster_user_id"), opt_str_json(&self.to_broadcaster_user_id)),
        ];
        proof {
            reveal_with_fuel(member, 3);
            reveal_with_fuel(first_unknown, 3);
            reveal_strlit("from_broadcaster_user_id");
            reveal_strlit("to_broadcaster_user_id");
            assert("from_broadcaster_user_id"@.len() == 24);
            assert("to_broadcaster_user_id"@.len() == 22);
            assert("to_broadcaster_user_id"@ != "from_broadcaster_user_id"@);
        }
        r
    }
}

impl ChannelRaidV1 {
    /// The condition for raids made by `from_broadcaster_user_id`.
    pub fn from_broadcaster_user_id(from_broadcaster_user_id: String) -> (r: ChannelRaidV1)
        ensures
            r.from_broadcaster_user_id == Some(from_broadcaster_user_id),
            r.to_broadcaster_user_id is None,
    {
        ChannelRaidV1 { from_broadcaster_user_id: Some(from_broadcaster_user_id), to_broadcaster_user_id: None }
    }

    /// The condition for raids received by `to_broadcaster_user_id`.
    pub fn to_broadcaster_user_id(to_broadcaster_user_id: String) -> (r: ChannelRaidV1)
        ensures
            r.from_broadcaster_user_id is None,
            r.to_broadcaster_user_id == Some(to_broadcaster_user_id),
    {
        ChannelRaidV1 { from_broadcaster_user_id: None, to_broadcaster_user_id: Some(to_broadcaster_user_id) }
    }
}

/// The type of a stream.
#[derive(Clone, Copy, Debug, PartialEq, Eq, Structural)]
pub enum VideoType {
    /// A live stream.
    Live,
    /// A playlist.
    Playlist,
    /// An upload.
    Upload,
    /// An archive.
    Archive,
    /// A highlight.
    Highlight,
    /// A premiere.
    Premiere,
    /// A rerun.
    Rerun,
    /// A watch party.
    WatchParty,
    /// A watch party premiere.
    WatchPartyPremiere,
    /// A watch party rerun.
    WatchPartyRerun,
}

impl VideoType {
    /// The value named by the wire text `s`, if any.
    pub open spec fn of_wire(s: Seq<char>) -> Option<VideoType> {
        if s == "live"@ {
            Some(VideoType::Live)
        } else if s == "playlist"@ {
            Some(VideoType::Playlist)
        } else if s == "upload"@ {
            Some(VideoType::Upload)
        } else if s == "archive"@ {
            Some(VideoType::Archive)
        } else if s == "highlight"@ {
            Some(VideoType::Highlight)
        } else if s == "premiere"@ {
            Some(VideoType::Premiere)
        } else if s == "rerun"@ {
            Some(VideoType::Rerun)
        } else if s == "watch_party"@ {
            Some(VideoType::WatchParty)
        } else if s == "watch_party_premiere"@ {
            Some(VideoType::WatchPartyPremiere)
        } else if s == "watch_party_rerun"@ {
            Some(VideoType::WatchPartyRerun)
        } else {
            None
        }
    }

    /// The wire text of the value.
    pub open spec fn wire(self) -> Seq<char> {
        match self {
            VideoType::Live => "live"@,
            VideoType::Playlist => "playlist"@,
            VideoType::Upload => "upload"@,
            VideoType::Archive => "archive"@,
            VideoType::Highlight => "highlight"@,
            VideoType::Premiere => "premiere"@,
            VideoType::Rerun => "rerun"@,
            VideoType::WatchParty => "watch_party"@,
            VideoType::WatchPartyPremiere => "watch_party_premiere"@,
            VideoType::WatchPartyRerun => "watch_party_rerun"@,
        }
    }

    /// Reads a value from its wire text.
    pub fn from_wire(s: &str) -> (r: Option<VideoType>)
        ensures
            r == VideoType::of_wire(s@),
    {
        if str_eq(s, "live") {
            Some(VideoType::Live)
        } else if str_eq(s, "playlist") {
            Some(VideoType::Playlist)
        } else if str_eq(s, "upload") {
            Some(VideoType::Upload)
        } else if str_eq(s, "archive") {
            Some(VideoType::Archive)
        } else if str_eq(s, "highlight") {
            Some(VideoType::Highlight)
        } else if str_eq(s, "premiere") {
            Some(VideoType::Premiere)
        } else if str_eq(s, "rerun") {
            Some(VideoType::Rerun)
        } else if str_eq(s, "watch_party") {
            Some(VideoType::WatchParty)
        } else if str_eq(s, "watch_party_premiere") {
            Some(VideoType::WatchPartyPremiere)
        } else if str_eq(s, "watch_party_rerun") {
            Some(VideoType::WatchPartyRerun)
        } else {
            None
        }
    }

    /// The wire text of the value.
    pub fn as_str(&self) -> (r: &'static str)
        ensures
            r@ == self.wire(),
    {
        match self {
            VideoType::Live => "live",
            VideoType::Playlist => "playlist",
            VideoType::Upload => "upload",
            VideoType::Archive => "archive",
            VideoType::Highlight => "highlight",
            VideoType::Premiere => "premiere",
            VideoType::Rerun => "rerun",
            VideoType::WatchParty => "watch_party",
            VideoType::WatchPartyPremiere => "watch_party_premiere",
            VideoType::WatchPartyRerun => "watch_party_rerun",
        }
    }

    /// The value of the member `key`: a string that names a known value.
    pub open spec fn member(o: Seq<(String, Json)>, key: &'static str) -> Result<VideoType, DecodeError> {
        match str_member(o, key) {
            Ok(s) => match VideoType::of_wire(s@) {
                Some(v) => Ok(v),
                None => Err(DecodeError::UnknownValue { field: key, raw: s }),
            },
            Err(e) => Err(e),
        }
    }

    /// Reads the member `key`.
    pub fn read(o: &Vec<(String, Json)>, key: &'static str) -> (r: Result<VideoType, DecodeError>)
        ensures
            r == VideoType::member(o@, key),
    {
        match read_str(o, key) {
            Ok(s) => match VideoType::from_wire(s.as_str()) {
                Some(v) => Ok(v),
                None => Err(DecodeError::UnknownValue { field: key, raw: s }),
            },
            Err(e) => Err(e),
        }
    }

    /// Reading the wire text of a value gives the value back.
    pub proof fn lemma_wire_round_trip(self)
        ensures
            VideoType::of_wire(self.wire()) == Some(self),
    {
        reveal_strlit("live");
        reveal_strlit("playlist");
        reveal_strlit("upload");
        reveal_strlit("archive");
        reveal_strlit("highlight");
        reveal_strlit("premiere");
        reveal_strlit("rerun");
        reveal_strlit("watch_party");
        reveal_strlit("watch_party_premiere");
        reveal_strlit("watch_party_rerun");
        assert("live"@.len() == 4);
        assert("playlist"@.len() == 8);
        assert("upload"@.len() == 6);
        assert("archive"@.len() == 7);
        assert("highlight"@.len() == 9);
        assert("premiere"@.len() == 8);
        assert("rerun"@.len() == 5);
        assert("watch_party"@.len() == 11);
        assert("watch_party_premiere"@.len() == 20);
        assert("watch_party_rerun"@.len() == 17);
        match self {
            VideoType::Live => {},
            VideoType::Playlist => {
                assert("playlist"@ != "live"@);
            },
            VideoType::Upload => {
                assert("upload"@ != "live"@);
                assert("upload"@ != "playlist"@);
            },
            VideoType::Archive => {
                assert("archive"@ != "live"@);
                assert("archive"@ != "playlist"@);
                assert("archive"@ != "upload"@);
            },
            VideoType::Highlight => {
                assert("highlight"@ != "live"@);
                assert("highlight"@ != "playlist"@);
                assert("highlight"@ != "upload"@);
                assert("highlight"@ != "archive"@);
            },
            VideoType::Premiere => {
                assert("premiere"@ != "live"@);
                assert("premiere"@[1] != "playlist"@[1]);
                assert("premiere"@ != "playlist"@);
                assert("premiere"@ != "upload"@);
                assert("premiere"@ != "archive"@);
                assert("premiere"@ != "highlight"@);
            },
            VideoType::Rerun => {
                assert("rerun"@ != "live"@);
                assert("rerun"@ != "playlist"@);
                assert("rerun"@ != "upload"@);
                assert("rerun"@ != "archive"@);
                assert("rerun"@ != "highlight"@);
                assert("rerun"@ != "premiere"@);
            },
            VideoType::WatchParty => {
                assert("watch_party"@ != "live"@);
                assert("watch_party"@ != "playlist"@);
                assert("watch_party"@ != "upload"@);
                assert("watch_party"@ != "archive"@);
                assert("watch_party"@ != "highlight"@);
                assert("watch_party"@ != "premiere"@);
                assert("watch_party"@ != "rerun"@);
            },
            VideoType::WatchPartyPremiere => {
                assert("watch_party_premiere"@ != "live"@);
                assert("watch_party_premiere"@ != "playlist"@);
                assert("watch_party_premiere"@ != "upload"@);
                assert("watch_party_premiere"@ != "archive"@);
                assert("watch_party_premiere"@ != "highlight"@);
                assert("watch_party_premiere"@ != "premiere"@);
                assert("watch_party_premiere"@ != "rerun"@);
                assert("watch_party_premiere"@ != "watch_party"@);
            },
            VideoType::WatchPartyRerun => {
                assert("watch_party_rerun"@ != "live"@);
                assert("watch_party_rerun"@ != "playlist"@);
                assert("watch_party_rerun"@ != "upload"@);
                assert("watch_party_rerun"@ != "archive"@);
                assert("watch_party_rerun"@ != "highlight"@);
                assert("watch_party_rerun"@ != "premiere"@);
                assert("watch_party_rerun"@ != "rerun"@);
                assert("watch_party_rerun"@ != "watch_party"@);
                assert("watch_party_rerun"@ != "watch_party_premiere"@);
            },
        }
    }
}

/// Event of `stream.online` v1.
#[derive(Debug)]
pub struct StreamOnlineV1Payload {
    /// The broadcaster's user id.
    pub broadcaster_user_id: String,
    /// The broadcaster's login.
    pub broadcaster_user_login: String,
    /// The broadcaster's display name.
    pub broadcaster_user_name: String,
    /// The id of the stream.
    pub id: String,
    /// The stream type.
    pub type_: VideoType,
    /// When the stream went online.
    pub started_at: Timestamp,
}

impl StreamOnlineV1Payload {
    /// Whether `k` names a member that the record reads.
    pub open spec fn knows(k: Seq<char>) -> bool {
        k == "broadcaster_user_id"@
            || k == "broadcaster_user_login"@
            || k == "broadcaster_user_name"@
            || k == "id"@
            || k == "type"@
            || k == "started_at"@
    }

    /// [`StreamOnlineV1Payload::knows`] as a predicate.
    pub open spec fn known() -> spec_fn(Seq<char>) -> bool {
        |k: Seq<char>| StreamOnlineV1Payload::knows(k)
    }

    fn is_known(k: &str) -> (r: bool)
        ensures
            r == StreamOnlineV1Payload::knows(k@),
    {
        str_eq(k, "broadcaster_user_id")
            || str_eq(k, "broadcaster_user_login")
            || str_eq(k, "broadcaster_user_name")
            || str_eq(k, "id")
            || str_eq(k, "type")
            || str_eq(k, "started_at")
    }

    /// Finds the first member that the record does not read.
    pub fn unknown_member(o: &Vec<(String, Json)>) -> (r: Option<DecodeError>)
        ensures
            r == first_unknown(o@, StreamOnlineV1Payload::known()),
    {
        let mut i: usize = 0;
        assert(o@.subrange(0, o@.len() as int) == o@);
        while i < o.len()
            invariant
                i <= o@.len(),
                first_unknown(o@, StreamOnlineV1Payload::known()) == first_unknown(o@.subrange(i as int, o@.len() as int), StreamOnlineV1Payload::known()),
            decreases o@.len() - i,
        {
            let ghost rest = o@.subrange(i as int, o@.len() as int);
            assert(rest.drop_first() == o@.subrange(i + 1, o@.len() as int));
            if !StreamOnlineV1Payload::is_known(o[i].0.as_str()) {
                return Some(DecodeError::UnknownField(o[i].0.clone()));
            }
            i = i + 1;
        }
        None
    }

    /// The first error of `o`: a member the record does not read, when those are
    /// denied, then the first field, in declaration order, that cannot be read.
    pub open spec fn error(o: Seq<(String, Json)>, deny: bool) -> Option<DecodeError> {
        either(if deny { first_unknown(o, StreamOnlineV1Payload::known()) } else { None },
        either(err_of(str_member(o, "broadcaster_user_id")),
        either(err_of(str_member(o, "broadcaster_user_login")),
        either(err_of(str_member(o, "broadcaster_user_name")),
        either(err_of(str_member(o, "id")),
        either(err_of(VideoType::member(o, "type")),
        err_of(timestamp_member(o, "started_at"))))))))
    }

    /// Whether every field of `x` is the value read from `o`.
    pub open spec fn reads_as(o: Seq<(String, Json)>, x: StreamOnlineV1Payload) -> bool {
        &&& x.broadcaster_user_id == str_member(o, "broadcaster_user_id")->Ok_0
        &&& x.broadcaster_user_login == str_member(o, "broadcaster_user_login")->Ok_0
        &&& x.broadcaster_user_name == str_member(o, "broadcaster_user_name")->Ok_0
        &&& x.id == str_member(o, "id")->Ok_0
        &&& x.type_ == VideoType::member(o, "type")->Ok_0
        &&& x.started_at@ == timestamp_member(o, "started_at")->Ok_0
    }

    /// Whether `r` is what decoding the members `o` yields.
    pub open spec fn decoded(o: Seq<(String, Json)>, deny: bool, r: Result<StreamOnlineV1Payload, DecodeError>) -> bool {
        match r {
            Ok(x) => StreamOnlineV1Payload::error(o, deny) is None && StreamOnlineV1Payload::reads_as(o, x),
            Err(e) => StreamOnlineV1Payload::error(o, deny) == Some(e),
        }
    }

    /// Decodes the record from the members of a JSON object; with `deny`, a
    /// member that the record does not read is an error.
    pub fn decode(o: &Vec<(String, Json)>, deny: bool) -> (r: Result<StreamOnlineV1Payload, DecodeError>)
        ensures
            StreamOnlineV1Payload::decoded(o@, deny, r),
    {
        if deny {
            if let Some(e) = StreamOnlineV1Payload::unknown_member(o) {
                return Err(e);
            }
        }
        let broadcaster_user_id = match read_str(o, "broadcaster_user_id") {
            Ok(v) => v,
            Err(e) => return Err(e),
        };
        let broadcaster_user_login = match read_str(o, "broadcaster_user_login") {
            Ok(v) => v,
            Err(e) => return Err(e),
        };
        let broadcaster_user_name = match read_str(o, "broadcaster_user_name") {
            Ok(v) => v,
            Err(e) => return Err(e),
        };
        let id = match read_str(o, "id") {
            Ok(v) => v,
            Err(e) => return Err(e),
        };
        let type_ = match VideoType::read(o, "type") {
            Ok(v) => v,
            Err(e) => return Err(e),
        };
        let started_at = match read_timestamp(o, "started_at") {
            Ok(v) => v,
            Err(e) => return Err(e),
        };
        Ok(StreamOnlineV1Payload { broadcaster_user_id, broadcaster_user_login, broadcaster_user_name, id, type_, started_at })
    }

    /// Encodes the record as the members of a JSON object; decoding them, in
    /// either mode, gives the record back.
    pub fn to_members(&self) -> (r: Vec<(String, Json)>)
        ensures
            StreamOnlineV1Payload::decoded(r@, false, Ok(*self)),
            StreamOnlineV1Payload::decoded(r@, true, Ok(*self)),
    {
        let r = vec![
            (String::from_str("broadcaster_user_id"), Json::Str(self.broadcaster_user_id.clone())),
            (String::from_str("broadcaster_user_login"), Json::Str(self.broadcaster_user_login.clone())),
            (String::from_str("broadcaster_user_name"), Json::Str(self.broadcaster_user_name.clone())),
            (String::from_str("id"), Json::Str(self.id.clone())),
            (String::from_str("type"), Json::Str(String::from_str(self.type_.as_str()))),
            (String::from_str("started_at"), Json::Str(self.started_at.to_text())),
        ];
        proof {
            reveal_with_fuel(member, 7);
            reveal_with_fuel(first_unknown, 7);
            reveal_strlit("broadcaster_user_id");
            reveal_strlit("broadcaster_user_login");
            reveal_strlit("broadcaster_user_name");
            reveal_strlit("id");
            reveal_strlit("type");
            reveal_strlit("started_at");
            assert("broadcaster_user_id"@.len() == 19);
            assert("broadcaster_user_login"@.len() == 22);
            assert("broadcaster_user_name"@.len() == 21);
            assert("id"@.len() == 2);
            assert("type"@.len() == 4);
            assert("started_at"@.len() == 10);
            assert("broadcaster_user_login"@ != "broadcaster_user_id"@);
            assert("broadcaster_user_name"@ != "broadcaster_user_id"@);
            assert("broadcaster_user_name"@ != "broadcaster_user_login"@);
            assert("id"@ != "broadcaster_user_id"@);
            assert("id"@ != "broadcaster_user_login"@);
            assert("id"@ != "broadcaster_user_name"@);
            assert("type"@ != "broadcaster_user_id"@);
            assert("type"@ != "broadcaster_user_login"@);
            assert("type"@ != "broadcaster_user_name"@);
            assert("type"@ != "id"@);
            assert("started_at"@ != "broadcaster_user_id"@);
            assert("started_at"@ != "broadcaster_user_login"@);
            assert("started_at"@ != "broadcaster_user_name"@);
            assert("started_at"@ != "id"@);
            assert("started_at"@ != "type"@);
            self.type_.lemma_wire_round_trip();
        }
        r
    }
}

/// Event of `stream.offline` v1.
#[derive(Debug)]
pub struct StreamOfflineV1Payload {
    /// The broadcaster's user id.
    pub broadcaster_user_id: String,
    /// The broadcaster's login.
    pub broadcaster_user_login: String,
    /// The broadcaster's display name.
    pub broadcaster_user_name: String,
}

impl StreamOfflineV1Payload {
    /// Whether `k` names a member that the record reads.
    pub open spec fn knows(k: Seq<char>) -> bool {
        k == "broadcaster_user_id"@
            || k == "broadcaster_user_login"@
            || k == "broadcaster_user_name"@
    }

    /// [`StreamOfflineV1Payload::knows`] as a predicate.
    pub open spec fn known() -> spec_fn(Seq<char>) -> bool {
        |k: Seq<char>| StreamOfflineV1Payload::knows(k)
    }

    fn is_known(k: &str) -> (r: bool)
        ensures
            r == StreamOfflineV1Payload::knows(k@),
    {
        str_eq(k, "broadcaster_user_id")
            || str_eq(k, "broadcaster_user_login")
            || str_eq(k, "broadcaster_user_name")
    }

    /// Finds the first member that the record does not read.
    pub fn unknown_member(o: &Vec<(String, Json)>) -> (r: Option<DecodeError>)
        ensures
            r == first_unknown(o@, StreamOfflineV1Payload::known()),
    {
        let mut i: usize = 0;
        assert(o@.subrange(0, o@.len() as int) == o@);
        while i < o.len()
            invariant
                i <= o@.len(),
                first_unknown(o@, StreamOfflineV1Payload::known()) == first_unknown(o@.subrange(i as int, o@.len() as int), StreamOfflineV1Payload::known()),
            decreases o@.len() - i,
        {
            let ghost rest = o@.subrange(i as int, o@.len() as int);
            assert(rest.drop_first() == o@.subrange(i + 1, o@.len() as int));
            if !StreamOfflineV1Payload::is_known(o[i].0.as_str()) {
                return Some(DecodeError::UnknownField(o[i].0.clone()));
            }
            i = i + 1;
        }
        None
    }

    /// The first error of `o`: a member the record does not read, when those are
    /// denied, then the first field, in declaration order, that cannot be read.
    pub open spec fn error(o: Seq<(String, Json)>, deny: bool) -> Option<DecodeError> {
        either(if deny { first_unknown(o, StreamOfflineV1Payload::known()) } else { None },
        either(err_of(str_member(o, "broadcaster_user_id")),
        either(err_of(str_member(o, "broadcaster_user_login")),
        err_of(str_member(o, "broadcaster_user_name")))))
    }

    /// Whether every field of `x` is the value read from `o`.
    pub open spec fn reads_as(o: Seq<(String, Json)>, x: StreamOfflineV1Payload) -> bool {
        &&& x.broadcaster_user_id == str_member(o, "broadcaster_user_id")->Ok_0
        &&& x.broadcaster_user_login == str_member(o, "broadcaster_user_login")->Ok_0
        &&& x.broadcaster_user_name == str_member(o, "broadcaster_user_name")->Ok_0
    }

    /// Whether `r` is what decoding the members `o` yields.
    pub open spec fn decoded(o: Seq<(String, Json)>, deny: bool, r: Result<StreamOfflineV1Payload, DecodeError>) -> bool {
        match r {
            Ok(x) => StreamOfflineV1Payload::error(o, deny) is None && StreamOfflineV1Payload::reads_as(o, x),
            Err(e) => StreamOfflineV1Payload::error(o, deny) == Some(e),
        }
    }

    /// Decodes the record from the members of a JSON object; with `deny`, a
    /// member that the record does not read is an error.
    pub fn decode(o: &Vec<(String, Json)>, deny: bool) -> (r: Result<StreamOfflineV1Payload, DecodeError>)
        ensures
            StreamOfflineV1Payload::decoded(o@, deny, r),
    {
        if deny {
            if let Some(e) = StreamOfflineV1Payload::unknown_member(o) {
                return Err(e);
            }
        }
        let broadcaster_user_id = match read_str(o, "broadcaster_user_id") {
            Ok(v) => v,
            Err(e) => return Err(e),
        };
        let broadcaster_user_login = match read_str(o, "broadcaster_user_login") {
            Ok(v) => v,
            Err(e) => return Err(e),
        };
        let broadcaster_user_name = match read_str(o, "broadcaster_user_name") {
            Ok(v) => v,
            Err(e) => return Err(e),
        };
        Ok(StreamOfflineV1Payload { broadcaster_user_id, broadcaster_user_login, broadcaster_user_name })
    }

    /// Encodes the record as the members of a JSON object; decoding them, in
    /// either mode, gives the record back.
    pub fn to_members(&self) -> (r: Vec<(String, Json)>)
        ensures
            StreamOfflineV1Payload::decoded(r@, false, Ok(*self)),
            StreamOfflineV1Payload::decoded(r@, true, Ok(*self)),
    {
        let r = vec![
            (String::from_str("broadcaster_user_id"), Json::Str(self.broadcaster_user_id.clone())),
            (String::from_str("broadcaster_user_login"), Json::Str(self.broadcaster_user_login.clone())),
            (String::from_str("broadcaster_user_name"), Json::Str(self.broadcaster_user_name.clone())),
        ];
        proof {
            reveal_with_fuel(member, 4);
            reveal_with_fuel(first_unknown, 4);
            reveal_strlit("broadcaster_user_id");
            reveal_strlit("broadcaster_user_login");
            reveal_strlit("broadcaster_user_name");
            assert("broadcaster_user_id"@.len() == 19);
            assert("broadcaster_user_login"@.len() == 22);
            assert("broadcaster_user_name"@.len() == 21);
            assert("broadcaster_user_login"@ != "broadcaster_user_id"@);
            assert("broadcaster_user_name"@ != "broadcaster_user_id"@);
            assert("broadcaster_user_name"@ != "broadcaster_user_login"@);
        }
        r
    }
}

/// Event of `channel.update` v1.
#[derive(Debug)]
pub struct ChannelUpdateV1Payload {
    /// The broadcaster's user id.
    pub broadcaster_user_id: String,
    /// The broadcaster's login.
    pub broadcaster_user_login: String,
    /// The broadcaster's display name.
    pub broadcaster_user_name: String,
    /// The stream title.
    pub title: String,
    /// The broadcast language.
    pub language: String,
    /// The category id.
    pub category_id: String,
    /// The category name.
    pub category_name: String,
    /// Whether the channel is flagged as mature.
    pub is_mature: bool,
}

impl ChannelUpdateV1Payload {
    /// Whether `k` names a member that the record reads.
    pub open spec fn knows(k: Seq<char>) -> bool {
        k == "broadcaster_user_id"@
            || k == "broadcaster_user_login"@
            || k == "broadcaster_user_name"@
            || k == "title"@
            || k == "language"@
            || k == "category_id"@
            || k == "category_name"@
            || k == "is_mature"@
    }

    /// [`ChannelUpdateV1Payload::knows`] as a predicate.
    pub open spec fn known() -> spec_fn(Seq<char>) -> bool {
        |k: Seq<char>| ChannelUpdateV1Payload::knows(k)
    }

    fn is_known(k: &str) -> (r: bool)
        ensures
            r == ChannelUpdateV1Payload::knows(k@),
    {
        str_eq(k, "broadcaster_user_id")
            || str_eq(k, "broadcaster_user_login")
            || str_eq(k, "broadcaster_user_name")
            || str_eq(k, "title")
            || str_eq(k, "language")
            || str_eq(k, "category_id")
            || str_eq(k, "category_name")
            || str_eq(k, "is_mature")
    }

    /// Finds the first member that the record does not read.
    pub fn unknown_member(o: &Vec<(String, Json)>) -> (r: Option<DecodeError>)
        ensures
            r == first_unknown(o@, ChannelUpdateV1Payload::known()),
    {
        let mut i: usize = 0;
        assert(o@.subrange(0, o@.len() as int) == o@);
        while i < o.len()
            invariant
                i <= o@.len(),
                first_unknown(o@, ChannelUpdateV1Payload::known()) == first_unknown(o@.subrange(i as int, o@.len() as int), ChannelUpdateV1Payload::known()),
            decreases o@.len() - i,
        {
            let ghost rest = o@.subrange(i as int, o@.len() as int);
            assert(rest.drop_first() == o@.subrange(i + 1, o@.len() as int));
            if !ChannelUpdateV1Payload::is_known(o[i].0.as_str()) {
                return Some(DecodeError::UnknownField(o[i].0.clone()));
            }
            i = i + 1;
        }
        None
    }

    /// The first error of `o`: a member the record does not read, when those are
    /// denied, then the first field, in declaration order, that cannot be read.
    pub open spec fn error(o: Seq<(String, Json)>, deny: bool) -> Option<DecodeError> {
        either(if deny { first_unknown(o, ChannelUpdateV1Payload::known()) } else { None },
        either(err_of(str_member(o, "broadcaster_user_id")),
        either(err_of(str_member(o, "broadcaster_user_login")),
        either(err_of(str_member(o, "broadcaster_user_name")),
        either(err_of(str_member(o, "title")),
        either(err_of(str_member(o, "language")),
        either(err_of(str_member(o, "category_id")),
        either(err_of(str_member(o, "category_name")),
        err_of(bool_member(o, "is_mature"))))))))))
    }

    /// Whether every field of `x` is the value read from `o`.
    pub open spec fn reads_as(o: Seq<(String, Json)>, x: ChannelUpdateV1Payload) -> bool {
        &&& x.broadcaster_user_id == str_member(o, "broadcaster_user_id")->Ok_0
        &&& x.broadcaster_user_login == str_member(o, "broadcaster_user_login")->Ok_0
        &&& x.broadcaster_user_name == str_member(o, "broadcaster_user_name")->Ok_0
        &&& x.title == str_member(o, "title")->Ok_0
        &&& x.language == str_member(o, "language")->Ok_0
        &&& x.category_id == str_member(o, "category_id")->Ok_0
        &&& x.category_name == str_member(o, "category_name")->Ok_0
        &&& x.is_mature == bool_member(o, "is_mature")->Ok_0
    }

    /// Whether `r` is what decoding the members `o` yields.
    pub open spec fn decoded(o: Seq<(String, Json)>, deny: bool, r: Result<ChannelUpdateV1Payload, DecodeError>) -> bool {
        match r {
            Ok(x) => ChannelUpdateV1Payload::error(o, deny) is None && ChannelUpdateV1Payload::reads_as(o, x),
            Err(e) => ChannelUpdateV1Payload::error(o, deny) == Some(e),
        }
    }

    /// Decodes the record from the members of a JSON object; with `deny`, a
    /// member that the record does not read is an error.
    pub fn decode(o: &Vec<(String, Json)>, deny: bool) -> (r: Result<ChannelUpdateV1Payload, DecodeError>)
        ensures
            ChannelUpdateV1Payload::decoded(o@, deny, r),
    {
        if deny {
            if let Some(e) = ChannelUpdateV1Payload::unknown_member(o) {
                return Err(e);
            }
        }
        let broadcaster_user_id = match read_str(o, "broadcaster_user_id") {
            Ok(v) => v,
            Err(e) => return Err(e),
        };
        let broadcaster_user_login = match read_str(o, "broadcaster_user_login") {
            Ok(v) => v,
            Err(e) => return Err(e),
        };
        let broadcaster_user_name = match read_str(o, "broadcaster_user_name") {
            Ok(v) => v,
            Err(e) => return Err(e),
        };
        let title = match read_str(o, "title") {
            Ok(v) => v,
            Err(e) => return Err(e),
        };
        let language = match read_str(o, "language") {
            Ok(v) => v,
            Err(e) => return Err(e),
        };
        let category_id = match read_str(o, "category_id") {
            Ok(v) => v,
            Err(e) => return Err(e),
        };
        let category_name = match read_str(o, "category_name") {
            Ok(v) => v,
            Err(e) => return Err(e),
        };
        let is_mature = match read_bool(o, "is_mature") {
            Ok(v) => v,
            Err(e) => return Err(e),
        };
        Ok(ChannelUpdateV1Payload { broadcaster_user_id, broadcaster_user_login, broadcaster_user_name, title, language, category_id, category_name, is_mature })
    }

    /// Encodes the record as the members of a JSON object; decoding them, in
    /// either mode, gives the record back.
    pub fn to_members(&self) -> (r: Vec<(String, Json)>)
        ensures
            ChannelUpdateV1Payload::decoded(r@, false, Ok(*self)),
            ChannelUpdateV1Payload::decoded(r@, true, Ok(*self)),
    {
        let r = vec![
            (String::from_str("broadcaster_user_id"), Json::Str(self.broadcaster_user_id.clone())),
            (String::from_str("broadcaster_user_login"), Json::Str(self.broadcaster_user_login.clone())),
            (String::from_str("broadcaster_user_name"), Json::Str(self.broadcaster_user_name.clone())),
            (String::from_str("title"), Json::Str(self.title.clone())),
            (String::from_str("language"), Json::Str(self.language.clone())),
            (String::from_str("category_id"), Json::Str(self.category_id.clone())),
            (String::from_str("category_name"), Json::Str(self.category_name.clone())),
            (String::from_str("is_mature"), Json::Bool(self.is_mature)),
        ];
        proof {
            reveal_with_fuel(member, 9);
            reveal_with_fuel(first_unknown, 9);
            reveal_strlit("broadcaster_user_id");
            reveal_strlit("broadcaster_user_login");
            reveal_strlit("broadcaster_user_name");
            reveal_strlit("title");
            reveal_strlit("language");
            reveal_strlit("category_id");
            reveal_strlit("category_name");
            reveal_strlit("is_mature");
            assert("broadcaster_user_id"@.len() == 19);
            assert("broadcaster_user_login"@.len() == 22);
            assert("broadcaster_user_name"@.len() == 21);
            assert("title"@.len() == 5);
            assert("language"@.len() == 8);
            assert("category_id"@.len() == 11);
            assert("category_name"@.len() == 13);
            assert("is_mature"@.len() == 9);
            assert("broadcaster_user_login"@ != "broadcaster_user_id"@);
            assert("broadcaster_user_name"@ != "broadcaster_user_id"@);
            assert("broadcaster_user_name"@ != "broadcaster_user_login"@);
            assert("title"@ != "broadcaster_user_id"@);
            assert("title"@ != "broadcaster_user_login"@);
            assert("title"@ != "broadcaster_user_name"@);
            assert("language"@ != "broadcaster_user_id"@);
            assert("language"@ != "broadcaster_user_login"@);
            assert("language"@ != "broadcaster_user_name"@);
            assert("language"@ != "title"@);
            assert("category_id"@ != "broadcaster_user_id"@);
            assert("category_id"@ != "broadcaster_user_login"@);
            assert("category_id"@ != "broadcaster_user_name"@);
            assert("category_id"@ != "title"@);
            assert("category_id"@ != "language"@);
            assert("category_name"@ != "broadcaster_user_id"@);
            assert("category_name"@ != "broadcaster_user_login"@);
            assert("category_name"@ != "broadcaster_user_name"@);
            assert("category_name"@ != "title"@);
            assert("category_name"@ != "language"@);
            assert("category_name"@ != "category_id"@);
            assert("is_mature"@ != "broadcaster_user_id"@);
            assert("is_mature"@ != "broadcaster_user_login"@);
            assert("is_mature"@ != "broadcaster_user_name"@);
            assert("is_mature"@ != "title"@);
            assert("is_mature"@ != "language"@);
            assert("is_mature"@ != "category_id"@);
            assert("is_mature"@ != "category_name"@);
        }
        r
    }
}

/// Event of `channel.update` v2.
#[derive(Debug)]
pub struct ChannelUpdateV2Payload {
    /// The broadcaster's user id.
    pub broadcaster_user_id: String,
    /// The broadcaster's login.
    pub broadcaster_user_login: String,
    /// The broadcaster's display name.
    pub broadcaster_user_name: String,
    /// The stream title.
    pub title: String,
    /// The broadcast language.
    pub language: String,
    /// The category id.
    pub category_id: String,
    /// The category name.
    pub category_name: String,
    /// Content classification label ids applied to the channel.
    pub content_classification_labels: Vec<String>,
}

impl ChannelUpdateV2Payload {
    /// Whether `k` names a member that the record reads.
    pub open spec fn knows(k: Seq<char>) -> bool {
        k == "broadcaster_user_id"@
            || k == "broadcaster_user_login"@
            || k == "broadcaster_user_name"@
            || k == "title"@
            || k == "language"@
            || k == "category_id"@
            || k == "category_name"@
            || k == "content_classification_labels"@
    }

    /// [`ChannelUpdateV2Payload::knows`] as a predicate.
    pub open spec fn known() -> spec_fn(Seq<char>) -> bool {
        |k: Seq<char>| ChannelUpdateV2Payload::knows(k)
    }

    fn is_known(k: &str) -> (r: bool)
        ensures
            r == ChannelUpdateV2Payload::knows(k@),
    {
        str_eq(k, "broadcaster_user_id")
            || str_eq(k, "broadcaster_user_login")
            || str_eq(k, "broadcaster_user_name")
            || str_eq(k, "title")
            || str_eq(k, "language")
            || str_eq(k, "category_id")
            || str_eq(k, "category_name")
            || str_eq(k, "content_classification_labels")
    }

    /// Finds the first member that the record does not read.
    pub fn unknown_member(o: &Vec<(String, Json)>) -> (r: Option<DecodeError>)
        ensures
            r == first_unknown(o@, ChannelUpdateV2Payload::known()),
    {
        let mut i: usize = 0;
        assert(o@.subrange(0, o@.len() as int) == o@);
        while i < o.len()
            invariant
                i <= o@.len(),
                first_unknown(o@, ChannelUpdateV2Payload::known()) == first_unknown(o@.subrange(i as int, o@.len() as int), ChannelUpdateV2Payload::known()),
            decreases o@.len() - i,
        {
            let ghost rest = o@.subrange(i as int, o@.len() as int);
            assert(rest.drop_first() == o@.subrange(i + 1, o@.len() as int));
            if !ChannelUpdateV2Payload::is_known(o[i].0.as_str()) {
                return Some(DecodeError::UnknownField(o[i].0.clone()));
            }
            i = i + 1;
        }
        None
    }

    /// The first error of `o`: a member the record does not read, when those are
    /// denied, then the first field, in declaration order, that cannot be read.
    pub open spec fn error(o: Seq<(String, Json)>, deny: bool) -> Option<DecodeError> {
        either(if deny { first_unknown(o, ChannelUpdateV2Payload::known()) } else { None },
        either(err_of(str_member(o, "broadcaster_user_id")),
        either(err_of(str_member(o, "broadcaster_user_login")),
        either(err_of(str_member(o, "broadcaster_user_name")),
        either(err_of(str_member(o, "title")),
        either(err_of(str_member(o, "language")),
        either(err_of(str_member(o, "category_id")),
        either(err_of(str_member(o, "category_name")),
        err_of(str_list_member(o, "content_classification_labels"))))))))))
    }

    /// Whether every field of `x` is the value read from `o`.
    pub open spec fn reads_as(o: Seq<(String, Json)>, x: ChannelUpdateV2Payload) -> bool {
        &&& x.broadcaster_user_id == str_member(o, "broadcaster_user_id")->Ok_0
        &&& x.broadcaster_user_login == str_member(o, "broadcaster_user_login")->Ok_0
        &&& x.broadcaster_user_name == str_member(o, "broadcaster_user_name")->Ok_0
        &&& x.title == str_member(o, "title")->Ok_0
        &&& x.language == str_member(o, "language")->Ok_0
        &&& x.category_id == str_member(o, "category_id")->Ok_0
        &&& x.category_name == str_member(o, "category_name")->Ok_0
        &&& x.content_classification_labels@ == str_list_member(o, "content_classification_labels")->Ok_0
    }

    /// Whether `r` is what decoding the members `o` yields.
    pub open spec fn decoded(o: Seq<(String, Json)>, deny: bool, r: Result<ChannelUpdateV2Payload, DecodeError>) -> bool {
        match r {
            Ok(x) => ChannelUpdateV2Payload::error(o, deny) is None && ChannelUpdateV2Payload::reads_as(o, x),
            Err(e) => ChannelUpdateV2Payload::error(o, deny) == Some(e),
        }
    }

    /// Decodes the record from the members of a JSON object; with `deny`, a
    /// member that the record does not read is an error.
    pub fn decode(o: &Vec<(String, Json)>, deny: bool) -> (r: Result<ChannelUpdateV2Payload, DecodeError>)
        ensures
            ChannelUpdateV2Payload::decoded(o@, deny, r),
    {
        if deny {
            if let Some(e) = ChannelUpdateV2Payload::unknown_member(o) {
                return Err(e);
            }
        }
        let broadcaster_user_id = match read_str(o, "broadcaster_user_id") {
            Ok(v) => v,
            Err(e) => return Err(e),
        };
        let broadcaster_user_login = match read_str(o, "broadcaster_user_login") {
            Ok(v) => v,
            Err(e) => return Err(e),
        };
        let broadcaster_user_name = match read_str(o, "broadcaster_user_name") {
            Ok(v) => v,
            Err(e) => return Err(e),
        };
        let title = match read_str(o, "title") {
            Ok(v) => v,
            Err(e) => return Err(e),
        };
        let language = match read_str(o, "language") {
            Ok(v) => v,
            Err(e) => return Err(e),
        };
        let category_id = match read_str(o, "category_id") {
            Ok(v) => v,
            Err(e) => return Err(e),
        };
        let category_name = match read_str(o, "category_name") {
            Ok(v) => v,
            Err(e) => return Err(e),
        };
        let content_classification_labels = match read_str_list(o, "content_classification_labels") {
            Ok(v) => v,
            Err(e) => return Err(e),
        };
        Ok(ChannelUpdateV2Payload { broadcaster_user_id, broadcaster_user_login, broadcaster_user_name, title, language, category_id, category_name, content_classification_labels })
    }

    /// Encodes the record as the members of a JSON object; decoding them, in
    /// either mode, gives the record back.
    pub fn to_members(&self) -> (r: Vec<(String, Json)>)
        ensures
            ChannelUpdateV2Payload::decoded(r@, false, Ok(*self)),
            ChannelUpdateV2Payload::decoded(r@, true, Ok(*self)),
    {
        let r = vec![
            (String::from_str("broadcaster_user_id"), Json::Str(self.broadcaster_user_id.clone())),
            (String::from_str("broadcaster_user_login"), Json::Str(self.broadcaster_user_login.clone())),
            (String::from_str("broadcaster_user_name"), Json::Str(self.broadcaster_user_name.clone())),
            (String::from_str("title"), Json::Str(self.title.clone())),
            (String::from_str("language"), Json::Str(self.language.clone())),
            (String::from_str("category_id"), Json::Str(self.category_id.clone())),
            (String::from_str("category_name"), Json::Str(self.category_name.clone())),
            (String::from_str("content_classification_labels"), str_list_json(&self.content_classification_labels)),
        ];
        proof {
            reveal_with_fuel(member, 9);
            reveal_with_fuel(first_unknown, 9);
            reveal_strlit("broadcaster_user_id");
            reveal_strlit("broadcaster_user_login");
            reveal_strlit("broadcaster_user_name");
            reveal_strlit("title");
            reveal_strlit("language");
            reveal_strlit("category_id");
            reveal_strlit("category_name");
            reveal_strlit("content_classification_labels");
            assert("broadcaster_user_id"@.len() == 19);
            assert("broadcaster_user_login"@.len() == 22);
            assert("broadcaster_user_name"@.len() == 21);
            assert("title"@.len() == 5);
            assert("language"@.len() == 8);
            assert("category_id"@.len() == 11);
            assert("category_name"@.len() == 13);
            assert("content_classification_labels"@.len() == 29);
            assert("broadcaster_user_login"@ != "broadcaster_user_id"@);
            assert("broadcaster_user_name"@ != "broadcaster_user_id"@);
            assert("broadcaster_user_name"@ != "broadcaster_user_login"@);
            assert("title"@ != "broadcaster_user_id"@);
            assert("title"@ != "broadcaster_user_login"@);
            assert("title"@ != "broadcaster_user_name"@);
            assert("language"@ != "broadcaster_user_id"@);
            assert("language"@ != "broadcaster_user_login"@);
            assert("language"@ != "broadcaster_user_name"@);
            assert("language"@ != "title"@);
            assert("category_id"@ != "broadcaster_user_id"@);
            assert("category_id"@ != "broadcaster_user_login"@);
            assert("category_id"@ != "broadcaster_user_name"@);
            assert("category_id"@ != "title"@);
            assert("category_id"@ != "language"@);
            assert("category_name"@ != "broadcaster_user_id"@);
            assert("category_name"@ != "broadcaster_user_login"@);
            assert("category_name"@ != "broadcaster_user_name"@);
            assert("category_name"@ != "title"@);
            assert("category_name"@ != "language"@);
            assert("category_name"@ != "category_id"@);
            assert("content_classification_labels"@ != "broadcaster_user_id"@);
            assert("content_classification_labels"@ != "broadcaster_user_login"@);
            assert("content_classification_labels"@ != "broadcaster_user_name"@);
            assert("content_classification_labels"@ != "title"@);
            assert("content_classification_labels"@ != "language"@);
            assert("content_classification_labels"@ != "category_id"@);
            assert("content_classification_labels"@ != "category_name"@);
        }
        r
    }
}

/// Event of `channel.cheer` v1.
#[derive(Debug)]
pub struct ChannelCheerV1Payload {
    /// The number of bits cheered.
    pub bits: i64,
    /// The broadcaster's user id.
    pub broadcaster_user_id: String,
    /// The broadcaster's login.
    pub broadcaster_user_login: String,
    /// The broadcaster's display name.
    pub broadcaster_user_name: String,
    /// Whether the user cheered anonymously.
    pub is_anonymous: bool,
    /// The message sent with the cheer.
    pub message: String,
    /// The cheering user's id; none when anonymous.
    pub user_id: Option<String>,
    /// The cheering user's login; none when anonymous.
    pub user_login: Option<String>,
    /// The cheering user's display name; none when anonymous.
    pub user_name: Option<String>,
}

impl ChannelCheerV1Payload {
    /// Whether `k` names a member that the record reads.
    pub open spec fn knows(k: Seq<char>) -> bool {
        k == "bits"@
            || k == "broadcaster_user_id"@
            || k == "broadcaster_user_login"@
            || k == "broadcaster_user_name"@
            || k == "is_anonymous"@
            || k == "message"@
            || k == "user_id"@
            || k == "user_login"@
            || k == "user_name"@
    }

    /// [`ChannelCheerV1Payload::knows`] as a predicate.
    pub open spec fn known() -> spec_fn(Seq<char>) -> bool {
        |k: Seq<char>| ChannelCheerV1Payload::knows(k)
    }

    fn is_known(k: &str) -> (r: bool)
        ensures
            r == ChannelCheerV1Payload::knows(k@),
    {
        str_eq(k, "bits")
            || str_eq(k, "broadcaster_user_id")
            || str_eq(k, "broadcaster_user_login")
            || str_eq(k, "broadcaster_user_name")
            || str_eq(k, "is_anonymous")
            || str_eq(k, "message")
            || str_eq(k, "user_id")
            || str_eq(k, "user_login")
            || str_eq(k, "user_name")
    }

    /// Finds the first member that the record does not read.
    pub fn unknown_member(o: &Vec<(String, Json)>) -> (r: Option<DecodeError>)
        ensures
            r == first_unknown(o@, ChannelCheerV1Payload::known()),
    {
        let mut i: usize = 0;
        assert(o@.subrange(0, o@.len() as int) == o@);
        while i < o.len()
            invariant
                i <= o@.len(),
                first_unknown(o@, ChannelCheerV1Payload::known()) == first_unknown(o@.subrange(i as int, o@.len() as int), ChannelCheerV1Payload::known()),
            decreases o@.len() - i,
        {
            let ghost rest = o@.subrange(i as int, o@.len() as int);
            assert(rest.drop_first() == o@.subrange(i + 1, o@.len() as int));
            if !ChannelCheerV1Payload::is_known(o[i].0.as_str()) {
                return Some(DecodeError::UnknownField(o[i].0.clone()));
            }
            i = i + 1;
        }
        None
    }

    /// The first error of `o`: a member the record does not read, when those are
    /// denied, then the first field, in declaration order, that cannot be read.
    pub open spec fn error(o: Seq<(String, Json)>, deny: bool) -> Option<DecodeError> {
        either(if deny { first_unknown(o, ChannelCheerV1Payload::known()) } else { None },
        either(err_of(int_member(o, "bits")),
        either(err_of(str_member(o, "broadcaster_user_id")),
        either(err_of(str_member(o, "broadcaster_user_login")),
        either(err_of(str_member(o, "broadcaster_user_name")),
        either(err_of(bool_member(o, "is_anonymous")),
        either(err_of(str_member(o, "message")),
        either(err_of(opt_str_member(o, "user_id")),
        either(err_of(opt_str_member(o, "user_login")),
        err_of(opt_str_member(o, "user_name")))))))))))
    }

    /// Whether every field of `x` is the value read from `o`.
    pub open spec fn reads_as(o: Seq<(String, Json)>, x: ChannelCheerV1Payload) -> bool {
        &&& x.bits == int_member(o, "bits")->Ok_0
        &&& x.broadcaster_user_id == str_member(o, "broadcaster_user_id")->Ok_0
        &&& x.broadcaster_user_login == str_member(o, "broadcaster_user_login")->Ok_0
        &&& x.broadcaster_user_name == str_member(o, "broadcaster_user_name")->Ok_0
        &&& x.is_anonymous == bool_member(o, "is_anonymous")->Ok_0
        &&& x.message == str_member(o, "message")->Ok_0
        &&& x.user_id == opt_str_member(o, "user_id")->Ok_0
        &&& x.user_login == opt_str_member(o, "user_login")->Ok_0
        &&& x.user_name == opt_str_member(o, "user_name")->Ok_0
    }

    /// Whether `r` is what decoding the members `o` yields.
    pub open spec fn decoded(o: Seq<(String, Json)>, deny: bool, r: Result<ChannelCheerV1Payload, DecodeError>) -> bool {
        match r {
            Ok(x) => ChannelCheerV1Payload::error(o, deny) is None && ChannelCheerV1Payload::reads_as(o, x),
            Err(e) => ChannelCheerV1Payload::error(o, deny) == Some(e),
        }
    }

    /// Decodes the record from the members of a JSON object; with `deny`, a
    /// member that the record does not read is an error.
    pub fn decode(o: &Vec<(String, Json)>, deny: bool) -> (r: Result<ChannelCheerV1Payload, DecodeError>)
        ensures
            ChannelCheerV1Payload::decoded(o@, deny, r),
    {
        if deny {
            if let Some(e) = ChannelCheerV1Payload::unknown_member(o) {
                return Err(e);
            }
        }
        let bits = match read_int(o, "bits") {
            Ok(v) => v,
            Err(e) => return Err(e),
        };
        let broadcaster_user_id = match read_str(o, "broadcaster_user_id") {
            Ok(v) => v,
            Err(e) => return Err(e),
        };
        let broadcaster_user_login = match read_str(o, "broadcaster_user_login") {
            Ok(v) => v,
            Err(e) => return Err(e),
        };
        let broadcaster_user_name = match read_str(o, "broadcaster_user_name") {
            Ok(v) => v,
            Err(e) => return Err(e),
        };
        let is_anonymous = match read_bool(o, "is_anonymous") {
            Ok(v) => v,
            Err(e) => return Err(e),
        };
        let message = match read_str(o, "message") {
            Ok(v) => v,
            Err(e) => return Err(e),
        };
        let user_id = match read_opt_str(o, "user_id") {
            Ok(v) => v,
            Err(e) => return Err(e),
        };
        let user_login = match read_opt_str(o, "user_login") {
            Ok(v) => v,
            Err(e) => return Err(e),
        };
        let user_name = match read_opt_str(o, "user_name") {
            Ok(v) => v,
            Err(e) => return Err(e),
        };
        Ok(ChannelCheerV1Payload { bits, broadcaster_user_id, broadcaster_user_login, broadcaster_user_name, is_anonymous, message, user_id, user_login, user_name })
    }

    /// Encodes the record as the members of a JSON object; decoding them, in
    /// either mode, gives the record back.
    pub fn to_members(&self) -> (r: Vec<(String, Json)>)
        ensures
            ChannelCheerV1Payload::decoded(r@, false, Ok(*self)),
            ChannelCheerV1Payload::decoded(r@, true, Ok(*self)),
    {
        let r = vec![
            (String::from_str("bits"), Json::Int(self.bits)),
            (String::from_str("broadcaster_user_id"), Json::Str(self.broadcaster_user_id.clone())),
            (String::from_str("broadcaster_user_login"), Json::Str(self.broadcaster_user_login.clone())),
            (String::from_str("broadcaster_user_name"), Json::Str(self.broadcaster_user_name.clone())),
            (String::from_str("is_anonymous"), Json::Bool(self.is_anonymous)),
            (String::from_str("message"), Json::Str(self.message.clone())),
            (String::from_str("user_id"), opt_str_json(&self.user_id)),
            (String::from_str("user_login"), opt_str_json(&self.user_login)),
            (String::from_str("user_name"), opt_str_json(&self.user_name)),
        ];
        proof {
            reveal_with_fuel(member, 10);
            reveal_with_fuel(first_unknown, 10);
            reveal_strlit("bits");
            reveal_strlit("broadcaster_user_id");
            reveal_strlit("broadcaster_user_login");
            reveal_strlit("broadcaster_user_name");
            reveal_strlit("is_anonymous");
            reveal_strlit("message");
            reveal_strlit("user_id");
            reveal_strlit("user_login");
            reveal_strlit("user_name");
            assert("bits"@.len() == 4);
            assert("broadcaster_user_id"@.len() == 19);
            assert("broadcaster_user_login"@.len() == 22);
            assert("broadcaster_user_name"@.len() == 21);
            assert("is_anonymous"@.len() == 12);
            assert("message"@.len() == 7);
            assert("user_id"@.len() == 7);
            assert("user_login"@.len() == 10);
            assert("user_name"@.len() == 9);
            assert("broadcaster_user_id"@ != "bits"@);
            assert("broadcaster_user_login"@ != "bits"@);
            assert("broadcaster_user_login"@ != "broadcaster_user_id"@);
            assert("broadcaster_user_name"@ != "bits"@);
            assert("broadcaster_user_name"@ != "broadcaster_user_id"@);
            assert("broadcaster_user_name"@ != "broadcaster_user_login"@);
            assert("is_anonymous"@ != "bits"@);
            assert("is_anonymous"@ != "broadcaster_user_id"@);
            assert("is_anonymous"@ != "broadcaster_user_login"@);
            assert("is_anonymous"@ != "broadcaster_user_name"@);
            assert("message"@ != "bits"@);
            assert("message"@ != "broadcaster_user_id"@);
            assert("message"@ != "broadcaster_user_login"@);
            assert("message"@ != "broadcaster_user_name"@);
            assert("message"@ != "is_anonymous"@);
            assert("user_id"@ != "bits"@);
            assert("user_id"@ != "broadcaster_user_id"@);
            assert("user_id"@ != "broadcaster_user_login"@);
            assert("user_id"@ != "broadcaster_user_name"@);
            assert("user_id"@ != "is_anonymous"@);
            assert("user_id"@[0] != "message"@[0]);
            assert("user_id"@ != "message"@);
            assert("user_login"@ != "bits"@);
            assert("user_login"@ != "broadcaster_user_id"@);
            assert("user_login"@ != "broadcaster_user_login"@);
            assert("user_login"@ != "broadcaster_user_name"@);
            assert("user_login"@ != "is_anonymous"@);
            assert("user_login"@ != "message"@);
            assert("user_login"@ != "user_id"@);
            assert("user_name"@ != "bits"@);
            assert("user_name"@ != "broadcaster_user_id"@);
            assert("user_name"@ != "broadcaster_user_login"@);
            assert("user_name"@ != "broadcaster_user_name"@);
            assert("user_name"@ != "is_anonymous"@);
            assert("user_name"@ != "message"@);
            assert("user_name"@ != "user_id"@);
            assert("user_name"@ != "user_login"@);
        }
        r
    }
}

/// Event of `channel.raid` v1.
#[derive(Debug)]
pub struct ChannelRaidV1Payload {
    /// The raiding broadcaster's id.
    pub from_broadcaster_user_id: String,
    /// The raiding broadcaster's login.
    pub from_broadcaster_user_login: String,
    /// The raiding broadcaster's display name.
    pub from_broadcaster_user_name: String,
    /// The raided broadcaster's id.
    pub to_broadcaster_user_id: String,
    /// The raided broadcaster's login.
    pub to_broadcaster_user_login: String,
    /// The raided broadcaster's display name.
    pub to_broadcaster_user_name: String,
    /// The number of viewers in the raid.
    pub viewers: i64,
}

impl ChannelRaidV1Payload {
    /// Whether `k` names a member that the record reads.
    pub open spec fn knows(k: Seq<char>) -> bool {
        k == "from_broadcaster_user_id"@
            || k == "from_broadcaster_user_login"@
            || k == "from_broadcaster_user_name"@
            || k == "to_broadcaster_user_id"@
            || k == "to_broadcaster_user_login"@
            || k == "to_broadcaster_user_name"@
            || k == "viewers"@
    }

    /// [`ChannelRaidV1Payload::knows`] as a predicate.
    pub open spec fn known() -> spec_fn(Seq<char>) -> bool {
        |k: Seq<char>| ChannelRaidV1Payload::knows(k)
    }

    fn is_known(k: &str) -> (r: bool)
        ensures
            r == ChannelRaidV1Payload::knows(k@),
    {
        str_eq(k, "from_broadcaster_user_id")
            || str_eq(k, "from_broadcaster_user_login")
            || str_eq(k, "from_broadcaster_user_name")
            || str_eq(k, "to_broadcaster_user_id")
            || str_eq(k, "to_broadcaster_user_login")
            || str_eq(k, "to_broadcaster_user_name")
            || str_eq(k, "viewers")
    }

    /// Finds the first member that the record does not read.
    pub fn unknown_member(o: &Vec<(String, Json)>) -> (r: Option<DecodeError>)
        ensures
            r == first_unknown(o@, ChannelRaidV1Payload::known()),
    {
        let mut i: usize = 0;
        assert(o@.subrange(0, o@.len() as int) == o@);
        while i < o.len()
            invariant
                i <= o@.len(),
                first_unknown(o@, ChannelRaidV1Payload::known()) == first_unknown(o@.subrange(i as int, o@.len() as int), ChannelRaidV1Payload::known()),
            decreases o@.len() - i,
        {
            let ghost rest = o@.subrange(i as int, o@.len() as int);
            assert(rest.drop_first() == o@.subrange(i + 1, o@.len() as int));
            if !ChannelRaidV1Payload::is_known(o[i].0.as_str()) {
                return Some(DecodeError::UnknownField(o[i].0.clone()));
            }
            i = i + 1;
        }
        None
    }

    /// The first error of `o`: a member the record does not read, when those are
    /// denied, then the first field, in declaration order, that cannot be read.
    pub open spec fn error(o: Seq<(String, Json)>, deny: bool) -> Option<DecodeError> {
        either(if deny { first_unknown(o, ChannelRaidV1Payload::known()) } else { None },
        either(err_of(str_member(o, "from_broadcaster_user_id")),
        either(err_of(str_member(o, "from_broadcaster_user_login")),
        either(err_of(str_member(o, "from_broadcaster_user_name")),
        either(err_of(str_member(o, "to_broadcaster_user_id")),
        either(err_of(str_member(o, "to_broadcaster_user_login")),
        either(err_of(str_member(o, "to_broadcaster_user_name")),
        err_of(int_member(o, "viewers")))))))))
    }

    /// Whether every field of `x` is the value read from `o`.
    pub open spec fn reads_as(o: Seq<(String, Json)>, x: ChannelRaidV1Payload) -> bool {
        &&& x.from_broadcaster_user_id == str_member(o, "from_broadcaster_user_id")->Ok_0
        &&& x.from_broadcaster_user_login == str_member(o, "from_broadcaster_user_login")->Ok_0
        &&& x.from_broadcaster_user_name == str_member(o, "from_broadcaster_user_name")->Ok_0
        &&& x.to_broadcaster_user_id == str_member(o, "to_broadcaster_user_id")->Ok_0
        &&& x.to_broadcaster_user_login == str_member(o, "to_broadcaster_user_login")->Ok_0
        &&& x.to_broadcaster_user_name == str_member(o, "to_broadcaster_user_name")->Ok_0
        &&& x.viewers == int_member(o, "viewers")->Ok_0
    }

    /// Whether `r` is what decoding the members `o` yields.
    pub open spec fn decoded(o: Seq<(String, Json)>, deny: bool, r: Result<ChannelRaidV1Payload, DecodeError>) -> bool {
        match r {
            Ok(x) => ChannelRaidV1Payload::error(o, deny) is None && ChannelRaidV1Payload::reads_as(o, x),
            Err(e) => ChannelRaidV1Payload::error(o, deny) == Some(e),
        }
    }

    /// Decodes the record from the members of a JSON object; with `deny`, a
    /// member that the record does not read is an error.
    pub fn decode(o: &Vec<(String, Json)>, deny: bool) -> (r: Result<ChannelRaidV1Payload, DecodeError>)
        ensures
            ChannelRaidV1Payload::decoded(o@, deny, r),
    {
        if deny {
            if let Some(e) = ChannelRaidV1Payload::unknown_member(o) {
                return Err(e);
            }
        }
        let from_broadcaster_user_id = match read_str(o, "from_broadcaster_user_id") {
            Ok(v) => v,
            Err(e) => return Err(e),
        };
        let from_broadcaster_user_login = match read_str(o, "from_broadcaster_user_login") {
            Ok(v) => v,
            Err(e) => return Err(e),
        };
        let from_broadcaster_user_name = match read_str(o, "from_broadcaster_user_name") {
            Ok(v) => v,
            Err(e) => return Err(e),
        };
        let to_broadcaster_user_id = match read_str(o, "to_broadcaster_user_id") {
            Ok(v) => v,
            Err(e) => return Err(e),
        };
        let to_broadcaster_user_login = match read_str(o, "to_broadcaster_user_login") {
            Ok(v) => v,
            Err(e) => return Err(e),
        };
        let to_broadcaster_user_name = match read_str(o, "to_broadcaster_user_name") {
            Ok(v) => v,
            Err(e) => return Err(e),
        };
        let viewers = match read_int(o, "viewers") {
            Ok(v) => v,
            Err(e) => return Err(e),
        };
        Ok(ChannelRaidV1Payload { from_broadcaster_user_id, from_broadcaster_user_login, from_broadcaster_user_name, to_broadcaster_user_id, to_broadcaster_user_login, to_broadcaster_user_name, viewers })
    }

    /// Encodes the record as the members of a JSON object; decoding them, in
    /// either mode, gives the record back.
    pub fn to_members(&self) -> (r: Vec<(String, Json)>)
        ensures
            ChannelRaidV1Payload::decoded(r@, false, Ok(*self)),
            ChannelRaidV1Payload::decoded(r@, true, Ok(*self)),
    {
        let r = vec![
            (String::from_str("from_broadcaster_user_id"), Json::Str(self.from_broadcaster_user_id.clone())),
            (String::from_str("from_broadcaster_user_login"), Json::Str(self.from_broadcaster_user_login.clone())),
            (String::from_str("from_broadcaster_user_name"), Json::Str(self.from_broadcaster_user_name.clone())),
            (String::from_str("to_broadcaster_user_id"), Json::Str(self.to_broadcaster_user_id.clone())),
            (String::from_str("to_broadcaster_user_login"), Json::Str(self.to_broadcaster_user_login.clone())),
            (String::from_str("to_broadcaster_user_name"), Json::Str(self.to_broadcaster_user_name.clone())),
            (String::from_str("viewers"), Json::Int(self.viewers)),
        ];
        proof {
            reveal_with_fuel(member, 8);
            reveal_with_fuel(first_unknown, 8);
            reveal_strlit("from_broadcaster_user_id");
            reveal_strlit("from_broadcaster_user_login");
            reveal_strlit("from_broadcaster_user_name");
            reveal_strlit("to_broadcaster_user_id");
            reveal_strlit("to_broadcaster_user_login");
            reveal_strlit("to_broadcaster_user_name");
            reveal_strlit("viewers");
            assert("from_broadcaster_user_id"@.len() == 24);
            assert("from_broadcaster_user_login"@.len() == 27);
            assert("from_broadcaster_user_name"@.len() == 26);
            assert("to_broadcaster_user_id"@.len() == 22);
            assert("to_broadcaster_user_login"@.len() == 25);
            assert("to_broadcaster_user_name"@.len() == 24);
            assert("viewers"@.len() == 7);
            assert("from_broadcaster_user_login"@ != "from_broadcaster_user_id"@);
            assert("from_broadcaster_user_name"@ != "from_broadcaster_user_id"@);
            assert("from_broadcaster_user_name"@ != "from_broadcaster_user_login"@);
            assert("to_broadcaster_user_id"@ != "from_broadcaster_user_id"@);
            assert("to_broadcaster_user_id"@ != "from_broadcaster_user_login"@);
            assert("to_broadcaster_user_id"@ != "from_broadcaster_user_name"@);
            assert("to_broadcaster_user_login"@ != "from_broadcaster_user_id"@);
            assert("to_broadcaster_user_login"@ != "from_broadcaster_user_login"@);
            assert("to_broadcaster_user_login"@ != "from_broadcaster_user_name"@);
            assert("to_broadcaster_user_login"@ != "to_broadcaster_user_id"@);
            assert("to_broadcaster_user_name"@[0] != "from_broadcaster_user_id"@[0]);
            assert("to_broadcaster_user_name"@ != "from_broadcaster_user_id"@);
            assert("to_broadcaster_user_name"@ != "from_broadcaster_user_login"@);
            assert("to_broadcaster_user_name"@ != "from_broadcaster_user_name"@);
            assert("to_broadcaster_user_name"@ != "to_broadcaster_user_id"@);
            assert("to_broadcaster_user_name"@ != "to_broadcaster_user_login"@);
            assert("viewers"@ != "from_broadcaster_user_id"@);
            assert("viewers"@ != "from_broadcaster_user_login"@);
            assert("viewers"@ != "from_broadcaster_user_name"@);
            assert("viewers"@ != "to_broadcaster_user_id"@);
            assert("viewers"@ != "to_broadcaster_user_login"@);
            assert("viewers"@ != "to_broadcaster_user_name"@);
        }
        r
    }
}

/// A user who predicted with many channel points; the names may come with a `user_` prefix.
#[derive(Debug)]
pub struct TopPredictor {
    /// The user's id.
    pub id: String,
    /// The user's display name.
    pub name: String,
    /// The user's login.
    pub login: String,
    /// Channel points used.
    pub channel_points_used: i64,
    /// Channel points won, if resolved.
    pub channel_points_won: Option<i64>,
}

impl TopPredictor {
    /// Whether `k` names a member that the record reads.
    pub open spec fn knows(k: Seq<char>) -> bool {
        k == "id"@
            || k == "user_id"@
            || k == "name"@
            || k == "user_name"@
            || k == "login"@
            || k == "user_login"@
            || k == "channel_points_used"@
            || k == "channel_points_won"@
    }

    /// [`TopPredictor::knows`] as a predicate.
    pub open spec fn known() -> spec_fn(Seq<char>) -> bool {
        |k: Seq<char>| TopPredictor::knows(k)
    }

    fn is_known(k: &str) -> (r: bool)
        ensures
            r == TopPredictor::knows(k@),
    {
        str_eq(k, "id")
            || str_eq(k, "user_id")
            || str_eq(k, "name")
            || str_eq(k, "user_name")
            || str_eq(k, "login")
            || str_eq(k, "user_login")
            || str_eq(k, "channel_points_used")
            || str_eq(k, "channel_points_won")
    }

    /// Finds the first member that the record does not read.
    pub fn unknown_member(o: &Vec<(String, Json)>) -> (r: Option<DecodeError>)
        ensures
            r == first_unknown(o@, TopPredictor::known()),
    {
        let mut i: usize = 0;
        assert(o@.subrange(0, o@.len() as int) == o@);
        while i < o.len()
            invariant
                i <= o@.len(),
                first_unknown(o@, TopPredictor::known()) == first_unknown(o@.subrange(i as int, o@.len() as int), TopPredictor::known()),
            decreases o@.len() - i,
        {
            let ghost rest = o@.subrange(i as int, o@.len() as int);
            assert(rest.drop_first() == o@.subrange(i + 1, o@.len() as int));
            if !TopPredictor::is_known(o[i].0.as_str()) {
                return Some(DecodeError::UnknownField(o[i].0.clone()));
            }
            i = i + 1;
        }
        None
    }

    /// The first error of `o`: a member the record does not read, when those are
    /// denied, then the first field, in declaration order, that cannot be read.
    pub open spec fn error(o: Seq<(String, Json)>, deny: bool) -> Option<DecodeError> {
        either(if deny { first_unknown(o, TopPredictor::known()) } else { None },
        either(err_of(alias_str_member(o, "id", "user_id")),
        either(err_of(alias_str_member(o, "name", "user_name")),
        either(err_of(alias_str_member(o, "login", "user_login")),
        either(err_of(int_member(o, "channel_points_used")),
        err_of(opt_int_member(o, "channel_points_won")))))))
    }

    /// Whether every field of `x` is the value read from `o`.
    pub open spec fn reads_as(o: Seq<(String, Json)>, x: TopPredictor) -> bool {
        &&& x.id == alias_str_member(o, "id", "user_id")->Ok_0
        &&& x.name == alias_str_member(o, "name", "user_name")->Ok_0
        &&& x.login == alias_str_member(o, "login", "user_login")->Ok_0
        &&& x.channel_points_used == int_member(o, "channel_points_used")->Ok_0
        &&& x.channel_points_won == opt_int_member(o, "channel_points_won")->Ok_0
    }

    /// Whether `r` is what decoding the members `o` yields.
    pub open spec fn decoded(o: Seq<(String, Json)>, deny: bool, r: Result<TopPredictor, DecodeError>) -> bool {
        match r {
            Ok(x) => TopPredictor::error(o, deny) is None && TopPredictor::reads_as(o, x),
            Err(e) => TopPredictor::error(o, deny) == Some(e),
        }
    }

    /// Decodes the record from the members of a JSON object; with `deny`, a
    /// member that the record does not read is an error.
    pub fn decode(o: &Vec<(String, Json)>, deny: bool) -> (r: Result<TopPredictor, DecodeError>)
        ensures
            TopPredictor::decoded(o@, deny, r),
    {
        if deny {
            if let Some(e) = TopPredictor::unknown_member(o) {
                return Err(e);
            }
        }
        let id = match read_alias_str(o, "id", "user_id") {
            Ok(v) => v,
            Err(e) => return Err(e),
        };
        let name = match read_alias_str(o, "name", "user_name") {
            Ok(v) => v,
            Err(e) => return Err(e),
        };
        let login = match read_alias_str(o, "login", "user_login") {
            Ok(v) => v,
            Err(e) => return Err(e),
        };
        let channel_points_used = match read_int(o, "channel_points_used") {
            Ok(v) => v,
            Err(e) => return Err(e),
        };
        let channel_points_won = match read_opt_int(o, "channel_points_won") {
            Ok(v) => v,
            Err(e) => return Err(e),
        };
        Ok(TopPredictor { id, name, login, channel_points_used, channel_points_won })
    }

    /// Encodes the record as the members of a JSON object; decoding them, in
    /// either mode, gives the record back.
    pub fn to_members(&self) -> (r: Vec<(String, Json)>)
        ensures
            TopPredictor::decoded(r@, false, Ok(*self)),
            TopPredictor::decoded(r@, true, Ok(*self)),
    {
        let r = vec![
            (String::from_str("id"), Json::Str(self.id.clone())),
            (String::from_str("name"), Json::Str(self.name.clone())),
            (String::from_str("login"), Json::Str(self.login.clone())),
            (String::from_str("channel_points_used"), Json::Int(self.channel_points_used)),
            (String::from_str("channel_points_won"), opt_int_json(&self.channel_points_won)),
        ];
        proof {
            reveal_with_fuel(member, 6);
            reveal_with_fuel(first_unknown, 6);
            reveal_strlit("id");
            reveal_strlit("user_id");
            reveal_strlit("name");
            reveal_strlit("user_name");
            reveal_strlit("login");
            reveal_strlit("user_login");
            reveal_strlit("channel_points_used");
            reveal_strlit("channel_points_won");
            assert("id"@.len() == 2);
            assert("user_id"@.len() == 7);
            assert("name"@.len() == 4);
            assert("user_name"@.len() == 9);
            assert("login"@.len() == 5);
            assert("user_login"@.len() == 10);
            assert("channel_points_used"@.len() == 19);
            assert("channel_points_won"@.len() == 18);
            assert("user_id"@ != "id"@);
            assert("name"@ != "id"@);
            assert("name"@ != "user_id"@);
            assert("user_name"@ != "id"@);
            assert("user_name"@ != "user_id"@);
            assert("user_name"@ != "name"@);
            assert("login"@ != "id"@);
            assert("login"@ != "user_id"@);
            assert("login"@ != "name"@);
            assert("login"@ != "user_name"@);
            assert("user_login"@ != "id"@);
            assert("user_login"@ != "user_id"@);
            assert("user_login"@ != "name"@);
            assert("user_login"@ != "user_name"@);
            assert("user_login"@ != "login"@);
            assert("channel_points_used"@ != "id"@);
            assert("channel_points_used"@ != "user_id"@);
            assert("channel_points_used"@ != "name"@);
            assert("channel_points_used"@ != "user_name"@);
            assert("channel_points_used"@ != "login"@);
            assert("channel_points_used"@ != "user_login"@);
            assert("channel_points_won"@ != "id"@);
            assert("channel_points_won"@ != "user_id"@);
            assert("channel_points_won"@ != "name"@);
            assert("channel_points_won"@ != "user_name"@);
            assert("channel_points_won"@ != "login"@);
            assert("channel_points_won"@ != "user_login"@);
            assert("channel_points_won"@ != "channel_points_used"@);
        }
        r
    }
}

impl TopPredictor {
    /// The first error among the items of an array of `TopPredictor` records.
    pub open spec fn list_error(items: Seq<Json>, key: &'static str, deny: bool) -> Option<DecodeError>
        decreases items.len(),
    {
        if items.len() == 0 {
            None
        } else {
            either(
                match items[0] {
                    Json::Object(m) => TopPredictor::error(m@, deny),
                    _ => Some(DecodeError::WrongShape(key)),
                },
                TopPredictor::list_error(items.drop_first(), key, deny),
            )
        }
    }

    /// Whether each item is an object that reads as the record at its index.
    pub open spec fn list_reads_as(items: Seq<Json>, v: Seq<TopPredictor>) -> bool {
        &&& items.len() == v.len()
        &&& forall|i: int| 0 <= i < items.len() ==> (#[trigger] items[i] matches Json::Object(m) && TopPredictor::reads_as(m@, v[i]))
    }

    /// Decodes an array of records.
    pub fn decode_list(items: &Vec<Json>, key: &'static str, deny: bool) -> (r: Result<Vec<TopPredictor>, DecodeError>)
        ensures
            match TopPredictor::list_error(items@, key, deny) {
                Some(e) => r == Err::<Vec<TopPredictor>, DecodeError>(e),
                None => r is Ok && TopPredictor::list_reads_as(items@, r->Ok_0@),
            },
    {
        let mut out: Vec<TopPredictor> = Vec::new();
        let mut i: usize = 0;
        assert(items@.subrange(0, items@.len() as int) == items@);
        while i < items.len()
            invariant
                i <= items@.len(),
                out@.len() == i,
                TopPredictor::list_error(items@, key, deny) == TopPredictor::list_error(items@.subrange(i as int, items@.len() as int), key, deny),
                forall|k: int| 0 <= k < i ==> (#[trigger] items@[k] matches Json::Object(m) && TopPredictor::reads_as(m@, out@[k])),
            decreases items@.len() - i,
        {
            let ghost rest = items@.subrange(i as int, items@.len() as int);
            assert(rest.drop_first() == items@.subrange(i + 1, items@.len() as int));
            assert(rest[0] == items@[i as int]);
            match &items[i] {
                Json::Object(m) => match TopPredictor::decode(m, deny) {
                    Ok(x) => out.push(x),
                    Err(e) => return Err(e),
                },
                _ => return Err(DecodeError::WrongShape(key)),
            }
            i = i + 1;
        }
        Ok(out)
    }

    proof fn lemma_list_error_none(items: Seq<Json>, key: &'static str, deny: bool)
        requires
            forall|i: int| 0 <= i < items.len() ==> (#[trigger] items[i] matches Json::Object(m) && TopPredictor::error(m@, deny) is None),
        ensures
            TopPredictor::list_error(items, key, deny) is None,
        decreases items.len(),
    {
        if items.len() > 0 {
            assert forall|i: int| 0 <= i < items.drop_first().len() implies (#[trigger] items.drop_first()[i] matches Json::Object(m) && TopPredictor::error(m@, deny) is None) by {
                assert(items.drop_first()[i] == items[i + 1]);
            }
            TopPredictor::lemma_list_error_none(items.drop_first(), key, deny);
        }
    }

    /// Encodes a list of records as an array of objects; decoding it gives the list back.
    pub fn list_to_json(v: &Vec<TopPredictor>) -> (r: Json)
        ensures
            r matches Json::Array(items) && TopPredictor::list_reads_as(items@, v@)
                && (forall|key: &'static str, deny: bool| #[trigger] TopPredictor::list_error(items@, key, deny) is None),
    {
        let mut items: Vec<Json> = Vec::new();
        let mut i: usize = 0;
        while i < v.len()
            invariant
                i <= v@.len(),
                items@.len() == i,
                forall|k: int| 0 <= k < i ==> (#[trigger] items@[k] matches Json::Object(m) && TopPredictor::error(m@, false) is None && TopPredictor::error(m@, true) is None && TopPredictor::reads_as(m@, v@[k])),
            decreases v@.len() - i,
        {
            let m = v[i].to_members();
            items.push(Json::Object(m));
            i = i + 1;
        }
        assert forall|key: &'static str, deny: bool| #[trigger] TopPredictor::list_error(items@, key, deny) is None by {
            TopPredictor::lemma_list_error_none(items@, key, deny);
        }
        Json::Array(items)
    }
}

/// An outcome of a prediction.
#[derive(Debug)]
pub struct PredictionOutcome {
    /// The outcome id.
    pub id: String,
    /// The outcome title.
    pub title: String,
    /// The number of users who chose it.
    pub users: Option<i64>,
    /// The channel points spent on it.
    pub channel_points: Option<i64>,
    /// The users who spent the most on it.
    pub top_predictors: Option<Vec<TopPredictor>>,
    /// The outcome color.
    pub color: String,
}

impl PredictionOutcome {
    /// Whether `k` names a member that the record reads.
    pub open spec fn knows(k: Seq<char>) -> bool {
        k == "id"@
            || k == "title"@
            || k == "users"@
            || k == "channel_points"@
            || k == "top_predictors"@
            || k == "color"@
    }

    /// [`PredictionOutcome::knows`] as a predicate.
    pub open spec fn known() -> spec_fn(Seq<char>) -> bool {
        |k: Seq<char>| PredictionOutcome::knows(k)
    }

    fn is_known(k: &str) -> (r: bool)
        ensures
            r == PredictionOutcome::knows(k@),
    {
        str_eq(k, "id")
            || str_eq(k, "title")
            || str_eq(k, "users")
            || str_eq(k, "channel_points")
            || str_eq(k, "top_predictors")
            || str_eq(k, "color")
    }

    /// Finds the first member that the record does not read.
    pub fn unknown_member(o: &Vec<(String, Json)>) -> (r: Option<DecodeError>)
        ensures
            r == first_unknown(o@, PredictionOutcome::known()),
    {
        let mut i: usize = 0;
        assert(o@.subrange(0, o@.len() as int) == o@);
        while i < o.len()
            invariant
                i <= o@.len(),
                first_unknown(o@, PredictionOutcome::known()) == first_unknown(o@.subrange(i as int, o@.len() as int), PredictionOutcome::known()),
            decreases o@.len() - i,
        {
            let ghost rest = o@.subrange(i as int, o@.len() as int);
            assert(rest.drop_first() == o@.subrange(i + 1, o@.len() as int));
            if !PredictionOutcome::is_known(o[i].0.as_str()) {
                return Some(DecodeError::UnknownField(o[i].0.clone()));
            }
            i = i + 1;
        }
        None
    }

    /// The first error of `o`: a member the record does not read, when those are
    /// denied, then the first field, in declaration order, that cannot be read.
    pub open spec fn error(o: Seq<(String, Json)>, deny: bool) -> Option<DecodeError> {
        either(if deny { first_unknown(o, PredictionOutcome::known()) } else { None },
        either(err_of(str_member(o, "id")),
        either(err_of(str_member(o, "title")),
        either(err_of(opt_int_member(o, "users")),
        either(err_of(opt_int_member(o, "channel_points")),
        either(match member(o, "top_predictors"@) { Some(Json::Array(items)) => TopPredictor::list_error(items@, "top_predictors", deny), Some(Json::Null) => None, None => None, Some(_) => Some(DecodeError::WrongShape("top_predictors")) },
        err_of(str_member(o, "color"))))))))
    }

    /// Whether every field of `x` is the value read from `o`.
    pub open spec fn reads_as(o: Seq<(String, Json)>, x: PredictionOutcome) -> bool {
        &&& x.id == str_member(o, "id")->Ok_0
        &&& x.title == str_member(o, "title")->Ok_0
        &&& x.users == opt_int_member(o, "users")->Ok_0
        &&& x.channel_points == opt_int_member(o, "channel_points")->Ok_0
        &&& (match member(o, "top_predictors"@) { Some(Json::Array(items)) => x.top_predictors is Some && TopPredictor::list_reads_as(items@, x.top_predictors->Some_0@), _ => x.top_predictors is None })
        &&& x.color == str_member(o, "color")->Ok_0
    }

    /// Whether `r` is what decoding the members `o` yields.
    pub open spec fn decoded(o: Seq<(String, Json)>, deny: bool, r: Result<PredictionOutcome, DecodeError>) -> bool {
        match r {
            Ok(x) => PredictionOutcome::error(o, deny) is None && PredictionOutcome::reads_as(o, x),
            Err(e) => PredictionOutcome::error(o, deny) == Some(e),
        }
    }

    /// Decodes the record from the members of a JSON object; with `deny`, a
    /// member that the record does not read is an error.
    pub fn decode(o: &Vec<(String, Json)>, deny: bool) -> (r: Result<PredictionOutcome, DecodeError>)
        ensures
            PredictionOutcome::decoded(o@, deny, r),
    {
        if deny {
            if let Some(e) = PredictionOutcome::unknown_member(o) {
                return Err(e);
            }
        }
        let id = match read_str(o, "id") {
            Ok(v) => v,
            Err(e) => return Err(e),
        };
        let title = match read_str(o, "title") {
            Ok(v) => v,
            Err(e) => return Err(e),
        };
        let users = match read_opt_int(o, "users") {
            Ok(v) => v,
            Err(e) => return Err(e),
        };
        let channel_points = match read_opt_int(o, "channel_points") {
            Ok(v) => v,
            Err(e) => return Err(e),
        };
        let top_predictors = match get(o, "top_predictors") {
            Some(Json::Array(items)) => match TopPredictor::decode_list(items, "top_predictors", deny) {
                Ok(v) => Some(v),
                Err(e) => return Err(e),
            },
            Some(Json::Null) => None,
            None => None,
            Some(_) => return Err(DecodeError::WrongShape("top_predictors")),
        };
        let color = match read_str(o, "color") {
            Ok(v) => v,
            Err(e) => return Err(e),
        };
        Ok(PredictionOutcome { id, title, users, channel_points, top_predictors, color })
    }

    /// Encodes the record as the members of a JSON object; decoding them, in
    /// either mode, gives the record back.
    pub fn to_members(&self) -> (r: Vec<(String, Json)>)
        ensures
            PredictionOutcome::decoded(r@, false, Ok(*self)),
            PredictionOutcome::decoded(r@, true, Ok(*self)),
    {
        let r = vec![
            (String::from_str("id"), Json::Str(self.id.clone())),
            (String::from_str("title"), Json::Str(self.title.clone())),
            (String::from_str("users"), opt_int_json(&self.users)),
            (String::from_str("channel_points"), opt_int_json(&self.channel_points)),
            (String::from_str("top_predictors"), match &self.top_predictors {
                Some(v) => TopPredictor::list_to_json(v),
                None => Json::Null,
            }),
            (String::from_str("color"), Json::Str(self.color.clone())),
        ];
        proof {
            reveal_with_fuel(member, 7);
            reveal_with_fuel(first_unknown, 7);
            reveal_strlit("id");
            reveal_strlit("title");
            reveal_strlit("users");
            reveal_strlit("channel_points");
            reveal_strlit("top_predictors");
            reveal_strlit("color");
            assert("id"@.len() == 2);
            assert("title"@.len() == 5);
            assert("users"@.len() == 5);
            assert("channel_points"@.len() == 14);
            assert("top_predictors"@.len() == 14);
            assert("color"@.len() == 5);
            assert("title"@ != "id"@);
            assert("users"@ != "id"@);
            assert("users"@[0] != "title"@[0]);
            assert("users"@ != "title"@);
            assert("channel_points"@ != "id"@);
            assert("channel_points"@ != "title"@);
            assert("channel_points"@ != "users"@);
            assert("top_predictors"@ != "id"@);
            assert("top_predictors"@ != "title"@);
            assert("top_predictors"@ != "users"@);
            assert("top_predictors"@[0] != "channel_points"@[0]);
            assert("top_predictors"@ != "channel_points"@);
            assert("color"@ != "id"@);
            assert("color"@[0] != "title"@[0]);
            assert("color"@ != "title"@);
            assert("color"@[0] != "users"@[0]);
            assert("color"@ != "users"@);
            assert("color"@ != "channel_points"@);
            assert("color"@ != "top_predictors"@);
        }
        r
    }
}

impl PredictionOutcome {
    /// The first error among the items of an array of `PredictionOutcome` records.
    pub open spec fn list_error(items: Seq<Json>, key: &'static str, deny: bool) -> Option<DecodeError>
        decreases items.len(),
    {
        if items.len() == 0 {
            None
        } else {
            either(
                match items[0] {
                    Json::Object(m) => PredictionOutcome::error(m@, deny),
                    _ => Some(DecodeError::WrongShape(key)),
                },
                PredictionOutcome::list_error(items.drop_first(), key, deny),
            )
        }
    }

    /// Whether each item is an object that reads as the record at its index.
    pub open spec fn list_reads_as(items: Seq<Json>, v: Seq<PredictionOutcome>) -> bool {
        &&& items.len() == v.len()
        &&& forall|i: int| 0 <= i < items.len() ==> (#[trigger] items[i] matches Json::Object(m) && PredictionOutcome::reads_as(m@, v[i]))
    }

    /// Decodes an array of records.
    pub fn decode_list(items: &Vec<Json>, key: &'static str, deny: bool) -> (r: Result<Vec<PredictionOutcome>, DecodeError>)
        ensures
            match PredictionOutcome::list_error(items@, key, deny) {
                Some(e) => r == Err::<Vec<PredictionOutcome>, DecodeError>(e),
                None => r is Ok && PredictionOutcome::list_reads_as(items@, r->Ok_0@),
            },
    {
        let mut out: Vec<PredictionOutcome> = Vec::new();
        let mut i: usize = 0;
        assert(items@.subrange(0, items@.len() as int) == items@);
        while i < items.len()
            invariant
                i <= items@.len(),
                out@.len() == i,
                PredictionOutcome::list_error(items@, key, deny) == PredictionOutcome::list_error(items@.subrange(i as int, items@.len() as int), key, deny),
                forall|k: int| 0 <= k < i ==> (#[trigger] items@[k] matches Json::Object(m) && PredictionOutcome::reads_as(m@, out@[k])),
            decreases items@.len() - i,
        {
            let ghost rest = items@.subrange(i as int, items@.len() as int);
            assert(rest.drop_first() == items@.subrange(i + 1, items@.len() as int));
            assert(rest[0] == items@[i as int]);
            match &items[i] {
                Json::Object(m) => match PredictionOutcome::decode(m, deny) {
                    Ok(x) => out.push(x),
                    Err(e) => return Err(e),
                },
                _ => return Err(DecodeError::WrongShape(key)),
            }
            i = i + 1;
        }
        Ok(out)
    }

    proof fn lemma_list_error_none(items: Seq<Json>, key: &'static str, deny: bool)
        requires
            forall|i: int| 0 <= i < items.len() ==> (#[trigger] items[i] matches Json::Object(m) && PredictionOutcome::error(m@, deny) is None),
        ensures
            PredictionOutcome::list_error(items, key, deny) is None,
        decreases items.len(),
    {
        if items.len() > 0 {
            assert forall|i: int| 0 <= i < items.drop_first().len() implies (#[trigger] items.drop_first()[i] matches Json::Object(m) && PredictionOutcome::error(m@, deny) is None) by {
                assert(items.drop_first()[i] == items[i + 1]);
            }
            PredictionOutcome::lemma_list_error_none(items.drop_first(), key, deny);
        }
    }

    /// Encodes a list of records as an array of objects; decoding it gives the list back.
    pub fn list_to_json(v: &Vec<PredictionOutcome>) -> (r: Json)
        ensures
            r matches Json::Array(items) && PredictionOutcome::list_reads_as(items@, v@)
                && (forall|key: &'static str, deny: bool| #[trigger] PredictionOutcome::list_error(items@, key, deny) is None),
    {
        let mut items: Vec<Json> = Vec::new();
        let mut i: usize = 0;
        while i < v.len()
            invariant
                i <= v@.len(),
                items@.len() == i,
                forall|k: int| 0 <= k < i ==> (#[trigger] items@[k] matches Json::Object(m) && PredictionOutcome::error(m@, false) is None && PredictionOutcome::error(m@, true) is None && PredictionOutcome::reads_as(m@, v@[k])),
            decreases v@.len() - i,
        {
            let m = v[i].to_members();
            items.push(Json::Object(m));
            i = i + 1;
        }
        assert forall|key: &'static str, deny: bool| #[trigger] PredictionOutcome::list_error(items@, key, deny) is None by {
            PredictionOutcome::lemma_list_error_none(items@, key, deny);
        }
        Json::Array(items)
    }
}

/// Event of `channel.prediction.lock` v1.
#[derive(Debug)]
pub struct ChannelPredictionLockV1Payload {
    /// The broadcaster's user id.
    pub broadcaster_user_id: String,
    /// The broadcaster's login.
    pub broadcaster_user_login: String,
    /// The broadcaster's display name.
    pub broadcaster_user_name: String,
    /// The prediction id.
    pub id: String,
    /// When the prediction locked.
    pub locked_at: Timestamp,
    /// The outcomes, with their top predictors.
    pub outcomes: Vec<PredictionOutcome>,
    /// When the prediction started.
    pub started_at: Timestamp,
    /// The prediction title.
    pub title: String,
}

impl ChannelPredictionLockV1Payload {
    /// Whether `k` names a member that the record reads.
    pub open spec fn knows(k: Seq<char>) -> bool {
        k == "broadcaster_user_id"@
            || k == "broadcaster_user_login"@
            || k == "broadcaster_user_name"@
            || k == "id"@
            || k == "locked_at"@
            || k == "outcomes"@
            || k == "started_at"@
            || k == "title"@
    }

    /// [`ChannelPredictionLockV1Payload::knows`] as a predicate.
    pub open spec fn known() -> spec_fn(Seq<char>) -> bool {
        |k: Seq<char>| ChannelPredictionLockV1Payload::knows(k)
    }

    fn is_known(k: &str) -> (r: bool)
        ensures
            r == ChannelPredictionLockV1Payload::knows(k@),
    {
        str_eq(k, "broadcaster_user_id")
            || str_eq(k, "broadcaster_user_login")
            || str_eq(k, "broadcaster_user_name")
            || str_eq(k, "id")
            || str_eq(k, "locked_at")
            || str_eq(k, "outcomes")
            || str_eq(k, "started_at")
            || str_eq(k, "title")
    }

    /// Finds the first member that the record does not read.
    pub fn unknown_member(o: &Vec<(String, Json)>) -> (r: Option<DecodeError>)
        ensures
            r == first_unknown(o@, ChannelPredictionLockV1Payload::known()),
    {
        let mut i: usize = 0;
        assert(o@.subrange(0, o@.len() as int) == o@);
        while i < o.len()
            invariant
                i <= o@.len(),
                first_unknown(o@, ChannelPredictionLockV1Payload::known()) == first_unknown(o@.subrange(i as int, o@.len() as int), ChannelPredictionLockV1Payload::known()),
            decreases o@.len() - i,
        {
            let ghost rest = o@.subrange(i as int, o@.len() as int);
            assert(rest.drop_first() == o@.subrange(i + 1, o@.len() as int));
            if !ChannelPredictionLockV1Payload::is_known(o[i].0.as_str()) {
                return Some(DecodeError::UnknownField(o[i].0.clone()));
            }
            i = i + 1;
        }
        None
    }

    /// The first error of `o`: a member the record does not read, when those are
    /// denied, then the first field, in declaration order, that cannot be read.
    pub open spec fn error(o: Seq<(String, Json)>, deny: bool) -> Option<DecodeError> {
        either(if deny { first_unknown(o, ChannelPredictionLockV1Payload::known()) } else { None },
        either(err_of(str_member(o, "broadcaster_user_id")),
        either(err_of(str_member(o, "broadcaster_user_login")),
        either(err_of(str_member(o, "broadcaster_user_name")),
        either(err_of(str_member(o, "id")),
        either(err_of(timestamp_member(o, "locked_at")),
        either(match member(o, "outcomes"@) { Some(Json::Array(items)) => PredictionOutcome::list_error(items@, "outcomes", deny), Some(_) => Some(DecodeError::WrongShape("outcomes")), None => Some(DecodeError::MissingField("outcomes")) },
        either(err_of(timestamp_member(o, "started_at")),
        err_of(str_member(o, "title"))))))))))
    }

    /// Whether every field of `x` is the value read from `o`.
    pub open spec fn reads_as(o: Seq<(String, Json)>, x: ChannelPredictionLockV1Payload) -> bool {
        &&& x.broadcaster_user_id == str_member(o, "broadcaster_user_id")->Ok_0
        &&& x.broadcaster_user_login == str_member(o, "broadcaster_user_login")->Ok_0
        &&& x.broadcaster_user_name == str_member(o, "broadcaster_user_name")->Ok_0
        &&& x.id == str_member(o, "id")->Ok_0
        &&& x.locked_at@ == timestamp_member(o, "locked_at")->Ok_0
        &&& (member(o, "outcomes"@) matches Some(Json::Array(items)) && PredictionOutcome::list_reads_as(items@, x.outcomes@))
        &&& x.started_at@ == timestamp_member(o, "started_at")->Ok_0
        &&& x.title == str_member(o, "title")->Ok_0
    }

    /// Whether `r` is what decoding the members `o` yields.
    pub open spec fn decoded(o: Seq<(String, Json)>, deny: bool, r: Result<ChannelPredictionLockV1Payload, DecodeError>) -> bool {
        match r {
            Ok(x) => ChannelPredictionLockV1Payload::error(o, deny) is None && ChannelPredictionLockV1Payload::reads_as(o, x),
            Err(e) => ChannelPredictionLockV1Payload::error(o, deny) == Some(e),
        }
    }

    /// Decodes the record from the members of a JSON object; with `deny`, a
    /// member that the record does not read is an error.
    pub fn decode(o: &Vec<(String, Json)>, deny: bool) -> (r: Result<ChannelPredictionLockV1Payload, DecodeError>)
        ensures
            ChannelPredictionLockV1Payload::decoded(o@, deny, r),
    {
        if deny {
            if let Some(e) = ChannelPredictionLockV1Payload::unknown_member(o) {
                return Err(e);
            }
        }
        let broadcaster_user_id = match read_str(o, "broadcaster_user_id") {
            Ok(v) => v,
            Err(e) => return Err(e),
        };
        let broadcaster_user_login = match read_str(o, "broadcaster_user_login") {
            Ok(v) => v,
            Err(e) => return Err(e),
        };
        let broadcaster_user_name = match read_str(o, "broadcaster_user_name") {
            Ok(v) => v,
            Err(e) => return Err(e),
        };
        let id = match read_str(o, "id") {
            Ok(v) => v,
            Err(e) => return Err(e),
        };
        let locked_at = match read_timestamp(o, "locked_at") {
            Ok(v) => v,
            Err(e) => return Err(e),
        };
        let outcomes = match get(o, "outcomes") {
            Some(Json::Array(items)) => match PredictionOutcome::decode_list(items, "outcomes", deny) {
                Ok(v) => v,
                Err(e) => return Err(e),
            },
            Some(_) => return Err(DecodeError::WrongShape("outcomes")),
            None => return Err(DecodeError::MissingField("outcomes")),
        };
        let started_at = match read_timestamp(o, "started_at") {
            Ok(v) => v,
            Err(e) => return Err(e),
        };
        let title = match read_str(o, "title") {
            Ok(v) => v,
            Err(e) => return Err(e),
        };
        Ok(ChannelPredictionLockV1Payload { broadcaster_user_id, broadcaster_user_login, broadcaster_user_name, id, locked_at, outcomes, started_at, title })
    }

    /// Encodes the record as the members of a JSON object; decoding them, in
    /// either mode, gives the record back.
    pub fn to_members(&self) -> (r: Vec<(String, Json)>)
        ensures
            ChannelPredictionLockV1Payload::decoded(r@, false, Ok(*self)),
            ChannelPredictionLockV1Payload::decoded(r@, true, Ok(*self)),
    {
        let r = vec![
            (String::from_str("broadcaster_user_id"), Json::Str(self.broadcaster_user_id.clone())),
            (String::from_str("broadcaster_user_login"), Json::Str(self.broadcaster_user_login.clone())),
            (String::from_str("broadcaster_user_name"), Json::Str(self.broadcaster_user_name.clone())),
            (String::from_str("id"), Json::Str(self.id.clone())),
            (String::from_str("locked_at"), Json::Str(self.locked_at.to_text())),
            (String::from_str("outcomes"), PredictionOutcome::list_to_json(&self.outcomes)),
            (String::from_str("started_at"), Json::Str(self.started_at.to_text())),
            (String::from_str("title"), Json::Str(self.title.clone())),
        ];
        proof {
            reveal_with_fuel(member, 9);
            reveal_with_fuel(first_unknown, 9);
            reveal_strlit("broadcaster_user_id");
            reveal_strlit("broadcaster_user_login");
            reveal_strlit("broadcaster_user_name");
            reveal_strlit("id");
            reveal_strlit("locked_at");
            reveal_strlit("outcomes");
            reveal_strlit("started_at");
            reveal_strlit("title");
            assert("broadcaster_user_id"@.len() == 19);
            assert("broadcaster_user_login"@.len() == 22);
            assert("broadcaster_user_name"@.len() == 21);
            assert("id"@.len() == 2);
            assert("locked_at"@.len() == 9);
            assert("outcomes"@.len() == 8);
            assert("started_at"@.len() == 10);
            assert("title"@.len() == 5);
            assert("broadcaster_user_login"@ != "broadcaster_user_id"@);
            assert("broadcaster_user_name"@ != "broadcaster_user_id"@);
            assert("broadcaster_user_name"@ != "broadcaster_user_login"@);
            assert("id"@ != "broadcaster_user_id"@);
            assert("id"@ != "broadcaster_user_login"@);
            assert("id"@ != "broadcaster_user_name"@);
            assert("locked_at"@ != "broadcaster_user_id"@);
            assert("locked_at"@ != "broadcaster_user_login"@);
            assert("locked_at"@ != "broadcaster_user_name"@);
            assert("locked_at"@ != "id"@);
            assert("outcomes"@ != "broadcaster_user_id"@);
            assert("outcomes"@ != "broadcaster_user_login"@);
            assert("outcomes"@ != "broadcaster_user_name"@);
            assert("outcomes"@ != "id"@);
            assert("outcomes"@ != "locked_at"@);
            assert("started_at"@ != "broadcaster_user_id"@);
            assert("started_at"@ != "broadcaster_user_login"@);
            assert("started_at"@ != "broadcaster_user_name"@);
            assert("started_at"@ != "id"@);
            assert("started_at"@ != "locked_at"@);
            assert("started_at"@ != "outcomes"@);
            assert("title"@ != "broadcaster_user_id"@);
            assert("title"@ != "broadcaster_user_login"@);
            assert("title"@ != "broadcaster_user_name"@);
            assert("title"@ != "id"@);
            assert("title"@ != "locked_at"@);
            assert("title"@ != "outcomes"@);
            assert("title"@ != "started_at"@);
        }
        r
    }
}

/// The type of a hype train contribution.
#[derive(Clone, Copy, Debug, PartialEq, Eq, Structural)]
pub enum ContributionType {
    /// Bits.
    Bits,
    /// Channel subscriptions, gifted or not.
    Subscription,
    /// Any other contribution.
    Other,
}

impl ContributionType {
    /// The value named by the wire text `s`, if any.
    pub open spec fn of_wire(s: Seq<char>) -> Option<ContributionType> {
        if s == "bits"@ {
            Some(ContributionType::Bits)
        } else if s == "subscription"@ {
            Some(ContributionType::Subscription)
        } else if s == "other"@ {
            Some(ContributionType::Other)
        } else {
            None
        }
    }

    /// The wire text of the value.
    pub open spec fn wire(self) -> Seq<char> {
        match self {
            ContributionType::Bits => "bits"@,
            ContributionType::Subscription => "subscription"@,
            ContributionType::Other => "other"@,
        }
    }

    /// Reads a value from its wire text.
    pub fn from_wire(s: &str) -> (r: Option<ContributionType>)
        ensures
            r == ContributionType::of_wire(s@),
    {
        if str_eq(s, "bits") {
            Some(ContributionType::Bits)
        } else if str_eq(s, "subscription") {
            Some(ContributionType::Subscription)
        } else if str_eq(s, "other") {
            Some(ContributionType::Other)
        } else {
            None
        }
    }

    /// The wire text of the value.
    pub fn as_str(&self) -> (r: &'static str)
        ensures
            r@ == self.wire(),
    {
        match self {
            ContributionType::Bits => "bits",
            ContributionType::Subscription => "subscription",
            ContributionType::Other => "other",
        }
    }

    /// The value of the member `key`: a string that names a known value.
    pub open spec fn member(o: Seq<(String, Json)>, key: &'static str) -> Result<ContributionType, DecodeError> {
        match str_member(o, key) {
            Ok(s) => match ContributionType::of_wire(s@) {
                Some(v) => Ok(v),
                None => Err(DecodeError::UnknownValue { field: key, raw: s }),
            },
            Err(e) => Err(e),
        }
    }

    /// Reads the member `key`.
    pub fn read(o: &Vec<(String, Json)>, key: &'static str) -> (r: Result<ContributionType, DecodeError>)
        ensures
            r == ContributionType::member(o@, key),
    {
        match read_str(o, key) {
            Ok(s) => match ContributionType::from_wire(s.as_str()) {
                Some(v) => Ok(v),
                None => Err(DecodeError::UnknownValue { field: key, raw: s }),
            },
            Err(e) => Err(e),
        }
    }

    /// Reading the wire text of a value gives the value back.
    pub proof fn lemma_wire_round_trip(self)
        ensures
            ContributionType::of_wire(self.wire()) == Some(self),
    {
        reveal_strlit("bits");
        reveal_strlit("subscription");
        reveal_strlit("other");
        assert("bits"@.len() == 4);
        assert("subscription"@.len() == 12);
        assert("other"@.len() == 5);
        match self {
            ContributionType::Bits => {},
            ContributionType::Subscription => {
                assert("subscription"@ != "bits"@);
            },
            ContributionType::Other => {
                assert("other"@ != "bits"@);
                assert("other"@ != "subscription"@);
            },
        }
    }
}

/// A contribution to a hype train.
#[derive(Debug)]
pub struct Contribution {
    /// The total contributed.
    pub total: i64,
    /// The type of contribution.
    pub type_: ContributionType,
    /// The contributor's id.
    pub user_id: String,
    /// The contributor's login.
    pub user_login: String,
    /// The contributor's display name.
    pub user_name: String,
}

impl Contribution {
    /// Whether `k` names a member that the record reads.
    pub open spec fn knows(k: Seq<char>) -> bool {
        k == "total"@
            || k == "type"@
            || k == "user_id"@
            || k == "user_login"@
            || k == "user_name"@
    }

    /// [`Contribution::knows`] as a predicate.
    pub open spec fn known() -> spec_fn(Seq<char>) -> bool {
        |k: Seq<char>| Contribution::knows(k)
    }

    fn is_known(k: &str) -> (r: bool)
        ensures
            r == Contribution::knows(k@),
    {
        str_eq(k, "total")
            || str_eq(k, "type")
            || str_eq(k, "user_id")
            || str_eq(k, "user_login")
            || str_eq(k, "user_name")
    }

    /// Finds the first member that the record does not read.
    pub fn unknown_member(o: &Vec<(String, Json)>) -> (r: Option<DecodeError>)
        ensures
            r == first_unknown(o@, Contribution::known()),
    {
        let mut i: usize = 0;
        assert(o@.subrange(0, o@.len() as int) == o@);
        while i < o.len()
            invariant
                i <= o@.len(),
                first_unknown(o@, Contribution::known()) == first_unknown(o@.subrange(i as int, o@.len() as int), Contribution::known()),
            decreases o@.len() - i,
        {
            let ghost rest = o@.subrange(i as int, o@.len() as int);
            assert(rest.drop_first() == o@.subrange(i + 1, o@.len() as int));
            if !Contribution::is_known(o[i].0.as_str()) {
                return Some(DecodeError::UnknownField(o[i].0.clone()));
            }
            i = i + 1;
        }
        None
    }

    /// The first error of `o`: a member the record does not read, when those are
    /// denied, then the first field, in declaration order, that cannot be read.
    pub open spec fn error(o: Seq<(String, Json)>, deny: bool) -> Option<DecodeError> {
        either(if deny { first_unknown(o, Contribution::known()) } else { None },
        either(err_of(int_member(o, "total")),
        either(err_of(ContributionType::member(o, "type")),
        either(err_of(str_member(o, "user_id")),
        either(err_of(str_member(o, "user_login")),
        err_of(str_member(o, "user_name")))))))
    }

    /// Whether every field of `x` is the value read from `o`.
    pub open spec fn reads_as(o: Seq<(String, Json)>, x: Contribution) -> bool {
        &&& x.total == int_member(o, "total")->Ok_0
        &&& x.type_ == ContributionType::member(o, "type")->Ok_0
        &&& x.user_id == str_member(o, "user_id")->Ok_0
        &&& x.user_login == str_member(o, "user_login")->Ok_0
        &&& x.user_name == str_member(o, "user_name")->Ok_0
    }

    /// Whether `r` is what decoding the members `o` yields.
    pub open spec fn decoded(o: Seq<(String, Json)>, deny: bool, r: Result<Contribution, DecodeError>) -> bool {
        match r {
            Ok(x) => Contribution::error(o, deny) is None && Contribution::reads_as(o, x),
            Err(e) => Contribution::error(o, deny) == Some(e),
        }
    }

    /// Decodes the record from the members of a JSON object; with `deny`, a
    /// member that the record does not read is an error.
    pub fn decode(o: &Vec<(String, Json)>, deny: bool) -> (r: Result<Contribution, DecodeError>)
        ensures
            Contribution::decoded(o@, deny, r),
    {
        if deny {
            if let Some(e) = Contribution::unknown_member(o) {
                return Err(e);
            }
        }
        let total = match read_int(o, "total") {
            Ok(v) => v,
            Err(e) => return Err(e),
        };
        let type_ = match ContributionType::read(o, "type") {
            Ok(v) => v,
            Err(e) => return Err(e),
        };
        let user_id = match read_str(o, "user_id") {
            Ok(v) => v,
            Err(e) => return Err(e),
        };
        let user_login = match read_str(o, "user_login") {
            Ok(v) => v,
            Err(e) => return Err(e),
        };
        let user_name = match read_str(o, "user_name") {
            Ok(v) => v,
            Err(e) => return Err(e),
        };
        Ok(Contribution { total, type_, user_id, user_login, user_name })
    }

    /// Encodes the record as the members of a JSON object; decoding them, in
    /// either mode, gives the record back.
    pub fn to_members(&self) -> (r: Vec<(String, Json)>)
        ensures
            Contribution::decoded(r@, false, Ok(*self)),
            Contribution::decoded(r@, true, Ok(*self)),
    {
        let r = vec![
            (String::from_str("total"), Json::Int(self.total)),
            (String::from_str("type"), Json::Str(String::from_str(self.type_.as_str()))),
            (String::from_str("user_id"), Json::Str(self.user_id.clone())),
            (String::from_str("user_login"), Json::Str(self.user_login.clone())),
            (String::from_str("user_name"), Json::Str(self.user_name.clone())),
        ];
        proof {
            reveal_with_fuel(member, 6);
            reveal_with_fuel(first_unknown, 6);
            reveal_strlit("total");
            reveal_strlit("type");
            reveal_strlit("user_id");
            reveal_strlit("user_login");
            reveal_strlit("user_name");
            assert("total"@.len() == 5);
            assert("type"@.len() == 4);
            assert("user_id"@.len() == 7);
            assert("user_login"@.len() == 10);
            assert("user_name"@.len() == 9);
            assert("type"@ != "total"@);
            assert("user_id"@ != "total"@);
            assert("user_id"@ != "type"@);
            assert("user_login"@ != "total"@);
            assert("user_login"@ != "type"@);
            assert("user_login"@ != "user_id"@);
            assert("user_name"@ != "total"@);
            assert("user_name"@ != "type"@);
            assert("user_name"@ != "user_id"@);
            assert("user_name"@ != "user_login"@);
            self.type_.lemma_wire_round_trip();
        }
        r
    }
}

} // verus!
