//! The EventSub dispatcher: the schema registry keyed by (kind, version), the
//! notification envelope, and dispatch of the event body to its payload type.
use vstd::prelude::*;

use crate::fields::{
    either, err_of, first_unknown, int_member, object_member, opt_str_json, opt_str_member, read_int, read_object, read_opt_str,
    read_str, read_timestamp, str_member, timestamp_member,
};
use crate::json::{json_of_text, member, parse_json, DecodeError, Json};
use crate::payloads::{
    ChannelCheerV1, ChannelCheerV1Payload, ChannelPredictionLockV1, ChannelPredictionLockV1Payload, ChannelRaidV1,
    ChannelRaidV1Payload, ChannelUpdateV1, ChannelUpdateV1Payload, ChannelUpdateV2, ChannelUpdateV2Payload,
    StreamOfflineV1, StreamOfflineV1Payload, StreamOnlineV1, StreamOnlineV1Payload,
};
use crate::text::str_eq;
use crate::timestamp::Timestamp;

verus! {

/// The kind of an EventSub notification.
#[derive(Clone, Copy, Debug, PartialEq, Eq, Structural)]
pub enum EventType {
    /// The broadcaster starts a stream.
    StreamOnline,
    /// The broadcaster stops a stream.
    StreamOffline,
    /// The channel's properties changed.
    ChannelUpdate,
    /// A user cheers on the channel.
    ChannelCheer,
    /// A broadcaster raids another channel.
    ChannelRaid,
    /// A prediction was locked.
    ChannelPredictionLock,
}

impl EventType {
    /// The value named by the wire text `s`, if any.
    pub open spec fn of_wire(s: Seq<char>) -> Option<EventType> {
        if s == "stream.online"@ {
            Some(EventType::StreamOnline)
        } else if s == "stream.offline"@ {
            Some(EventType::StreamOffline)
        } else if s == "channel.update"@ {
            Some(EventType::ChannelUpdate)
        } else if s == "channel.cheer"@ {
            Some(EventType::ChannelCheer)
        } else if s == "channel.raid"@ {
            Some(EventType::ChannelRaid)
        } else if s == "channel.prediction.lock"@ {
            Some(EventType::ChannelPredictionLock)
        } else {
            None
        }
    }

    /// The wire text of the value.
    pub open spec fn wire(self) -> Seq<char> {
        match self {
            EventType::StreamOnline => "stream.online"@,
            EventType::StreamOffline => "stream.offline"@,
            EventType::ChannelUpdate => "channel.update"@,
            EventType::ChannelCheer => "channel.cheer"@,
            EventType::ChannelRaid => "channel.raid"@,
            EventType::ChannelPredictionLock => "channel.prediction.lock"@,
        }
    }

    /// Reads a value from its wire text.
    pub fn from_wire(s: &str) -> (r: Option<EventType>)
        ensures
            r == EventType::of_wire(s@),
    {
        if str_eq(s, "stream.online") {
            Some(EventType::StreamOnline)
        } else if str_eq(s, "stream.offline") {
            Some(EventType::StreamOffline)
        } else if str_eq(s, "channel.update") {
            Some(EventType::ChannelUpdate)
        } else if str_eq(s, "channel.cheer") {
            Some(EventType::ChannelCheer)
        } else if str_eq(s, "channel.raid") {
            Some(EventType::ChannelRaid)
        } else if str_eq(s, "channel.prediction.lock") {
            Some(EventType::ChannelPredictionLock)
        } else {
            None
        }
    }

    /// The wire text of the value.
    pub fn as_str(&self) -> (r: &'static str)
        ensures
            r@ == self.wire(),
    {
        match self {
            EventType::StreamOnline => "stream.online",
            EventType::StreamOffline => "stream.offline",
            EventType::ChannelUpdate => "channel.update",
            EventType::ChannelCheer => "channel.cheer",
            EventType::ChannelRaid => "channel.raid",
            EventType::ChannelPredictionLock => "channel.prediction.lock",
        }
    }


    /// Reading the wire text of a value gives the value back.
    pub proof fn lemma_wire_round_trip(self)
        ensures
            EventType::of_wire(self.wire()) == Some(self),
    {
        reveal_strlit("stream.online");
        reveal_strlit("stream.offline");
        reveal_strlit("channel.update");
        reveal_strlit("channel.cheer");
        reveal_strlit("channel.raid");
        reveal_strlit("channel.prediction.lock");
        assert("stream.online"@.len() == 13);
        assert("stream.offline"@.len() == 14);
        assert("channel.update"@.len() == 14);
        assert("channel.cheer"@.len() == 13);
        assert("channel.raid"@.len() == 12);
        assert("channel.prediction.lock"@.len() == 23);
        match self {
            EventType::StreamOnline => {},
            EventType::StreamOffline => {
                assert("stream.offline"@ != "stream.online"@);
            },
            EventType::ChannelUpdate => {
                assert("channel.update"@ != "stream.online"@);
                assert("channel.update"@[0] != "stream.offline"@[0]);
                assert("channel.update"@ != "stream.offline"@);
            },
            EventType::ChannelCheer => {
                assert("channel.cheer"@[0] != "stream.online"@[0]);
                assert("channel.cheer"@ != "stream.online"@);
                assert("channel.cheer"@ != "stream.offline"@);
                assert("channel.cheer"@ != "channel.update"@);
            },
            EventType::ChannelRaid => {
                assert("channel.raid"@ != "stream.online"@);
                assert("channel.raid"@ != "stream.offline"@);
                assert("channel.raid"@ != "channel.update"@);
                assert("channel.raid"@ != "channel.cheer"@);
            },
            EventType::ChannelPredictionLock => {
                assert("channel.prediction.lock"@ != "stream.online"@);
                assert("channel.prediction.lock"@ != "stream.offline"@);
                assert("channel.prediction.lock"@ != "channel.update"@);
                assert("channel.prediction.lock"@ != "channel.cheer"@);
                assert("channel.prediction.lock"@ != "channel.raid"@);
            },
        }
    }
}

/// An entry of the schema registry: one (kind, version) pair with its decoder.
#[derive(Clone, Copy, Debug, PartialEq, Eq, Structural)]
pub enum Schema {
    /// `stream.online` version 1.
    StreamOnlineV1,
    /// `stream.offline` version 1.
    StreamOfflineV1,
    /// `channel.update` version 1.
    ChannelUpdateV1,
    /// `channel.update` version 2.
    ChannelUpdateV2,
    /// `channel.cheer` version 1.
    ChannelCheerV1,
    /// `channel.raid` version 1.
    ChannelRaidV1,
    /// `channel.prediction.lock` version 1.
    ChannelPredictionLockV1,
}

impl Schema {
    /// The kind of notification the entry decodes.
    pub open spec fn event_type(self) -> EventType {
        match self {
            Schema::StreamOnlineV1 => EventType::StreamOnline,
            Schema::StreamOfflineV1 => EventType::StreamOffline,
            Schema::ChannelUpdateV1 => EventType::ChannelUpdate,
            Schema::ChannelUpdateV2 => EventType::ChannelUpdate,
            Schema::ChannelCheerV1 => EventType::ChannelCheer,
            Schema::ChannelRaidV1 => EventType::ChannelRaid,
            Schema::ChannelPredictionLockV1 => EventType::ChannelPredictionLock,
        }
    }

    /// The version text of the entry.
    pub open spec fn version(self) -> Seq<char> {
        match self {
            Schema::StreamOnlineV1 => "1"@,
            Schema::StreamOfflineV1 => "1"@,
            Schema::ChannelUpdateV1 => "1"@,
            Schema::ChannelUpdateV2 => "2"@,
            Schema::ChannelCheerV1 => "1"@,
            Schema::ChannelRaidV1 => "1"@,
            Schema::ChannelPredictionLockV1 => "1"@,
        }
    }

    /// The entry registered for the kind text `kind` and the version text `version`.
    pub open spec fn of_key(kind: Seq<char>, version: Seq<char>) -> Option<Schema> {
        match EventType::of_wire(kind) {
            Some(EventType::StreamOnline) => {
                if version == "1"@ {
                    Some(Schema::StreamOnlineV1)
                } else {
                    None
                }
            },
            Some(EventType::StreamOffline) => {
                if version == "1"@ {
                    Some(Schema::StreamOfflineV1)
                } else {
                    None
                }
            },
            Some(EventType::ChannelUpdate) => {
                if version == "1"@ {
                    Some(Schema::ChannelUpdateV1)
                } else if version == "2"@ {
                    Some(Schema::ChannelUpdateV2)
                } else {
                    None
                }
            },
            Some(EventType::ChannelCheer) => {
                if version == "1"@ {
                    Some(Schema::ChannelCheerV1)
                } else {
                    None
                }
            },
            Some(EventType::ChannelRaid) => {
                if version == "1"@ {
                    Some(Schema::ChannelRaidV1)
                } else {
                    None
                }
            },
            Some(EventType::ChannelPredictionLock) => {
                if version == "1"@ {
                    Some(Schema::ChannelPredictionLockV1)
                } else {
                    None
                }
            },
            None => None,
        }
    }

    /// Looks up the entry for a kind and a version.
    pub fn lookup(kind: &str, version: &str) -> (r: Option<Schema>)
        ensures
            r == Schema::of_key(kind@, version@),
    {
        match EventType::from_wire(kind) {
            Some(EventType::StreamOnline) => {
                if str_eq(version, "1") {
                    Some(Schema::StreamOnlineV1)
                } else {
                    None
                }
            },
            Some(EventType::StreamOffline) => {
                if str_eq(version, "1") {
                    Some(Schema::StreamOfflineV1)
                } else {
                    None
                }
            },
            Some(EventType::ChannelUpdate) => {
                if str_eq(version, "1") {
                    Some(Schema::ChannelUpdateV1)
                } else if str_eq(version, "2") {
                    Some(Schema::ChannelUpdateV2)
                } else {
                    None
                }
            },
            Some(EventType::ChannelCheer) => {
                if str_eq(version, "1") {
                    Some(Schema::ChannelCheerV1)
                } else {
                    None
                }
            },
            Some(EventType::ChannelRaid) => {
                if str_eq(version, "1") {
                    Some(Schema::ChannelRaidV1)
                } else {
                    None
                }
            },
            Some(EventType::ChannelPredictionLock) => {
                if str_eq(version, "1") {
                    Some(Schema::ChannelPredictionLockV1)
                } else {
                    None
                }
            },
            None => None,
        }
    }

    /// The kind text of the entry.
    pub fn kind_str(&self) -> (r: &'static str)
        ensures
            r@ == self.event_type().wire(),
    {
        self.event_type_exec().as_str()
    }

    /// The kind of notification the entry decodes.
    pub fn event_type_exec(&self) -> (r: EventType)
        ensures
            r == self.event_type(),
    {
        match self {
            Schema::StreamOnlineV1 => EventType::StreamOnline,
            Schema::StreamOfflineV1 => EventType::StreamOffline,
            Schema::ChannelUpdateV1 => EventType::ChannelUpdate,
            Schema::ChannelUpdateV2 => EventType::ChannelUpdate,
            Schema::ChannelCheerV1 => EventType::ChannelCheer,
            Schema::ChannelRaidV1 => EventType::ChannelRaid,
            Schema::ChannelPredictionLockV1 => EventType::ChannelPredictionLock,
        }
    }

    /// The version text of the entry.
    pub fn version_str(&self) -> (r: &'static str)
        ensures
            r@ == self.version(),
    {
        match self {
            Schema::StreamOnlineV1 => "1",
            Schema::StreamOfflineV1 => "1",
            Schema::ChannelUpdateV1 => "1",
            Schema::ChannelUpdateV2 => "2",
            Schema::ChannelCheerV1 => "1",
            Schema::ChannelRaidV1 => "1",
            Schema::ChannelPredictionLockV1 => "1",
        }
    }

    /// Whether the entry is kept for old subscriptions only; it still decodes.
    pub fn deprecated(&self) -> (r: bool)
        ensures
            r == (self == Schema::ChannelUpdateV1),
    {
        match self {
            Schema::ChannelUpdateV1 => true,
            _ => false,
        }
    }

    /// The scopes of which the token must hold one to subscribe; none when empty.
    pub open spec fn scopes(self) -> Seq<Seq<char>> {
        match self {
            Schema::StreamOnlineV1 => seq![],
            Schema::StreamOfflineV1 => seq![],
            Schema::ChannelUpdateV1 => seq![],
            Schema::ChannelUpdateV2 => seq![],
            Schema::ChannelCheerV1 => seq!["bits:read"@],
            Schema::ChannelRaidV1 => seq![],
            Schema::ChannelPredictionLockV1 => seq!["channel:read:predictions"@, "channel:manage:predictions"@],
        }
    }

    /// The scopes of which the token must hold one to subscribe; none when empty.
    pub fn required_scopes(&self) -> (r: Vec<&'static str>)
        ensures
            r@.map_values(|s: &'static str| s@) == self.scopes(),
    {
        let r = match self {
            Schema::StreamOnlineV1 => vec![],
            Schema::StreamOfflineV1 => vec![],
            Schema::ChannelUpdateV1 => vec![],
            Schema::ChannelUpdateV2 => vec![],
            Schema::ChannelCheerV1 => vec!["bits:read"],
            Schema::ChannelRaidV1 => vec![],
            Schema::ChannelPredictionLockV1 => vec!["channel:read:predictions", "channel:manage:predictions"],
        };
        assert(r@.map_values(|s: &'static str| s@) =~= self.scopes());
        r
    }

    /// Each entry is found under its own key, so no two entries share a key.
    pub proof fn lemma_key_unique(self)
        ensures
            Schema::of_key(self.event_type().wire(), self.version()) == Some(self),
    {
        self.event_type().lemma_wire_round_trip();
        reveal_strlit("1");
        reveal_strlit("2");
        assert("1"@[0] != "2"@[0]);
    }
}

/// How notifications of a subscription are delivered.
#[derive(Debug)]
pub struct Transport {
    /// `webhook` or `websocket`.
    pub method: String,
    /// The webhook callback address.
    pub callback: Option<String>,
    /// The websocket session id.
    pub session_id: Option<String>,
}

impl Transport {
    /// Whether `k` names a member that the record reads.
    pub open spec fn knows(k: Seq<char>) -> bool {
        k == "method"@
            || k == "callback"@
            || k == "session_id"@
    }

    /// [`Transport::knows`] as a predicate.
    pub open spec fn known() -> spec_fn(Seq<char>) -> bool {
        |k: Seq<char>| Transport::knows(k)
    }

    fn is_known(k: &str) -> (r: bool)
        ensures
            r == Transport::knows(k@),
    {
        str_eq(k, "method")
            || str_eq(k, "callback")
            || str_eq(k, "session_id")
    }

    /// Finds the first member that the record does not read.
    pub fn unknown_member(o: &Vec<(String, Json)>) -> (r: Option<DecodeError>)
        ensures
            r == first_unknown(o@, Transport::known()),
    {
        let mut i: usize = 0;
        assert(o@.subrange(0, o@.len() as int) == o@);
        while i < o.len()
            invariant
                i <= o@.len(),
                first_unknown(o@, Transport::known()) == first_unknown(o@.subrange(i as int, o@.len() as int), Transport::known()),
            decreases o@.len() - i,
        {
            let ghost rest = o@.subrange(i as int, o@.len() as int);
            assert(rest.drop_first() == o@.subrange(i + 1, o@.len() as int));
            if !Transport::is_known(o[i].0.as_str()) {
                return Some(DecodeError::UnknownField(o[i].0.clone()));
            }
            i = i + 1;
        }
        None
    }

    /// The first error of `o`: a member the record does not read, when those are
    /// denied, then the first field, in declaration order, that cannot be read.
    pub open spec fn error(o: Seq<(String, Json)>, deny: bool) -> Option<DecodeError> {
        either(if deny { first_unknown(o, Transport::known()) } else { None },
        either(err_of(str_member(o, "method")),
        either(err_of(opt_str_member(o, "callback")),
        err_of(opt_str_member(o, "session_id")))))
    }

    /// Whether every field of `x` is the value read from `o`.
    pub open spec fn reads_as(o: Seq<(String, Json)>, x: Transport) -> bool {
        &&& x.method == str_member(o, "method")->Ok_0
        &&& x.callback == opt_str_member(o, "callback")->Ok_0
        &&& x.session_id == opt_str_member(o, "session_id")->Ok_0
    }

    /// Whether `r` is what decoding the members `o` yields.
    pub open spec fn decoded(o: Seq<(String, Json)>, deny: bool, r: Result<Transport, DecodeError>) -> bool {
        match r {
            Ok(x) => Transport::error(o, deny) is None && Transport::reads_as(o, x),
            Err(e) => Transport::error(o, deny) == Some(e),
        }
    }

    /// Decodes the record from the members of a JSON object; with `deny`, a
    /// member that the record does not read is an error.
    pub fn decode(o: &Vec<(String, Json)>, deny: bool) -> (r: Result<Transport, DecodeError>)
        ensures
            Transport::decoded(o@, deny, r),
    {
        if deny {
            if let Some(e) = Transport::unknown_member(o) {
                return Err(e);
            }
        }
        let method = match read_str(o, "method") {
            Ok(v) => v,
            Err(e) => return Err(e),
        };
        let callback = match read_opt_str(o, "callback") {
            Ok(v) => v,
            Err(e) => return Err(e),
        };
        let session_id = match read_opt_str(o, "session_id") {
            Ok(v) => v,
            Err(e) => return Err(e),
        };
        Ok(Transport { method, callback, session_id })
    }

    /// Encodes the record as the members of a JSON object; decoding them, in
    /// either mode, gives the record back.
    pub fn to_members(&self) -> (r: Vec<(String, Json)>)
        ensures
            Transport::decoded(r@, false, Ok(*self)),
            Transport::decoded(r@, true, Ok(*self)),
    {
        let r = vec![
            (String::from_str("method"), Json::Str(self.method.clone())),
            (String::from_str("callback"), opt_str_json(&self.callback)),
            (String::from_str("session_id"), opt_str_json(&self.session_id)),
        ];
        proof {
            reveal_with_fuel(member, 4);
            reveal_with_fuel(first_unknown, 4);
            reveal_strlit("method");
            reveal_strlit("callback");
            reveal_strlit("session_id");
            assert("method"@.len() == 6);
            assert("callback"@.len() == 8);
            assert("session_id"@.len() == 10);
            assert("callback"@ != "method"@);
            assert("session_id"@ != "method"@);
            assert("session_id"@ != "callback"@);
        }
        r
    }
}

/// The subscription metadata of a notification, but for its kind, version and condition.
#[derive(Debug)]
pub struct Subscription {
    /// The subscription id.
    pub id: String,
    /// The subscription status.
    pub status: String,
    /// How much the subscription counts against the limit.
    pub cost: i64,
    /// How notifications are delivered.
    pub transport: Transport,
    /// When the subscription was created.
    pub created_at: Timestamp,
}

impl Subscription {
    /// Whether `k` names a member that the record reads.
    pub open spec fn knows(k: Seq<char>) -> bool {
        k == "id"@
            || k == "status"@
            || k == "cost"@
            || k == "transport"@
            || k == "created_at"@
            || k == "type"@
            || k == "version"@
            || k == "condition"@
    }

    /// [`Subscription::knows`] as a predicate.
    pub open spec fn known() -> spec_fn(Seq<char>) -> bool {
        |k: Seq<char>| Subscription::knows(k)
    }

    fn is_known(k: &str) -> (r: bool)
        ensures
            r == Subscription::knows(k@),
    {
        str_eq(k, "id")
            || str_eq(k, "status")
            || str_eq(k, "cost")
            || str_eq(k, "transport")
            || str_eq(k, "created_at")
            || str_eq(k, "type")
            || str_eq(k, "version")
            || str_eq(k, "condition")
    }

    /// Finds the first member that the record does not read.
    pub fn unknown_member(o: &Vec<(String, Json)>) -> (r: Option<DecodeError>)
        ensures
            r == first_unknown(o@, Subscription::known()),
    {
        let mut i: usize = 0;
        assert(o@.subrange(0, o@.len() as int) == o@);
        while i < o.len()
            invariant
                i <= o@.len(),
                first_unknown(o@, Subscription::known()) == first_unknown(o@.subrange(i as int, o@.len() as int), Subscription::known()),
            decreases o@.len() - i,
        {
            let ghost rest = o@.subrange(i as int, o@.len() as int);
            assert(rest.drop_first() == o@.subrange(i + 1, o@.len() as int));
            if !Subscription::is_known(o[i].0.as_str()) {
                return Some(DecodeError::UnknownField(o[i].0.clone()));
            }
            i = i + 1;
        }
        None
    }

    /// The first error of `o`: a member the record does not read, when those are
    /// denied, then the first field, in declaration order, that cannot be read.
    pub open spec fn error(o: Seq<(String, Json)>, deny: bool) -> Option<DecodeError> {
        either(if deny { first_unknown(o, Subscription::known()) } else { None },
        either(err_of(str_member(o, "id")),
        either(err_of(str_member(o, "status")),
        either(err_of(int_member(o, "cost")),
        either(match object_member(o, "transport") { Ok(m) => Transport::error(m, deny), Err(e) => Some(e) },
        err_of(timestamp_member(o, "created_at")))))))
    }

    /// Whether every field of `x` is the value read from `o`.
    pub open spec fn reads_as(o: Seq<(String, Json)>, x: Subscription) -> bool {
        &&& x.id == str_member(o, "id")->Ok_0
        &&& x.status == str_member(o, "status")->Ok_0
        &&& x.cost == int_member(o, "cost")->Ok_0
        &&& Transport::reads_as(object_member(o, "transport")->Ok_0, x.transport)
        &&& x.created_at@ == timestamp_member(o, "created_at")->Ok_0
    }

    /// Whether `r` is what decoding the members `o` yields.
    pub open spec fn decoded(o: Seq<(String, Json)>, deny: bool, r: Result<Subscription, DecodeError>) -> bool {
        match r {
            Ok(x) => Subscription::error(o, deny) is None && Subscription::reads_as(o, x),
            Err(e) => Subscription::error(o, deny) == Some(e),
        }
    }

    /// Decodes the record from the members of a JSON object; with `deny`, a
    /// member that the record does not read is an error.
    pub fn decode(o: &Vec<(String, Json)>, deny: bool) -> (r: Result<Subscription, DecodeError>)
        ensures
            Subscription::decoded(o@, deny, r),
    {
        if deny {
            if let Some(e) = Subscription::unknown_member(o) {
                return Err(e);
            }
        }
        let id = match read_str(o, "id") {
            Ok(v) => v,
            Err(e) => return Err(e),
        };
        let status = match read_str(o, "status") {
            Ok(v) => v,
            Err(e) => return Err(e),
        };
        let cost = match read_int(o, "cost") {
            Ok(v) => v,
            Err(e) => return Err(e),
        };
        let transport = match read_object(o, "transport") {
            Ok(m) => match Transport::decode(m, deny) {
                Ok(v) => v,
                Err(e) => return Err(e),
            },
            Err(e) => return Err(e),
        };
        let created_at = match read_timestamp(o, "created_at") {
            Ok(v) => v,
            Err(e) => return Err(e),
        };
        Ok(Subscription { id, status, cost, transport, created_at })
    }
}

impl Subscription {
    /// Encodes the subscription object of a notification of the entry `schema` with the condition members `condition`.
    pub fn to_members(&self, schema: Schema, condition: Vec<(String, Json)>) -> (r: Vec<(String, Json)>)
        ensures
            Subscription::error(r@, false) is None,
            Subscription::error(r@, true) is None,
            Subscription::reads_as(r@, *self),
            str_member(r@, "type") matches Ok(k) && k@ == schema.event_type().wire(),
            str_member(r@, "version") matches Ok(v) && v@ == schema.version(),
            object_member(r@, "condition") == Ok::<Seq<(String, Json)>, DecodeError>(condition@),
    {
        let r = vec![
            (String::from_str("id"), Json::Str(self.id.clone())),
            (String::from_str("status"), Json::Str(self.status.clone())),
            (String::from_str("type"), Json::Str(String::from_str(schema.kind_str()))),
            (String::from_str("version"), Json::Str(String::from_str(schema.version_str()))),
            (String::from_str("cost"), Json::Int(self.cost)),
            (String::from_str("condition"), Json::Object(condition)),
            (String::from_str("transport"), Json::Object(self.transport.to_members())),
            (String::from_str("created_at"), Json::Str(self.created_at.to_text())),
        ];
        proof {
            reveal_with_fuel(member, 9);
            reveal_with_fuel(first_unknown, 9);

            reveal_strlit("id");
            reveal_strlit("status");
            reveal_strlit("type");
            reveal_strlit("version");
            reveal_strlit("cost");
            reveal_strlit("condition");
            reveal_strlit("transport");
            reveal_strlit("created_at");
            assert("id"@.len() == 2);
            assert("status"@.len() == 6);
            assert("type"@.len() == 4);
            assert("version"@.len() == 7);
            assert("cost"@.len() == 4);
            assert("condition"@.len() == 9);
            assert("transport"@.len() == 9);
            assert("created_at"@.len() == 10);
            assert("status"@ != "id"@);
            assert("type"@ != "id"@);
            assert("type"@ != "status"@);
            assert("version"@ != "id"@);
            assert("version"@ != "status"@);
            assert("version"@ != "type"@);
            assert("cost"@ != "id"@);
            assert("cost"@ != "status"@);
            assert("cost"@[0] != "type"@[0]);
            assert("cost"@ != "type"@);
            assert("cost"@ != "version"@);
            assert("condition"@ != "id"@);
            assert("condition"@ != "status"@);
            assert("condition"@ != "type"@);
            assert("condition"@ != "version"@);
            assert("condition"@ != "cost"@);
            assert("transport"@ != "id"@);
            assert("transport"@ != "status"@);
            assert("transport"@ != "type"@);
            assert("transport"@ != "version"@);
            assert("transport"@ != "cost"@);
            assert("transport"@[0] != "condition"@[0]);
            assert("transport"@ != "condition"@);
            assert("created_at"@ != "id"@);
            assert("created_at"@ != "status"@);
            assert("created_at"@ != "type"@);
            assert("created_at"@ != "version"@);
            assert("created_at"@ != "cost"@);
            assert("created_at"@ != "condition"@);
            assert("created_at"@ != "transport"@);
        }
        r
    }
}

/// A decoded notification: its subscription metadata, its condition and its event.
#[derive(Debug)]
pub struct Notification<C, P> {
    /// The subscription's metadata.
    pub subscription: Subscription,
    /// The subscription's condition.
    pub condition: C,
    /// The event.
    pub event: P,
}

/// A notification, by registry entry; a known kind with an unregistered
/// version, or an unknown kind, is an unknown schema and not an error.
#[derive(Debug)]
pub enum Event {
    /// `stream.online` version 1.
    StreamOnlineV1(Notification<StreamOnlineV1, StreamOnlineV1Payload>),
    /// `stream.offline` version 1.
    StreamOfflineV1(Notification<StreamOfflineV1, StreamOfflineV1Payload>),
    /// `channel.update` version 1.
    ChannelUpdateV1(Notification<ChannelUpdateV1, ChannelUpdateV1Payload>),
    /// `channel.update` version 2.
    ChannelUpdateV2(Notification<ChannelUpdateV2, ChannelUpdateV2Payload>),
    /// `channel.cheer` version 1.
    ChannelCheerV1(Notification<ChannelCheerV1, ChannelCheerV1Payload>),
    /// `channel.raid` version 1.
    ChannelRaidV1(Notification<ChannelRaidV1, ChannelRaidV1Payload>),
    /// `channel.prediction.lock` version 1.
    ChannelPredictionLockV1(Notification<ChannelPredictionLockV1, ChannelPredictionLockV1Payload>),
    /// A kind and version that the registry does not hold.
    UnknownSchema { kind: String, version: String },
}

/// Why a notification could not be decoded.
#[derive(Debug)]
pub enum EventSubError {
    /// The text is not JSON; the raw text is kept.
    Syntax { raw: String },
    /// The envelope or the subscription metadata does not fit.
    Envelope(DecodeError),
    /// The subscription's condition does not fit the entry.
    Condition(DecodeError),
    /// The event body does not fit the entry.
    Payload(DecodeError),
    /// The transport's message type is outside the known set; the raw type is kept.
    UnknownMessageType(String),
}

/// Whether `r` is what decoding the subscription members `s`, condition
/// members `c` and event members `ev` yields under the entry `schema`.
pub open spec fn schema_decoded(
    schema: Schema,
    s: Seq<(String, Json)>,
    c: Seq<(String, Json)>,
    ev: Seq<(String, Json)>,
    deny: bool,
    r: Result<Event, EventSubError>,
) -> bool {
    match schema {
        Schema::StreamOnlineV1 => match r {
            Ok(Event::StreamOnlineV1(n)) => Subscription::reads_as(s, n.subscription) && StreamOnlineV1::decoded(c, deny, Ok(n.condition))
                && StreamOnlineV1Payload::decoded(ev, deny, Ok(n.event)),
            Err(EventSubError::Condition(e)) => StreamOnlineV1::decoded(c, deny, Err(e)),
            Err(EventSubError::Payload(e)) => StreamOnlineV1::error(c, deny) is None && StreamOnlineV1Payload::decoded(ev, deny, Err(e)),
            _ => false,
        },
        Schema::StreamOfflineV1 => match r {
            Ok(Event::StreamOfflineV1(n)) => Subscription::reads_as(s, n.subscription) && StreamOfflineV1::decoded(c, deny, Ok(n.condition))
                && StreamOfflineV1Payload::decoded(ev, deny, Ok(n.event)),
            Err(EventSubError::Condition(e)) => StreamOfflineV1::decoded(c, deny, Err(e)),
            Err(EventSubError::Payload(e)) => StreamOfflineV1::error(c, deny) is None && StreamOfflineV1Payload::decoded(ev, deny, Err(e)),
            _ => false,
        },
        Schema::ChannelUpdateV1 => match r {
            Ok(Event::ChannelUpdateV1(n)) => Subscription::reads_as(s, n.subscription) && ChannelUpdateV1::decoded(c, deny, Ok(n.condition))
                && ChannelUpdateV1Payload::decoded(ev, deny, Ok(n.event)),
            Err(EventSubError::Condition(e)) => ChannelUpdateV1::decoded(c, deny, Err(e)),
            Err(EventSubError::Payload(e)) => ChannelUpdateV1::error(c, deny) is None && ChannelUpdateV1Payload::decoded(ev, deny, Err(e)),
            _ => false,
        },
        Schema::ChannelUpdateV2 => match r {
            Ok(Event::ChannelUpdateV2(n)) => Subscription::reads_as(s, n.subscription) && ChannelUpdateV2::decoded(c, deny, Ok(n.condition))
                && ChannelUpdateV2Payload::decoded(ev, deny, Ok(n.event)),
            Err(EventSubError::Condition(e)) => ChannelUpdateV2::decoded(c, deny, Err(e)),
            Err(EventSubError::Payload(e)) => ChannelUpdateV2::error(c, deny) is None && ChannelUpdateV2Payload::decoded(ev, deny, Err(e)),
            _ => false,
        },
        Schema::ChannelCheerV1 => match r {
            Ok(Event::ChannelCheerV1(n)) => Subscription::reads_as(s, n.subscription) && ChannelCheerV1::decoded(c, deny, Ok(n.condition))
                && ChannelCheerV1Payload::decoded(ev, deny, Ok(n.event)),
            Err(EventSubError::Condition(e)) => ChannelCheerV1::decoded(c, deny, Err(e)),
            Err(EventSubError::Payload(e)) => ChannelCheerV1::error(c, deny) is None && ChannelCheerV1Payload::decoded(ev, deny, Err(e)),
            _ => false,
        },
        Schema::ChannelRaidV1 => match r {
            Ok(Event::ChannelRaidV1(n)) => Subscription::reads_as(s, n.subscription) && ChannelRaidV1::decoded(c, deny, Ok(n.condition))
                && ChannelRaidV1Payload::decoded(ev, deny, Ok(n.event)),
            Err(EventSubError::Condition(e)) => ChannelRaidV1::decoded(c, deny, Err(e)),
            Err(EventSubError::Payload(e)) => ChannelRaidV1::error(c, deny) is None && ChannelRaidV1Payload::decoded(ev, deny, Err(e)),
            _ => false,
        },
        Schema::ChannelPredictionLockV1 => match r {
            Ok(Event::ChannelPredictionLockV1(n)) => Subscription::reads_as(s, n.subscription) && ChannelPredictionLockV1::decoded(c, deny, Ok(n.condition))
                && ChannelPredictionLockV1Payload::decoded(ev, deny, Ok(n.event)),
            Err(EventSubError::Condition(e)) => ChannelPredictionLockV1::decoded(c, deny, Err(e)),
            Err(EventSubError::Payload(e)) => ChannelPredictionLockV1::error(c, deny) is None && ChannelPredictionLockV1Payload::decoded(ev, deny, Err(e)),
            _ => false,
        },
    }
}

/// Whether `r` is what decoding the envelope members `o` yields: the kind and
/// version are read first and select the entry before the event is read.
pub open spec fn envelope_decoded(o: Seq<(String, Json)>, deny: bool, r: Result<Event, EventSubError>) -> bool {
    match object_member(o, "subscription") {
        Err(e) => r == Err::<Event, EventSubError>(EventSubError::Envelope(e)),
        Ok(s) => match str_member(s, "type") {
            Err(e) => r == Err::<Event, EventSubError>(EventSubError::Envelope(e)),
            Ok(kind) => match str_member(s, "version") {
                Err(e) => r == Err::<Event, EventSubError>(EventSubError::Envelope(e)),
                Ok(version) => match Schema::of_key(kind@, version@) {
                    None => r == Ok::<Event, EventSubError>(Event::UnknownSchema { kind, version }),
                    Some(schema) => match Subscription::error(s, deny) {
                        Some(e) => r == Err::<Event, EventSubError>(EventSubError::Envelope(e)),
                        None => match object_member(s, "condition") {
                            Err(e) => r == Err::<Event, EventSubError>(EventSubError::Envelope(e)),
                            Ok(c) => match object_member(o, "event") {
                                Err(e) => r == Err::<Event, EventSubError>(EventSubError::Envelope(e)),
                                Ok(ev) => schema_decoded(schema, s, c, ev, deny, r),
                            },
                        },
                    },
                },
            },
        },
    }
}

/// Whether `r` is what decoding the JSON value `j` yields.
pub open spec fn event_json_decoded(j: Json, deny: bool, r: Result<Event, EventSubError>) -> bool {
    match j {
        Json::Object(o) => envelope_decoded(o@, deny, r),
        _ => r == Err::<Event, EventSubError>(EventSubError::Envelope(DecodeError::NotObject)),
    }
}

/// Whether `r` is what decoding the text `text` yields.
pub open spec fn event_text_decoded(text: Seq<char>, deny: bool, r: Result<Event, EventSubError>) -> bool {
    match json_of_text(text) {
        None => r matches Err(EventSubError::Syntax { raw }) && raw@ == text,
        Some(j) => event_json_decoded(j, deny, r),
    }
}

fn decode_with_schema(
    schema: Schema,
    s: &Vec<(String, Json)>,
    subscription: Subscription,
    c: &Vec<(String, Json)>,
    ev: &Vec<(String, Json)>,
    deny: bool,
) -> (r: Result<Event, EventSubError>)
    requires
        Subscription::reads_as(s@, subscription),
    ensures
        schema_decoded(schema, s@, c@, ev@, deny, r),
{
    match schema {
        Schema::StreamOnlineV1 => {
            let condition = match StreamOnlineV1::decode(c, deny) {
                Ok(x) => x,
                Err(e) => return Err(EventSubError::Condition(e)),
            };
            match StreamOnlineV1Payload::decode(ev, deny) {
                Ok(event) => Ok(Event::StreamOnlineV1(Notification { subscription, condition, event })),
                Err(e) => Err(EventSubError::Payload(e)),
            }
        },
        Schema::StreamOfflineV1 => {
            let condition = match StreamOfflineV1::decode(c, deny) {
                Ok(x) => x,
                Err(e) => return Err(EventSubError::Condition(e)),
            };
            match StreamOfflineV1Payload::decode(ev, deny) {
                Ok(event) => Ok(Event::StreamOfflineV1(Notification { subscription, condition, event })),
                Err(e) => Err(EventSubError::Payload(e)),
            }
        },
        Schema::ChannelUpdateV1 => {
            let condition = match ChannelUpdateV1::decode(c, deny) {
                Ok(x) => x,
                Err(e) => return Err(EventSubError::Condition(e)),
            };
            match ChannelUpdateV1Payload::decode(ev, deny) {
                Ok(event) => Ok(Event::ChannelUpdateV1(Notification { subscription, condition, event })),
                Err(e) => Err(EventSubError::Payload(e)),
            }
        },
        Schema::ChannelUpdateV2 => {
            let condition = match ChannelUpdateV2::decode(c, deny) {
                Ok(x) => x,
                Err(e) => return Err(EventSubError::Condition(e)),
            };
            match ChannelUpdateV2Payload::decode(ev, deny) {
                Ok(event) => Ok(Event::ChannelUpdateV2(Notification { subscription, condition, event })),
                Err(e) => Err(EventSubError::Payload(e)),
            }
        },
        Schema::ChannelCheerV1 => {
            let condition = match ChannelCheerV1::decode(c, deny) {
                Ok(x) => x,
                Err(e) => return Err(EventSubError::Condition(e)),
            };
            match ChannelCheerV1Payload::decode(ev, deny) {
                Ok(event) => Ok(Event::ChannelCheerV1(Notification { subscription, condition, event })),
                Err(e) => Err(EventSubError::Payload(e)),
            }
        },
        Schema::ChannelRaidV1 => {
            let condition = match ChannelRaidV1::decode(c, deny) {
                Ok(x) => x,
                Err(e) => return Err(EventSubError::Condition(e)),
            };
            match ChannelRaidV1Payload::decode(ev, deny) {
                Ok(event) => Ok(Event::ChannelRaidV1(Notification { subscription, condition, event })),
                Err(e) => Err(EventSubError::Payload(e)),
            }
        },
        Schema::ChannelPredictionLockV1 => {
            let condition = match ChannelPredictionLockV1::decode(c, deny) {
                Ok(x) => x,
                Err(e) => return Err(EventSubError::Condition(e)),
            };
            match ChannelPredictionLockV1Payload::decode(ev, deny) {
                Ok(event) => Ok(Event::ChannelPredictionLockV1(Notification { subscription, condition, event })),
                Err(e) => Err(EventSubError::Payload(e)),
            }
        },
    }
}

impl Event {
    /// Decodes a notification envelope that is already parsed as JSON;
    /// members that a record does not read are ignored.
    pub fn decode(j: &Json) -> (r: Result<Event, EventSubError>)
        ensures
            event_json_decoded(*j, false, r),
    {
        Event::decode_with(j, false)
    }

    /// Decodes a notification envelope that is already parsed as JSON; with
    /// `deny`, a member that a record does not read is an error.
    pub fn decode_with(j: &Json, deny: bool) -> (r: Result<Event, EventSubError>)
        ensures
            event_json_decoded(*j, deny, r),
    {
        let o = match j {
            Json::Object(o) => o,
            _ => return Err(EventSubError::Envelope(DecodeError::NotObject)),
        };
        let s = match read_object(o, "subscription") {
            Ok(s) => s,
            Err(e) => return Err(EventSubError::Envelope(e)),
        };
        let kind = match read_str(s, "type") {
            Ok(k) => k,
            Err(e) => return Err(EventSubError::Envelope(e)),
        };
        let version = match read_str(s, "version") {
            Ok(v) => v,
            Err(e) => return Err(EventSubError::Envelope(e)),
        };
        let schema = match Schema::lookup(kind.as_str(), version.as_str()) {
            Some(schema) => schema,
            None => return Ok(Event::UnknownSchema { kind, version }),
        };
        let subscription = match Subscription::decode(s, deny) {
            Ok(x) => x,
            Err(e) => return Err(EventSubError::Envelope(e)),
        };
        let c = match read_object(s, "condition") {
            Ok(c) => c,
            Err(e) => return Err(EventSubError::Envelope(e)),
        };
        let ev = match read_object(o, "event") {
            Ok(ev) => ev,
            Err(e) => return Err(EventSubError::Envelope(e)),
        };
        decode_with_schema(schema, s, subscription, c, ev, deny)
    }

    /// Decodes a notification envelope from its text; members that a record
    /// does not read are ignored.
    pub fn parse(text: &str) -> (r: Result<Event, EventSubError>)
        ensures
            event_text_decoded(text@, false, r),
    {
        Event::parse_with(text, false)
    }

    /// Decodes a notification envelope from its text; a member that a record
    /// does not read is an error.
    pub fn parse_strict(text: &str) -> (r: Result<Event, EventSubError>)
        ensures
            event_text_decoded(text@, true, r),
    {
        Event::parse_with(text, true)
    }

    /// Decodes a notification envelope from its text, denying unknown members or not.
    pub fn parse_with(text: &str, deny: bool) -> (r: Result<Event, EventSubError>)
        ensures
            event_text_decoded(text@, deny, r),
    {
        match parse_json(text) {
            None => Err(EventSubError::Syntax { raw: String::from_str(text) }),
            Some(j) => Event::decode_with(&j, deny),
        }
    }

    /// The registry entry of the notification; none for an unknown schema.
    pub open spec fn schema(self) -> Option<Schema> {
        match self {
            Event::StreamOnlineV1(_) => Some(Schema::StreamOnlineV1),
            Event::StreamOfflineV1(_) => Some(Schema::StreamOfflineV1),
            Event::ChannelUpdateV1(_) => Some(Schema::ChannelUpdateV1),
            Event::ChannelUpdateV2(_) => Some(Schema::ChannelUpdateV2),
            Event::ChannelCheerV1(_) => Some(Schema::ChannelCheerV1),
            Event::ChannelRaidV1(_) => Some(Schema::ChannelRaidV1),
            Event::ChannelPredictionLockV1(_) => Some(Schema::ChannelPredictionLockV1),
            Event::UnknownSchema { .. } => None,
        }
    }

    /// Encodes the notification as an envelope; decoding it gives the
    /// notification back. An unknown schema has no encoding.
    pub fn to_json(&self) -> (r: Option<Json>)
        ensures
            r is None <==> self.schema() is None,
            r matches Some(j) ==> event_json_decoded(j, false, Ok(*self)) && event_json_decoded(j, true, Ok(*self)),
    {
        let (sub, event) = match self {
            Event::StreamOnlineV1(n) => {
                proof { Schema::StreamOnlineV1.lemma_key_unique(); }
                (n.subscription.to_members(Schema::StreamOnlineV1, n.condition.to_members()), n.event.to_members())
            },
            Event::StreamOfflineV1(n) => {
                proof { Schema::StreamOfflineV1.lemma_key_unique(); }
                (n.subscription.to_members(Schema::StreamOfflineV1, n.condition.to_members()), n.event.to_members())
            },
            Event::ChannelUpdateV1(n) => {
                proof { Schema::ChannelUpdateV1.lemma_key_unique(); }
                (n.subscription.to_members(Schema::ChannelUpdateV1, n.condition.to_members()), n.event.to_members())
            },
            Event::ChannelUpdateV2(n) => {
                proof { Schema::ChannelUpdateV2.lemma_key_unique(); }
                (n.subscription.to_members(Schema::ChannelUpdateV2, n.condition.to_members()), n.event.to_members())
            },
            Event::ChannelCheerV1(n) => {
                proof { Schema::ChannelCheerV1.lemma_key_unique(); }
                (n.subscription.to_members(Schema::ChannelCheerV1, n.condition.to_members()), n.event.to_members())
            },
            Event::ChannelRaidV1(n) => {
                proof { Schema::ChannelRaidV1.lemma_key_unique(); }
                (n.subscription.to_members(Schema::ChannelRaidV1, n.condition.to_members()), n.event.to_members())
            },
            Event::ChannelPredictionLockV1(n) => {
                proof { Schema::ChannelPredictionLockV1.lemma_key_unique(); }
                (n.subscription.to_members(Schema::ChannelPredictionLockV1, n.condition.to_members()), n.event.to_members())
            },
            Event::UnknownSchema { .. } => return None,
        };
        let r = vec![
            (String::from_str("subscription"), Json::Object(sub)),
            (String::from_str("event"), Json::Object(event)),
        ];
        proof {
            reveal_with_fuel(crate::json::member, 3);
            reveal_strlit("subscription");
            reveal_strlit("event");
            assert("subscription"@.len() == 12);
            assert("event"@.len() == 5);
        }
        Some(Json::Object(r))
    }
}

/// A notification whose kind is known but whose version is not registered
/// decodes as an unknown schema, never as a payload error.
pub proof fn lemma_unregistered_version_is_unknown(j: Json, deny: bool, r: Result<Event, EventSubError>)
    requires
        event_json_decoded(j, deny, r),
        j matches Json::Object(o) && object_member(o@, "subscription") matches Ok(s) && ({
            &&& str_member(s, "type") matches Ok(kind) && EventType::of_wire(kind@) is Some
            &&& str_member(s, "version") matches Ok(version)
                && Schema::of_key(str_member(s, "type")->Ok_0@, version@) is None
        }),
    ensures
        r matches Ok(Event::UnknownSchema { .. }),
        !(r matches Err(EventSubError::Payload(_))),
{
}

/// The kind of an EventSub message, as the transport names it.
#[derive(Clone, Copy, Debug, PartialEq, Eq, Structural)]
pub enum MessageType {
    /// An event notification.
    Notification,
    /// A challenge to prove the callback is ours.
    WebhookCallbackVerification,
    /// The subscription was revoked.
    Revocation,
    /// A keepalive on a websocket session.
    SessionKeepalive,
}

impl MessageType {
    /// The value named by the wire text `s`, if any.
    pub open spec fn of_wire(s: Seq<char>) -> Option<MessageType> {
        if s == "notification"@ {
            Some(MessageType::Notification)
        } else if s == "webhook_callback_verification"@ {
            Some(MessageType::WebhookCallbackVerification)
        } else if s == "revocation"@ {
            Some(MessageType::Revocation)
        } else if s == "session_keepalive"@ {
            Some(MessageType::SessionKeepalive)
        } else {
            None
        }
    }

    /// The wire text of the value.
    pub open spec fn wire(self) -> Seq<char> {
        match self {
            MessageType::Notification => "notification"@,
            MessageType::WebhookCallbackVerification => "webhook_callback_verification"@,
            MessageType::Revocation => "revocation"@,
            MessageType::SessionKeepalive => "session_keepalive"@,
        }
    }

    /// Reads a value from its wire text.
    pub fn from_wire(s: &str) -> (r: Option<MessageType>)
        ensures
            r == MessageType::of_wire(s@),
    {
        if str_eq(s, "notification") {
            Some(MessageType::Notification)
        } else if str_eq(s, "webhook_callback_verification") {
            Some(MessageType::WebhookCallbackVerification)
        } else if str_eq(s, "revocation") {
            Some(MessageType::Revocation)
        } else if str_eq(s, "session_keepalive") {
            Some(MessageType::SessionKeepalive)
        } else {
            None
        }
    }

    /// The wire text of the value.
    pub fn as_str(&self) -> (r: &'static str)
        ensures
            r@ == self.wire(),
    {
        match self {
            MessageType::Notification => "notification",
            MessageType::WebhookCallbackVerification => "webhook_callback_verification",
            MessageType::Revocation => "revocation",
            MessageType::SessionKeepalive => "session_keepalive",
        }
    }


    /// Reading the wire text of a value gives the value back.
    pub proof fn lemma_wire_round_trip(self)
        ensures
            MessageType::of_wire(self.wire()) == Some(self),
    {
        reveal_strlit("notification");
        reveal_strlit("webhook_callback_verification");
        reveal_strlit("revocation");
        reveal_strlit("session_keepalive");
        assert("notification"@.len() == 12);
        assert("webhook_callback_verification"@.len() == 29);
        assert("revocation"@.len() == 10);
        assert("session_keepalive"@.len() == 17);
        match self {
            MessageType::Notification => {},
            MessageType::WebhookCallbackVerification => {
                assert("webhook_callback_verification"@ != "notification"@);
            },
            MessageType::Revocation => {
                assert("revocation"@ != "notification"@);
                assert("revocation"@ != "webhook_callback_verification"@);
            },
            MessageType::SessionKeepalive => {
                assert("session_keepalive"@ != "notification"@);
                assert("session_keepalive"@ != "webhook_callback_verification"@);
                assert("session_keepalive"@ != "revocation"@);
            },
        }
    }
}

/// An EventSub message, classified by the transport's message type.
#[derive(Debug)]
pub enum EventSubMessage {
    /// A notification with its event.
    Notification(Event),
    /// The subscription was revoked; its metadata says which and why.
    Revocation { id: String, kind: String, version: String, status: String },
    /// The challenge to echo back to confirm a webhook callback.
    VerificationChallenge { challenge: String },
    /// Nothing happened; the session is alive.
    Keepalive,
}

/// Whether `r` is what decoding a revocation body `body` yields.
pub open spec fn revocation_decoded(body: Seq<char>, r: Result<EventSubMessage, EventSubError>) -> bool {
    match json_of_text(body) {
        None => r matches Err(EventSubError::Syntax { raw }) && raw@ == body,
        Some(Json::Object(o)) => match object_member(o@, "subscription") {
            Err(e) => r == Err::<EventSubMessage, EventSubError>(EventSubError::Envelope(e)),
            Ok(s) => {
                let id = str_member(s, "id");
                let kind = str_member(s, "type");
                let version = str_member(s, "version");
                let status = str_member(s, "status");
                match either(err_of(id), either(err_of(kind), either(err_of(version), err_of(status)))) {
                    Some(e) => r == Err::<EventSubMessage, EventSubError>(EventSubError::Envelope(e)),
                    None => r == Ok::<EventSubMessage, EventSubError>(
                        EventSubMessage::Revocation {
                            id: id->Ok_0,
                            kind: kind->Ok_0,
                            version: version->Ok_0,
                            status: status->Ok_0,
                        },
                    ),
                }
            },
        },
        Some(_) => r == Err::<EventSubMessage, EventSubError>(EventSubError::Envelope(DecodeError::NotObject)),
    }
}

/// Whether `r` is what decoding a verification body `body` yields.
pub open spec fn challenge_decoded(body: Seq<char>, r: Result<EventSubMessage, EventSubError>) -> bool {
    match json_of_text(body) {
        None => r matches Err(EventSubError::Syntax { raw }) && raw@ == body,
        Some(Json::Object(o)) => match str_member(o@, "challenge") {
            Err(e) => r == Err::<EventSubMessage, EventSubError>(EventSubError::Envelope(e)),
            Ok(c) => r == Ok::<EventSubMessage, EventSubError>(EventSubMessage::VerificationChallenge { challenge: c }),
        },
        Some(_) => r == Err::<EventSubMessage, EventSubError>(EventSubError::Envelope(DecodeError::NotObject)),
    }
}

/// Whether `r` is what classifying a message of type `message_type` with the body `body` yields.
pub open spec fn message_decoded(message_type: Seq<char>, body: Seq<char>, r: Result<EventSubMessage, EventSubError>) -> bool {
    match MessageType::of_wire(message_type) {
        None => r matches Err(EventSubError::UnknownMessageType(t)) && t@ == message_type,
        Some(MessageType::Notification) => match r {
            Ok(EventSubMessage::Notification(ev)) => event_text_decoded(body, false, Ok(ev)),
            Err(e) => event_text_decoded(body, false, Err(e)),
            _ => false,
        },
        Some(MessageType::WebhookCallbackVerification) => challenge_decoded(body, r),
        Some(MessageType::Revocation) => revocation_decoded(body, r),
        Some(MessageType::SessionKeepalive) => r == Ok::<EventSubMessage, EventSubError>(EventSubMessage::Keepalive),
    }
}

fn decode_revocation(body: &str) -> (r: Result<EventSubMessage, EventSubError>)
    ensures
        revocation_decoded(body@, r),
{
    let o = match parse_json(body) {
        None => return Err(EventSubError::Syntax { raw: String::from_str(body) }),
        Some(Json::Object(o)) => o,
        Some(_) => return Err(EventSubError::Envelope(DecodeError::NotObject)),
    };
    let s = match read_object(&o, "subscription") {
        Ok(s) => s,
        Err(e) => return Err(EventSubError::Envelope(e)),
    };
    let id = match read_str(s, "id") {
        Ok(v) => v,
        Err(e) => return Err(EventSubError::Envelope(e)),
    };
    let kind = match read_str(s, "type") {
        Ok(v) => v,
        Err(e) => return Err(EventSubError::Envelope(e)),
    };
    let version = match read_str(s, "version") {
        Ok(v) => v,
        Err(e) => return Err(EventSubError::Envelope(e)),
    };
    let status = match read_str(s, "status") {
        Ok(v) => v,
        Err(e) => return Err(EventSubError::Envelope(e)),
    };
    Ok(EventSubMessage::Revocation { id, kind, version, status })
}

fn decode_challenge(body: &str) -> (r: Result<EventSubMessage, EventSubError>)
    ensures
        challenge_decoded(body@, r),
{
    let o = match parse_json(body) {
        None => return Err(EventSubError::Syntax { raw: String::from_str(body) }),
        Some(Json::Object(o)) => o,
        Some(_) => return Err(EventSubError::Envelope(DecodeError::NotObject)),
    };
    match read_str(&o, "challenge") {
        Ok(c) => Ok(EventSubMessage::VerificationChallenge { challenge: c }),
        Err(e) => Err(EventSubError::Envelope(e)),
    }
}

impl EventSubMessage {
    /// Classifies a message by the transport's message type, then decodes its
    /// body as that type requires; a keepalive has no body to read.
    pub fn classify(message_type: &str, body: &str) -> (r: Result<EventSubMessage, EventSubError>)
        ensures
            message_decoded(message_type@, body@, r),
    {
        match MessageType::from_wire(message_type) {
            None => Err(EventSubError::UnknownMessageType(String::from_str(message_type))),
            Some(MessageType::Notification) => match Event::parse(body) {
                Ok(ev) => Ok(EventSubMessage::Notification(ev)),
                Err(e) => Err(e),
            },
            Some(MessageType::WebhookCallbackVerification) => decode_challenge(body),
            Some(MessageType::Revocation) => decode_revocation(body),
            Some(MessageType::SessionKeepalive) => Ok(EventSubMessage::Keepalive),
        }
    }
}

} // verus!
