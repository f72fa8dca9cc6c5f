//! The PubSub feed: topic values and their text, the envelope, and dispatch of
//! the nested reply on its `type` tag.
use vstd::prelude::*;

use crate::fields::{
    blank_str_member, either, err_of, first_unknown, object_member, opt_str_member, read_blank_str, read_object,
    read_opt_str, read_str, str_member,
};
use crate::json::{parse_json, json_of_text, DecodeError, Json};
use crate::moderation::{
    ChannelTermsAction, ModerationAction, ModeratorAdded, ModeratorRemoved, UnbanRequest, VipAdded,
};
use crate::text::str_eq;
use crate::topic::{decode_topic, dot_free, encode_topic, find_dot, lemma_topic_round_trip, topic_ids, topic_text};

verus! {

/// A moderator performs an action in the channel: topic `chat_moderator_actions.<user_id>.<channel_id>`.
#[derive(Clone, Copy, Debug, PartialEq, Eq, Structural, Hash)]
pub struct ChatModeratorActions {
    /// The user to listen as.
    pub user_id: u32,
    /// The channel to listen to.
    pub channel_id: u32,
}

impl ChatModeratorActions {
    /// The topic's text.
    pub open spec fn text(self) -> Seq<char> {
        topic_text("chat_moderator_actions"@, self.user_id, self.channel_id)
    }

    /// The topic that `s` names, if it is one of this family.
    pub open spec fn of_text(s: Seq<char>) -> Option<ChatModeratorActions> {
        match topic_ids(s, "chat_moderator_actions"@) {
            Some((a, b)) => Some(ChatModeratorActions { user_id: a, channel_id: b }),
            None => None,
        }
    }

    /// Writes the topic's text.
    pub fn to_topic_string(&self) -> (r: String)
        ensures
            r@ == self.text(),
    {
        encode_topic("chat_moderator_actions", self.user_id, self.channel_id)
    }

    /// Reads a topic of this family from its text.
    pub fn from_topic_str(s: &str) -> (r: Option<ChatModeratorActions>)
        ensures
            r == ChatModeratorActions::of_text(s@),
    {
        match decode_topic(s, "chat_moderator_actions") {
            Some((a, b)) => Some(ChatModeratorActions { user_id: a, channel_id: b }),
            None => None,
        }
    }

    /// Wraps the topic into [`Topics`].
    pub fn into_topic(self) -> (r: Topics)
        ensures
            r == Topics::ChatModeratorActions(self),
    {
        Topics::ChatModeratorActions(self)
    }

    /// Reading the topic's text gives the topic back.
    pub proof fn lemma_text_round_trip(self)
        ensures
            ChatModeratorActions::of_text(self.text()) == Some(self),
            find_dot(self.text(), 0) == 22,
            self.text().take(22) == "chat_moderator_actions"@,
    {
        reveal_strlit("chat_moderator_actions");
        assert("chat_moderator_actions"@.len() == 22);
        assert(dot_free("chat_moderator_actions"@));
        lemma_topic_round_trip("chat_moderator_actions"@, self.user_id, self.channel_id);
    }
}

/// Automod notifications for the current user: topic
/// `user-moderation-notifications.<current_user_id>.<channel_id>`.
#[derive(Clone, Copy, Debug, PartialEq, Eq, Structural, Hash)]
pub struct UserModerationNotifications {
    /// The authenticated user whose automod messages are reported on.
    pub current_user_id: u32,
    /// The channel to watch.
    pub channel_id: u32,
}

impl UserModerationNotifications {
    /// The topic's text.
    pub open spec fn text(self) -> Seq<char> {
        topic_text("user-moderation-notifications"@, self.current_user_id, self.channel_id)
    }

    /// The topic that `s` names, if it is one of this family.
    pub open spec fn of_text(s: Seq<char>) -> Option<UserModerationNotifications> {
        match topic_ids(s, "user-moderation-notifications"@) {
            Some((a, b)) => Some(UserModerationNotifications { current_user_id: a, channel_id: b }),
            None => None,
        }
    }

    /// Writes the topic's text.
    pub fn to_topic_string(&self) -> (r: String)
        ensures
            r@ == self.text(),
    {
        encode_topic("user-moderation-notifications", self.current_user_id, self.channel_id)
    }

    /// Reads a topic of this family from its text.
    pub fn from_topic_str(s: &str) -> (r: Option<UserModerationNotifications>)
        ensures
            r == UserModerationNotifications::of_text(s@),
    {
        match decode_topic(s, "user-moderation-notifications") {
            Some((a, b)) => Some(UserModerationNotifications { current_user_id: a, channel_id: b }),
            None => None,
        }
    }

    /// Wraps the topic into [`Topics`].
    pub fn into_topic(self) -> (r: Topics)
        ensures
            r == Topics::UserModerationNotifications(self),
    {
        Topics::UserModerationNotifications(self)
    }

    /// Reading the topic's text gives the topic back.
    pub proof fn lemma_text_round_trip(self)
        ensures
            UserModerationNotifications::of_text(self.text()) == Some(self),
            find_dot(self.text(), 0) == 29,
            self.text().take(29) == "user-moderation-notifications"@,
    {
        reveal_strlit("user-moderation-notifications");
        assert("user-moderation-notifications"@.len() == 29);
        assert(dot_free("user-moderation-notifications"@));
        lemma_topic_round_trip("user-moderation-notifications"@, self.current_user_id, self.channel_id);
    }
}

/// A topic of any known family.
#[derive(Clone, Copy, Debug, PartialEq, Eq, Structural, Hash)]
pub enum Topics {
    ChatModeratorActions(ChatModeratorActions),
    UserModerationNotifications(UserModerationNotifications),
}

impl Topics {
    /// The topic's text.
    pub open spec fn text(self) -> Seq<char> {
        match self {
            Topics::ChatModeratorActions(t) => t.text(),
            Topics::UserModerationNotifications(t) => t.text(),
        }
    }

    /// The topic that `s` names: the first family whose form it has.
    pub open spec fn of_text(s: Seq<char>) -> Option<Topics> {
        match ChatModeratorActions::of_text(s) {
            Some(t) => Some(Topics::ChatModeratorActions(t)),
            None => match UserModerationNotifications::of_text(s) {
                Some(t) => Some(Topics::UserModerationNotifications(t)),
                None => None,
            },
        }
    }

    /// Writes the topic's text.
    pub fn to_topic_string(&self) -> (r: String)
        ensures
            r@ == self.text(),
    {
        match self {
            Topics::ChatModeratorActions(t) => t.to_topic_string(),
            Topics::UserModerationNotifications(t) => t.to_topic_string(),
        }
    }

    /// The scopes of which the token must hold one to listen; none when empty.
    pub open spec fn scopes(self) -> Seq<Seq<char>> {
        match self {
            Topics::ChatModeratorActions(_) => seq!["channel:moderate"@],
            Topics::UserModerationNotifications(_) => seq![],
        }
    }

    /// The scopes of which the token must hold one to listen; none when empty.
    pub fn required_scopes(&self) -> (r: Vec<&'static str>)
        ensures
            r@.map_values(|s: &'static str| s@) == self.scopes(),
    {
        let r = match self {
            Topics::ChatModeratorActions(_) => vec!["channel:moderate"],
            Topics::UserModerationNotifications(_) => vec![],
        };
        assert(r@.map_values(|s: &'static str| s@) =~= self.scopes());
        r
    }

    /// Reads a topic from its text.
    pub fn from_topic_str(s: &str) -> (r: Option<Topics>)
        ensures
            r == Topics::of_text(s@),
    {
        match ChatModeratorActions::from_topic_str(s) {
            Some(t) => Some(Topics::ChatModeratorActions(t)),
            None => match UserModerationNotifications::from_topic_str(s) {
                Some(t) => Some(Topics::UserModerationNotifications(t)),
                None => None,
            },
        }
    }
}

/// Decoding the text of any topic value gives that value back.
pub proof fn lemma_topic_round_trip_all(t: Topics)
    ensures
        Topics::of_text(t.text()) == Some(t),
{
    reveal_strlit("chat_moderator_actions");
    reveal_strlit("user-moderation-notifications");
    match t {
        Topics::ChatModeratorActions(c) => {
            c.lemma_text_round_trip();
        },
        Topics::UserModerationNotifications(u) => {
            u.lemma_text_round_trip();
            assert("user-moderation-notifications"@.len() == 29);
            assert("chat_moderator_actions"@.len() == 22);
            assert(u.text().take(29) != "chat_moderator_actions"@);
            assert(topic_ids(u.text(), "chat_moderator_actions"@) is None);
        },
    }
}

/// The state of a message held by automod.
#[derive(Clone, Copy, Debug, PartialEq, Eq, Structural)]
pub enum AutomodStatus {
    /// Waiting for a moderator.
    Pending,
    /// Allowed by a moderator.
    Allowed,
    /// Denied by a moderator.
    Denied,
    /// Not handled in time.
    Expired,
}

impl AutomodStatus {
    /// The value named by the wire text `s`, if any.
    pub open spec fn of_wire(s: Seq<char>) -> Option<AutomodStatus> {
        if s == "PENDING"@ {
            Some(AutomodStatus::Pending)
        } else if s == "ALLOWED"@ {
            Some(AutomodStatus::Allowed)
        } else if s == "DENIED"@ {
            Some(AutomodStatus::Denied)
        } else if s == "EXPIRED"@ {
            Some(AutomodStatus::Expired)
        } else {
            None
        }
    }

    /// The wire text of the value.
    pub open spec fn wire(self) -> Seq<char> {
        match self {
            AutomodStatus::Pending => "PENDING"@,
            AutomodStatus::Allowed => "ALLOWED"@,
            AutomodStatus::Denied => "DENIED"@,
            AutomodStatus::Expired => "EXPIRED"@,
        }
    }

    /// Reads a value from its wire text.
    pub fn from_wire(s: &str) -> (r: Option<AutomodStatus>)
        ensures
            r == AutomodStatus::of_wire(s@),
    {
        if str_eq(s, "PENDING") {
            Some(AutomodStatus::Pending)
        } else if str_eq(s, "ALLOWED") {
            Some(AutomodStatus::Allowed)
        } else if str_eq(s, "DENIED") {
            Some(AutomodStatus::Denied)
        } else if str_eq(s, "EXPIRED") {
            Some(AutomodStatus::Expired)
        } else {
            None
        }
    }

    /// The wire text of the value.
    pub fn as_str(&self) -> (r: &'static str)
        ensures
            r@ == self.wire(),
    {
        match self {
            AutomodStatus::Pending => "PENDING",
            AutomodStatus::Allowed => "ALLOWED",
            AutomodStatus::Denied => "DENIED",
            AutomodStatus::Expired => "EXPIRED",
        }
    }

    /// The value of the member `key`: a string that names a known value.
    pub open spec fn member(o: Seq<(String, Json)>, key: &'static str) -> Result<AutomodStatus, DecodeError> {
        match str_member(o, key) {
            Ok(s) => match AutomodStatus::of_wire(s@) {
                Some(v) => Ok(v),
                None => Err(DecodeError::UnknownValue { field: key, raw: s }),
            },
            Err(e) => Err(e),
        }
    }

    /// Reads the member `key`.
    pub fn read(o: &Vec<(String, Json)>, key: &'static str) -> (r: Result<AutomodStatus, DecodeError>)
        ensures
            r == AutomodStatus::member(o@, key),
    {
        match read_str(o, key) {
            Ok(s) => match AutomodStatus::from_wire(s.as_str()) {
                Some(v) => Ok(v),
                None => Err(DecodeError::UnknownValue { field: key, raw: s }),
            },
            Err(e) => Err(e),
        }
    }

    /// Reading the wire text of a value gives the value back.
    pub proof fn lemma_wire_round_trip(self)
        ensures
            AutomodStatus::of_wire(self.wire()) == Some(self),
    {
        reveal_strlit("PENDING");
        reveal_strlit("ALLOWED");
        reveal_strlit("DENIED");
        reveal_strlit("EXPIRED");
        assert("PENDING"@.len() == 7);
        assert("ALLOWED"@.len() == 7);
        assert("DENIED"@.len() == 6);
        assert("EXPIRED"@.len() == 7);
        match self {
            AutomodStatus::Pending => {},
            AutomodStatus::Allowed => {
                assert("ALLOWED"@[0] != "PENDING"@[0]);
                assert("ALLOWED"@ != "PENDING"@);
            },
            AutomodStatus::Denied => {
                assert("DENIED"@ != "PENDING"@);
                assert("DENIED"@ != "ALLOWED"@);
            },
            AutomodStatus::Expired => {
                assert("EXPIRED"@[0] != "PENDING"@[0]);
                assert("EXPIRED"@ != "PENDING"@);
                assert("EXPIRED"@[0] != "ALLOWED"@[0]);
                assert("EXPIRED"@ != "ALLOWED"@);
                assert("EXPIRED"@ != "DENIED"@);
            },
        }
    }
}

/// The data of an `automod_caught_message` reply.
#[derive(Debug)]
pub struct AutomodCaughtMessage {
    /// Id of the message.
    pub message_id: String,
    /// Current state of the message.
    pub status: AutomodStatus,
}

impl AutomodCaughtMessage {
    /// Whether `k` names a member that the record reads.
    pub open spec fn knows(k: Seq<char>) -> bool {
        k == "message_id"@
            || k == "status"@
    }

    /// [`AutomodCaughtMessage::knows`] as a predicate.
    pub open spec fn known() -> spec_fn(Seq<char>) -> bool {
        |k: Seq<char>| AutomodCaughtMessage::knows(k)
    }

    fn is_known(k: &str) -> (r: bool)
        ensures
            r == AutomodCaughtMessage::knows(k@),
    {
        str_eq(k, "message_id")
            || str_eq(k, "status")
    }

    /// Finds the first member that the record does not read.
    pub fn unknown_member(o: &Vec<(String, Json)>) -> (r: Option<DecodeError>)
        ensures
            r == first_unknown(o@, AutomodCaughtMessage::known()),
    {
        let mut i: usize = 0;
        assert(o@.subrange(0, o@.len() as int) == o@);
        while i < o.len()
            invariant
                i <= o@.len(),
                first_unknown(o@, AutomodCaughtMessage::known()) == first_unknown(o@.subrange(i as int, o@.len() as int), AutomodCaughtMessage::known()),
            decreases o@.len() - i,
        {
            let ghost rest = o@.subrange(i as int, o@.len() as int);
            assert(rest.drop_first() == o@.subrange(i + 1, o@.len() as int));
            if !AutomodCaughtMessage::is_known(o[i].0.as_str()) {
                return Some(DecodeError::UnknownField(o[i].0.clone()));
            }
            i = i + 1;
        }
        None
    }

    /// The first error of `o`: a member the record does not read, when those are
    /// denied, then the first field, in declaration order, that cannot be read.
    pub open spec fn error(o: Seq<(String, Json)>, deny: bool) -> Option<DecodeError> {
        either(if deny { first_unknown(o, AutomodCaughtMessage::known()) } else { None },
        either(err_of(str_member(o, "message_id")),
        err_of(AutomodStatus::member(o, "status"))))
    }

    /// Whether every field of `x` is the value read from `o`.
    pub open spec fn reads_as(o: Seq<(String, Json)>, x: AutomodCaughtMessage) -> bool {
        &&& x.message_id == str_member(o, "message_id")->Ok_0
        &&& x.status == AutomodStatus::member(o, "status")->Ok_0
    }

    /// Whether `r` is what decoding the members `o` yields.
    pub open spec fn decoded(o: Seq<(String, Json)>, deny: bool, r: Result<AutomodCaughtMessage, DecodeError>) -> bool {
        match r {
            Ok(x) => AutomodCaughtMessage::error(o, deny) is None && AutomodCaughtMessage::reads_as(o, x),
            Err(e) => AutomodCaughtMessage::error(o, deny) == Some(e),
        }
    }

    /// Decodes the record from the members of a JSON object; with `deny`, a
    /// member that the record does not read is an error.
    pub fn decode(o: &Vec<(String, Json)>, deny: bool) -> (r: Result<AutomodCaughtMessage, DecodeError>)
        ensures
            AutomodCaughtMessage::decoded(o@, deny, r),
    {
        if deny {
            if let Some(e) = AutomodCaughtMessage::unknown_member(o) {
                return Err(e);
            }
        }
        let message_id = match read_str(o, "message_id") {
            Ok(v) => v,
            Err(e) => return Err(e),
        };
        let status = match AutomodStatus::read(o, "status") {
            Ok(v) => v,
            Err(e) => return Err(e),
        };
        Ok(AutomodCaughtMessage { message_id, status })
    }
}


/// A reply on a `chat_moderator_actions` topic, selected by its `type` tag.
#[derive(Debug)]
pub enum ChatModeratorActionsReply {
    /// A moderation action. Tag `moderation_action`.
    ModerationAction(ModerationAction),
    /// A channel term was added, changed or removed. Tag `channel_terms_action`.
    ChannelTermsAction(ChannelTermsAction),
    /// A moderator was added. Tag `moderator_added`.
    ModeratorAdded(ModeratorAdded),
    /// A moderator was removed. Tag `moderator_removed`.
    ModeratorRemoved(ModeratorRemoved),
    /// An unban request was denied. Tag `deny_unban_request`.
    DenyUnbanRequest(UnbanRequest),
    /// An unban request was approved. Tag `approve_unban_request`.
    ApproveUnbanRequest(UnbanRequest),
    /// A user was made VIP. Tag `vip_added`.
    VipAdded(VipAdded),
}

impl ChatModeratorActionsReply {
    /// Whether `r` is what decoding the reply members `m` yields: the `type` tag, then the `data` object, then the variant's record.
    pub open spec fn decoded(m: Seq<(String, Json)>, deny: bool, r: Result<ChatModeratorActionsReply, DecodeError>) -> bool {
        match str_member(m, "type") {
            Err(e) => r == Err::<ChatModeratorActionsReply, DecodeError>(e),
            Ok(tag) => match object_member(m, "data") {
                Err(e) => r == Err::<ChatModeratorActionsReply, DecodeError>(e),
                Ok(d) => {
                    if tag@ == "moderation_action"@ {
                        match r {
                            Ok(ChatModeratorActionsReply::ModerationAction(x)) => ModerationAction::decoded(d, deny, Ok(x)),
                            Ok(_) => false,
                            Err(e) => ModerationAction::decoded(d, deny, Err(e)),
                        }
                    } else if tag@ == "channel_terms_action"@ {
                        match r {
                            Ok(ChatModeratorActionsReply::ChannelTermsAction(x)) => ChannelTermsAction::decoded(d, deny, Ok(x)),
                            Ok(_) => false,
                            Err(e) => ChannelTermsAction::decoded(d, deny, Err(e)),
                        }
                    } else if tag@ == "moderator_added"@ {
                        match r {
                            Ok(ChatModeratorActionsReply::ModeratorAdded(x)) => ModeratorAdded::decoded(d, deny, Ok(x)),
                            Ok(_) => false,
                            Err(e) => ModeratorAdded::decoded(d, deny, Err(e)),
                        }
                    } else if tag@ == "moderator_removed"@ {
                        match r {
                            Ok(ChatModeratorActionsReply::ModeratorRemoved(x)) => ModeratorRemoved::decoded(d, deny, Ok(x)),
                            Ok(_) => false,
                            Err(e) => ModeratorRemoved::decoded(d, deny, Err(e)),
                        }
                    } else if tag@ == "deny_unban_request"@ {
                        match r {
                            Ok(ChatModeratorActionsReply::DenyUnbanRequest(x)) => UnbanRequest::decoded(d, deny, Ok(x)),
                            Ok(_) => false,
                            Err(e) => UnbanRequest::decoded(d, deny, Err(e)),
                        }
                    } else if tag@ == "approve_unban_request"@ {
                        match r {
                            Ok(ChatModeratorActionsReply::ApproveUnbanRequest(x)) => UnbanRequest::decoded(d, deny, Ok(x)),
                            Ok(_) => false,
                            Err(e) => UnbanRequest::decoded(d, deny, Err(e)),
                        }
                    } else if tag@ == "vip_added"@ {
                        match r {
                            Ok(ChatModeratorActionsReply::VipAdded(x)) => VipAdded::decoded(d, deny, Ok(x)),
                            Ok(_) => false,
                            Err(e) => VipAdded::decoded(d, deny, Err(e)),
                        }
                    } else {
                        r == Err::<ChatModeratorActionsReply, DecodeError>(DecodeError::UnknownValue { field: "type", raw: tag })
                    }
                },
            },
        }
    }

    /// Decodes a reply from the members of the nested message; with `deny`, a
    /// member that the variant's record does not read is an error.
    pub fn decode(m: &Vec<(String, Json)>, deny: bool) -> (r: Result<ChatModeratorActionsReply, DecodeError>)
        ensures
            ChatModeratorActionsReply::decoded(m@, deny, r),
    {
        let tag = match read_str(m, "type") {
            Ok(t) => t,
            Err(e) => return Err(e),
        };
        let d = match read_object(m, "data") {
            Ok(d) => d,
            Err(e) => return Err(e),
        };
        if str_eq(tag.as_str(), "moderation_action") {
            match ModerationAction::decode(d, deny) {
                Ok(x) => Ok(ChatModeratorActionsReply::ModerationAction(x)),
                Err(e) => Err(e),
            }
        } else if str_eq(tag.as_str(), "channel_terms_action") {
            match ChannelTermsAction::decode(d, deny) {
                Ok(x) => Ok(ChatModeratorActionsReply::ChannelTermsAction(x)),
                Err(e) => Err(e),
            }
        } else if str_eq(tag.as_str(), "moderator_added") {
            match ModeratorAdded::decode(d, deny) {
                Ok(x) => Ok(ChatModeratorActionsReply::ModeratorAdded(x)),
                Err(e) => Err(e),
            }
        } else if str_eq(tag.as_str(), "moderator_removed") {
            match ModeratorRemoved::decode(d, deny) {
                Ok(x) => Ok(ChatModeratorActionsReply::ModeratorRemoved(x)),
                Err(e) => Err(e),
            }
        } else if str_eq(tag.as_str(), "deny_unban_request") {
            match UnbanRequest::decode(d, deny) {
                Ok(x) => Ok(ChatModeratorActionsReply::DenyUnbanRequest(x)),
                Err(e) => Err(e),
            }
        } else if str_eq(tag.as_str(), "approve_unban_request") {
            match UnbanRequest::decode(d, deny) {
                Ok(x) => Ok(ChatModeratorActionsReply::ApproveUnbanRequest(x)),
                Err(e) => Err(e),
            }
        } else if str_eq(tag.as_str(), "vip_added") {
            match VipAdded::decode(d, deny) {
                Ok(x) => Ok(ChatModeratorActionsReply::VipAdded(x)),
                Err(e) => Err(e),
            }
        } else {
            Err(DecodeError::UnknownValue { field: "type", raw: tag })
        }
    }
}

/// A reply on a `user-moderation-notifications` topic, selected by its `type` tag.
#[derive(Debug)]
pub enum UserModerationNotificationsReply {
    /// A message was held by automod. Tag `automod_caught_message`.
    AutoModCaught {
        /// Id of the message.
        message_id: String,
        /// Current state of the message.
        status: AutomodStatus,
    },
}

impl UserModerationNotificationsReply {
    /// Whether `r` is what decoding the reply members `m` yields.
    pub open spec fn decoded(m: Seq<(String, Json)>, deny: bool, r: Result<UserModerationNotificationsReply, DecodeError>) -> bool {
        match str_member(m, "type") {
            Err(e) => r == Err::<UserModerationNotificationsReply, DecodeError>(e),
            Ok(tag) => match object_member(m, "data") {
                Err(e) => r == Err::<UserModerationNotificationsReply, DecodeError>(e),
                Ok(d) => if tag@ == "automod_caught_message"@ {
                    match r {
                        Ok(UserModerationNotificationsReply::AutoModCaught { message_id, status }) =>
                            AutomodCaughtMessage::decoded(d, deny, Ok(AutomodCaughtMessage { message_id, status })),
                        Err(e) => AutomodCaughtMessage::decoded(d, deny, Err(e)),
                    }
                } else {
                    r == Err::<UserModerationNotificationsReply, DecodeError>(DecodeError::UnknownValue { field: "type", raw: tag })
                },
            },
        }
    }

    /// Decodes a reply from the members of the nested message; with `deny`, a
    /// member that the reply does not read is an error.
    pub fn decode(m: &Vec<(String, Json)>, deny: bool) -> (r: Result<UserModerationNotificationsReply, DecodeError>)
        ensures
            UserModerationNotificationsReply::decoded(m@, deny, r),
    {
        let tag = match read_str(m, "type") {
            Ok(t) => t,
            Err(e) => return Err(e),
        };
        let d = match read_object(m, "data") {
            Ok(d) => d,
            Err(e) => return Err(e),
        };
        if str_eq(tag.as_str(), "automod_caught_message") {
            match AutomodCaughtMessage::decode(d, deny) {
                Ok(x) => Ok(UserModerationNotificationsReply::AutoModCaught { message_id: x.message_id, status: x.status }),
                Err(e) => Err(e),
            }
        } else {
            Err(DecodeError::UnknownValue { field: "type", raw: tag })
        }
    }
}

/// The payload of a `MESSAGE`: the topic it came on and its decoded reply.
#[derive(Debug)]
#[allow(inconsistent_fields)]
pub enum TopicData {
    /// A reply on a `chat_moderator_actions` topic.
    ChatModeratorActions { topic: ChatModeratorActions, reply: ChatModeratorActionsReply },
    /// A reply on a `user-moderation-notifications` topic.
    UserModerationNotifications { topic: UserModerationNotifications, reply: UserModerationNotificationsReply },
    /// A topic of no known family: kept raw, with its message undecoded, so
    /// that a consumer can skip it.
    Unknown { topic: String, message: String },
}

/// The answer to a `LISTEN` or `UNLISTEN` request.
#[derive(Debug)]
pub struct TwitchResponse {
    /// The nonce of the request, if any.
    pub nonce: Option<String>,
    /// The error; absent, `null` and the empty string mean success.
    pub error: Option<String>,
}

/// A PubSub frame, selected by its `type` tag.
#[derive(Debug)]
pub enum Response {
    /// `MESSAGE`: a reply on a topic.
    Message { data: TopicData },
    /// `RESPONSE`: the answer to a request.
    Response(TwitchResponse),
    /// `PONG`.
    Pong,
    /// `RECONNECT`: the server asks the client to reconnect.
    Reconnect,
}

/// Why a PubSub frame could not be decoded; each stage has its own variant.
#[derive(Debug)]
pub enum PubSubError {
    /// The frame is not JSON; the raw frame is kept.
    EnvelopeSyntax { raw: String },
    /// The frame is JSON but its structure is wrong.
    Envelope(DecodeError),
    /// The frame's `type` is outside the known set; the raw tag is kept.
    UnknownType(String),
    /// The nested `message` string is not JSON; the raw string is kept.
    MessageSyntax { raw: String },
    /// The nested message is JSON but does not fit the topic's replies.
    Reply(DecodeError),
}

/// Whether `r` is what decoding a nested message yields for the known topic `t`.
pub open spec fn topic_message_decoded(t: Topics, msg: String, deny: bool, r: Result<Response, PubSubError>) -> bool {
    match json_of_text(msg@) {
        None => r == Err::<Response, PubSubError>(PubSubError::MessageSyntax { raw: msg }),
        Some(Json::Object(m)) => match t {
            Topics::ChatModeratorActions(c) => match r {
                Ok(Response::Message { data: TopicData::ChatModeratorActions { topic, reply } }) =>
                    topic == c && ChatModeratorActionsReply::decoded(m@, deny, Ok(reply)),
                Err(PubSubError::Reply(e)) => ChatModeratorActionsReply::decoded(m@, deny, Err(e)),
                _ => false,
            },
            Topics::UserModerationNotifications(u) => match r {
                Ok(Response::Message { data: TopicData::UserModerationNotifications { topic, reply } }) =>
                    topic == u && UserModerationNotificationsReply::decoded(m@, deny, Ok(reply)),
                Err(PubSubError::Reply(e)) => UserModerationNotificationsReply::decoded(m@, deny, Err(e)),
                _ => false,
            },
        },
        Some(_) => r == Err::<Response, PubSubError>(PubSubError::Reply(DecodeError::NotObject)),
    }
}

/// Whether `r` is what decoding the members `o` of a `MESSAGE` frame yields.
pub open spec fn message_decoded(o: Seq<(String, Json)>, deny: bool, r: Result<Response, PubSubError>) -> bool {
    match object_member(o, "data") {
        Err(e) => r == Err::<Response, PubSubError>(PubSubError::Envelope(e)),
        Ok(d) => match str_member(d, "topic") {
            Err(e) => r == Err::<Response, PubSubError>(PubSubError::Envelope(e)),
            Ok(topic) => match str_member(d, "message") {
                Err(e) => r == Err::<Response, PubSubError>(PubSubError::Envelope(e)),
                Ok(msg) => match Topics::of_text(topic@) {
                    None => r == Ok::<Response, PubSubError>(
                        Response::Message { data: TopicData::Unknown { topic, message: msg } },
                    ),
                    Some(t) => topic_message_decoded(t, msg, deny, r),
                },
            },
        },
    }
}

/// Whether `r` is what decoding the members `o` of a `RESPONSE` frame yields.
pub open spec fn reply_to_request_decoded(o: Seq<(String, Json)>, r: Result<Response, PubSubError>) -> bool {
    match (opt_str_member(o, "nonce"), blank_str_member(o, "error")) {
        (Err(e), _) => r == Err::<Response, PubSubError>(PubSubError::Envelope(e)),
        (Ok(_), Err(e)) => r == Err::<Response, PubSubError>(PubSubError::Envelope(e)),
        (Ok(nonce), Ok(error)) => r == Ok::<Response, PubSubError>(
            Response::Response(TwitchResponse { nonce, error }),
        ),
    }
}

/// Whether `r` is what decoding the JSON frame `j` yields: the `type` tag
/// selects the frame, before anything else of it is read.
pub open spec fn frame_decoded(j: Json, deny: bool, r: Result<Response, PubSubError>) -> bool {
    match j {
        Json::Object(o) => match str_member(o@, "type") {
            Err(e) => r == Err::<Response, PubSubError>(PubSubError::Envelope(e)),
            Ok(tag) => if tag@ == "MESSAGE"@ {
                message_decoded(o@, deny, r)
            } else if tag@ == "RESPONSE"@ {
                reply_to_request_decoded(o@, r)
            } else if tag@ == "PONG"@ {
                r == Ok::<Response, PubSubError>(Response::Pong)
            } else if tag@ == "RECONNECT"@ {
                r == Ok::<Response, PubSubError>(Response::Reconnect)
            } else {
                r == Err::<Response, PubSubError>(PubSubError::UnknownType(tag))
            },
        },
        _ => r == Err::<Response, PubSubError>(PubSubError::Envelope(DecodeError::NotObject)),
    }
}

/// Whether `r` is what decoding the frame text `text` yields.
pub open spec fn response_decoded(text: Seq<char>, deny: bool, r: Result<Response, PubSubError>) -> bool {
    match json_of_text(text) {
        None => r matches Err(PubSubError::EnvelopeSyntax { raw }) && raw@ == text,
        Some(j) => frame_decoded(j, deny, r),
    }
}

fn decode_topic_message(t: Topics, msg: String, deny: bool) -> (r: Result<Response, PubSubError>)
    ensures
        topic_message_decoded(t, msg, deny, r),
{
    match parse_json(msg.as_str()) {
        None => Err(PubSubError::MessageSyntax { raw: msg }),
        Some(Json::Object(m)) => match t {
            Topics::ChatModeratorActions(c) => match ChatModeratorActionsReply::decode(&m, deny) {
                Ok(reply) => Ok(Response::Message { data: TopicData::ChatModeratorActions { topic: c, reply } }),
                Err(e) => Err(PubSubError::Reply(e)),
            },
            Topics::UserModerationNotifications(u) => match UserModerationNotificationsReply::decode(&m, deny) {
                Ok(reply) => Ok(Response::Message { data: TopicData::UserModerationNotifications { topic: u, reply } }),
                Err(e) => Err(PubSubError::Reply(e)),
            },
        },
        Some(_) => Err(PubSubError::Reply(DecodeError::NotObject)),
    }
}

fn decode_message(o: &Vec<(String, Json)>, deny: bool) -> (r: Result<Response, PubSubError>)
    ensures
        message_decoded(o@, deny, r),
{
    let d = match read_object(o, "data") {
        Ok(d) => d,
        Err(e) => return Err(PubSubError::Envelope(e)),
    };
    let topic = match read_str(d, "topic") {
        Ok(t) => t,
        Err(e) => return Err(PubSubError::Envelope(e)),
    };
    let msg = match read_str(d, "message") {
        Ok(m) => m,
        Err(e) => return Err(PubSubError::Envelope(e)),
    };
    match Topics::from_topic_str(topic.as_str()) {
        None => Ok(Response::Message { data: TopicData::Unknown { topic, message: msg } }),
        Some(t) => decode_topic_message(t, msg, deny),
    }
}

/// Decodes a frame that is already parsed as JSON; with `deny`, a member
/// that a reply record does not read is an error.
pub fn decode_frame(j: &Json, deny: bool) -> (r: Result<Response, PubSubError>)
    ensures
        frame_decoded(*j, deny, r),
{
    match j {
        Json::Object(o) => {
            let tag = match read_str(o, "type") {
                Ok(t) => t,
                Err(e) => return Err(PubSubError::Envelope(e)),
            };
            if str_eq(tag.as_str(), "MESSAGE") {
                decode_message(o, deny)
            } else if str_eq(tag.as_str(), "RESPONSE") {
                let nonce = match read_opt_str(o, "nonce") {
                    Ok(v) => v,
                    Err(e) => return Err(PubSubError::Envelope(e)),
                };
                let error = match read_blank_str(o, "error") {
                    Ok(v) => v,
                    Err(e) => return Err(PubSubError::Envelope(e)),
                };
                Ok(Response::Response(TwitchResponse { nonce, error }))
            } else if str_eq(tag.as_str(), "PONG") {
                Ok(Response::Pong)
            } else if str_eq(tag.as_str(), "RECONNECT") {
                Ok(Response::Reconnect)
            } else {
                Err(PubSubError::UnknownType(tag))
            }
        },
        _ => Err(PubSubError::Envelope(DecodeError::NotObject)),
    }
}

impl Response {
    /// Decodes a PubSub frame from its text; members that a reply record
    /// does not read are ignored.
    pub fn parse(text: &str) -> (r: Result<Response, PubSubError>)
        ensures
            response_decoded(text@, false, r),
    {
        Response::parse_with(text, false)
    }

    /// Decodes a PubSub frame from its text; a member that a reply record
    /// does not read is an error.
    pub fn parse_strict(text: &str) -> (r: Result<Response, PubSubError>)
        ensures
            response_decoded(text@, true, r),
    {
        Response::parse_with(text, true)
    }

    /// Decodes a PubSub frame from its text, denying unknown members or not.
    pub fn parse_with(text: &str, deny: bool) -> (r: Result<Response, PubSubError>)
        ensures
            response_decoded(text@, deny, r),
    {
        match parse_json(text) {
            None => Err(PubSubError::EnvelopeSyntax { raw: String::from_str(text) }),
            Some(j) => decode_frame(&j, deny),
        }
    }
}

/// A frame whose outer JSON parses, on a known topic, whose nested `message`
/// string is not JSON, fails at the nested stage and keeps that string.
pub proof fn lemma_nested_syntax_is_reported(text: Seq<char>, deny: bool, r: Result<Response, PubSubError>)
    requires
        response_decoded(text, deny, r),
        json_of_text(text) matches Some(Json::Object(o)) && ({
            &&& str_member(o@, "type") matches Ok(tag) && tag@ == "MESSAGE"@
            &&& object_member(o@, "data") matches Ok(d) && ({
                &&& str_member(d, "topic") matches Ok(topic) && Topics::of_text(topic@) is Some
                &&& str_member(d, "message") matches Ok(msg) && json_of_text(msg@) is None
            })
        }),
    ensures
        r matches Err(PubSubError::MessageSyntax { raw }) && ({
            let o = json_of_text(text)->Some_0->Object_0;
            raw == str_member(object_member(o@, "data")->Ok_0, "message")->Ok_0
        }),
{
}

} // verus!
