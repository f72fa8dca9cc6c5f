//! PubSub replies of the `chat_moderator_actions` topic.
use vstd::prelude::*;

use crate::fields::{
    either, err_of, first_unknown, flag_member, bool_member, opt_view, read_blank_str, read_blank_timestamp, read_bool, read_flag,
    read_str, read_str_list_or_empty, str_list_or_empty_member, str_member, blank_str_member,
    blank_timestamp_member,
};
use crate::json::{DecodeError, Json};
use crate::text::str_eq;
use crate::timestamp::Timestamp;

verus! {

/// A moderation command.
#[derive(Clone, Copy, Debug, PartialEq, Eq, Structural)]
pub enum ModerationActionCommand {
    /// A message was deleted with `/delete <msg-id>`.
    Delete,
    /// A user was timed out.
    Timeout,
    /// A timeout was lifted.
    Untimeout,
    /// A user was made a moderator.
    Mod,
    /// A user was removed as moderator.
    Unmod,
    /// The automod configuration changed.
    ModifiedAutomodProperties,
    /// A user was banned.
    Ban,
    /// A user was unbanned.
    Unban,
    /// An automod message was rejected.
    AutomodRejected,
    /// An automod message was approved.
    ApproveAutomodMessage,
    /// An automod message was denied.
    DeniedAutomodMessage,
    /// The channel started a raid.
    Raid,
    /// The channel cancelled a raid.
    Unraid,
    /// Slow mode was enabled.
    Slow,
    /// Slow mode was disabled.
    SlowOff,
    /// Followers-only chat was enabled.
    Followers,
    /// Followers-only chat was disabled.
    FollowersOff,
    /// Subscriber-only chat was enabled.
    Subscribers,
    /// Subscriber-only chat was disabled.
    SubscribersOff,
    /// Emote-only chat was enabled.
    EmoteOnly,
    /// Emote-only chat was disabled.
    EmoteOnlyOff,
    /// Chat was cleared for all viewers.
    Clear,
    /// Unique chat was enabled.
    R9KBeta,
    /// Unique chat was disabled.
    R9KBetaOff,
    /// A user was made a VIP.
    Vip,
    /// A user was removed as VIP.
    Unvip,
    /// Hosting started.
    Host,
    /// Hosting stopped.
    Unhost,
    /// An unban request was approved.
    ApproveUnbanRequest,
    /// An unban request was denied.
    DenyUnbanRequest,
    /// The user's own message was deleted.
    DeleteNotification,
}

impl ModerationActionCommand {
    /// The value named by the wire text `s`, if any.
    pub open spec fn of_wire(s: Seq<char>) -> Option<ModerationActionCommand> {
        if s == "delete"@ {
            Some(ModerationActionCommand::Delete)
        } else if s == "timeout"@ {
            Some(ModerationActionCommand::Timeout)
        } else if s == "untimeout"@ {
            Some(ModerationActionCommand::Untimeout)
        } else if s == "mod"@ {
            Some(ModerationActionCommand::Mod)
        } else if s == "unmod"@ {
            Some(ModerationActionCommand::Unmod)
        } else if s == "modified_automod_properties"@ {
            Some(ModerationActionCommand::ModifiedAutomodProperties)
        } else if s == "ban"@ {
            Some(ModerationActionCommand::Ban)
        } else if s == "unban"@ {
            Some(ModerationActionCommand::Unban)
        } else if s == "automod_rejected"@ {
            Some(ModerationActionCommand::AutomodRejected)
        } else if s == "approve_automod_message"@ {
            Some(ModerationActionCommand::ApproveAutomodMessage)
        } else if s == "denied_automod_message"@ {
            Some(ModerationActionCommand::DeniedAutomodMessage)
        } else if s == "raid"@ {
            Some(ModerationActionCommand::Raid)
        } else if s == "unraid"@ {
            Some(ModerationActionCommand::Unraid)
        } else if s == "slow"@ {
            Some(ModerationActionCommand::Slow)
        } else if s == "slowoff"@ {
            Some(ModerationActionCommand::SlowOff)
        } else if s == "followers"@ {
            Some(ModerationActionCommand::Followers)
        } else if s == "followersoff"@ {
            Some(ModerationActionCommand::FollowersOff)
        } else if s == "subscribers"@ {
            Some(ModerationActionCommand::Subscribers)
        } else if s == "subscribersoff"@ {
            Some(ModerationActionCommand::SubscribersOff)
        } else if s == "emoteonly"@ {
            Some(ModerationActionCommand::EmoteOnly)
        } else if s == "emoteonlyoff"@ {
            Some(ModerationActionCommand::EmoteOnlyOff)
        } else if s == "clear"@ {
            Some(ModerationActionCommand::Clear)
        } else if s == "r9kbeta"@ {
            Some(ModerationActionCommand::R9KBeta)
        } else if s == "r9kbetaoff"@ {
            Some(ModerationActionCommand::R9KBetaOff)
        } else if s == "vip"@ {
            Some(ModerationActionCommand::Vip)
        } else if s == "unvip"@ {
            Some(ModerationActionCommand::Unvip)
        } else if s == "host"@ {
            Some(ModerationActionCommand::Host)
        } else if s == "unhost"@ {
            Some(ModerationActionCommand::Unhost)
        } else if s == "APPROVE_UNBAN_REQUEST"@ {
            Some(ModerationActionCommand::ApproveUnbanRequest)
        } else if s == "DENY_UNBAN_REQUEST"@ {
            Some(ModerationActionCommand::DenyUnbanRequest)
        } else if s == "delete_notification"@ {
            Some(ModerationActionCommand::DeleteNotification)
        } else {
            None
        }
    }

    /// The wire text of the value.
    pub open spec fn wire(self) -> Seq<char> {
        match self {
            ModerationActionCommand::Delete => "delete"@,
            ModerationActionCommand::Timeout => "timeout"@,
            ModerationActionCommand::Untimeout => "untimeout"@,
            ModerationActionCommand::Mod => "mod"@,
            ModerationActionCommand::Unmod => "unmod"@,
            ModerationActionCommand::ModifiedAutomodProperties => "modified_automod_properties"@,
            ModerationActionCommand::Ban => "ban"@,
            ModerationActionCommand::Unban => "unban"@,
            ModerationActionCommand::AutomodRejected => "automod_rejected"@,
            ModerationActionCommand::ApproveAutomodMessage => "approve_automod_message"@,
            ModerationActionCommand::DeniedAutomodMessage => "denied_automod_message"@,
            ModerationActionCommand::Raid => "raid"@,
            ModerationActionCommand::Unraid => "unraid"@,
            ModerationActionCommand::Slow => "slow"@,
            ModerationActionCommand::SlowOff => "slowoff"@,
            ModerationActionCommand::Followers => "followers"@,
            ModerationActionCommand::FollowersOff => "followersoff"@,
            ModerationActionCommand::Subscribers => "subscribers"@,
            ModerationActionCommand::SubscribersOff => "subscribersoff"@,
            ModerationActionCommand::EmoteOnly => "emoteonly"@,
            ModerationActionCommand::EmoteOnlyOff => "emoteonlyoff"@,
            ModerationActionCommand::Clear => "clear"@,
            ModerationActionCommand::R9KBeta => "r9kbeta"@,
            ModerationActionCommand::R9KBetaOff => "r9kbetaoff"@,
            ModerationActionCommand::Vip => "vip"@,
            ModerationActionCommand::Unvip => "unvip"@,
            ModerationActionCommand::Host => "host"@,
            ModerationActionCommand::Unhost => "unhost"@,
            ModerationActionCommand::ApproveUnbanRequest => "APPROVE_UNBAN_REQUEST"@,
            ModerationActionCommand::DenyUnbanRequest => "DENY_UNBAN_REQUEST"@,
            ModerationActionCommand::DeleteNotification => "delete_notification"@,
        }
    }

    /// Reads a value from its wire text.
    pub fn from_wire(s: &str) -> (r: Option<ModerationActionCommand>)
        ensures
            r == ModerationActionCommand::of_wire(s@),
    {
        if str_eq(s, "delete") {
            Some(ModerationActionCommand::Delete)
        } else if str_eq(s, "timeout") {
            Some(ModerationActionCommand::Timeout)
        } else if str_eq(s, "untimeout") {
            Some(ModerationActionCommand::Untimeout)
        } else if str_eq(s, "mod") {
            Some(ModerationActionCommand::Mod)
        } else if str_eq(s, "unmod") {
            Some(ModerationActionCommand::Unmod)
        } else if str_eq(s, "modified_automod_properties") {
            Some(ModerationActionCommand::ModifiedAutomodProperties)
        } else if str_eq(s, "ban") {
            Some(ModerationActionCommand::Ban)
        } else if str_eq(s, "unban") {
            Some(ModerationActionCommand::Unban)
        } else if str_eq(s, "automod_rejected") {
            Some(ModerationActionCommand::AutomodRejected)
        } else if str_eq(s, "approve_automod_message") {
            Some(ModerationActionCommand::ApproveAutomodMessage)
        } else if str_eq(s, "denied_automod_message") {
            Some(ModerationActionCommand::DeniedAutomodMessage)
        } else if str_eq(s, "raid") {
            Some(ModerationActionCommand::Raid)
        } else if str_eq(s, "unraid") {
            Some(ModerationActionCommand::Unraid)
        } else if str_eq(s, "slow") {
            Some(ModerationActionCommand::Slow)
        } else if str_eq(s, "slowoff") {
            Some(ModerationActionCommand::SlowOff)
        } else if str_eq(s, "followers") {
            Some(ModerationActionCommand::Followers)
        } else if str_eq(s, "followersoff") {
            Some(ModerationActionCommand::FollowersOff)
        } else if str_eq(s, "subscribers") {
            Some(ModerationActionCommand::Subscribers)
        } else if str_eq(s, "subscribersoff") {
            Some(ModerationActionCommand::SubscribersOff)
        } else if str_eq(s, "emoteonly") {
            Some(ModerationActionCommand::EmoteOnly)
        } else if str_eq(s, "emoteonlyoff") {
            Some(ModerationActionCommand::EmoteOnlyOff)
        } else if str_eq(s, "clear") {
            Some(ModerationActionCommand::Clear)
        } else if str_eq(s, "r9kbeta") {
            Some(ModerationActionCommand::R9KBeta)
        } else if str_eq(s, "r9kbetaoff") {
            Some(ModerationActionCommand::R9KBetaOff)
        } else if str_eq(s, "vip") {
            Some(ModerationActionCommand::Vip)
        } else if str_eq(s, "unvip") {
            Some(ModerationActionCommand::Unvip)
        } else if str_eq(s, "host") {
            Some(ModerationActionCommand::Host)
        } else if str_eq(s, "unhost") {
            Some(ModerationActionCommand::Unhost)
        } else if str_eq(s, "APPROVE_UNBAN_REQUEST") {
            Some(ModerationActionCommand::ApproveUnbanRequest)
        } else if str_eq(s, "DENY_UNBAN_REQUEST") {
            Some(ModerationActionCommand::DenyUnbanRequest)
        } else if str_eq(s, "delete_notification") {
            Some(ModerationActionCommand::DeleteNotification)
        } else {
            None
        }
    }

    /// The wire text of the value.
    pub fn as_str(&self) -> (r: &'static str)
        ensures
            r@ == self.wire(),
    {
        match self {
            ModerationActionCommand::Delete => "delete",
            ModerationActionCommand::Timeout => "timeout",
            ModerationActionCommand::Untimeout => "untimeout",
            ModerationActionCommand::Mod => "mod",
            ModerationActionCommand::Unmod => "unmod",
            ModerationActionCommand::ModifiedAutomodProperties => "modified_automod_properties",
            ModerationActionCommand::Ban => "ban",
            ModerationActionCommand::Unban => "unban",
            ModerationActionCommand::AutomodRejected => "automod_rejected",
            ModerationActionCommand::ApproveAutomodMessage => "approve_automod_message",
            ModerationActionCommand::DeniedAutomodMessage => "denied_automod_message",
            ModerationActionCommand::Raid => "raid",
            ModerationActionCommand::Unraid => "unraid",
            ModerationActionCommand::Slow => "slow",
            ModerationActionCommand::SlowOff => "slowoff",
            ModerationActionCommand::Followers => "followers",
            ModerationActionCommand::FollowersOff => "followersoff",
            ModerationActionCommand::Subscribers => "subscribers",
            ModerationActionCommand::SubscribersOff => "subscribersoff",
            ModerationActionCommand::EmoteOnly => "emoteonly",
            ModerationActionCommand::EmoteOnlyOff => "emoteonlyoff",
            ModerationActionCommand::Clear => "clear",
            ModerationActionCommand::R9KBeta => "r9kbeta",
            ModerationActionCommand::R9KBetaOff => "r9kbetaoff",
            ModerationActionCommand::Vip => "vip",
            ModerationActionCommand::Unvip => "unvip",
            ModerationActionCommand::Host => "host",
            ModerationActionCommand::Unhost => "unhost",
            ModerationActionCommand::ApproveUnbanRequest => "APPROVE_UNBAN_REQUEST",
            ModerationActionCommand::DenyUnbanRequest => "DENY_UNBAN_REQUEST",
            ModerationActionCommand::DeleteNotification => "delete_notification",
        }
    }

    /// The value of the member `key`: a string that names a known value.
    pub open spec fn member(o: Seq<(String, Json)>, key: &'static str) -> Result<ModerationActionCommand, DecodeError> {
        match str_member(o, key) {
            Ok(s) => match ModerationActionCommand::of_wire(s@) {
                Some(v) => Ok(v),
                None => Err(DecodeError::UnknownValue { field: key, raw: s }),
            },
            Err(e) => Err(e),
        }
    }

    /// Reads the member `key`.
    pub fn read(o: &Vec<(String, Json)>, key: &'static str) -> (r: Result<ModerationActionCommand, DecodeError>)
        ensures
            r == ModerationActionCommand::member(o@, key),
    {
        match read_str(o, key) {
            Ok(s) => match ModerationActionCommand::from_wire(s.as_str()) {
                Some(v) => Ok(v),
                None => Err(DecodeError::UnknownValue { field: key, raw: s }),
            },
            Err(e) => Err(e),
        }
    }

    /// Reading the wire text of a value gives the value back.
    pub proof fn lemma_wire_round_trip(self)
        ensures
            ModerationActionCommand::of_wire(self.wire()) == Some(self),
    {
        reveal_strlit("delete");
        reveal_strlit("timeout");
        reveal_strlit("untimeout");
        reveal_strlit("mod");
        reveal_strlit("unmod");
        reveal_strlit("modified_automod_properties");
        reveal_strlit("ban");
        reveal_strlit("unban");
        reveal_strlit("automod_rejected");
        reveal_strlit("approve_automod_message");
        reveal_strlit("denied_automod_message");
        reveal_strlit("raid");
        reveal_strlit("unraid");
        reveal_strlit("slow");
        reveal_strlit("slowoff");
        reveal_strlit("followers");
        reveal_strlit("followersoff");
        reveal_strlit("subscribers");
        reveal_strlit("subscribersoff");
        reveal_strlit("emoteonly");
        reveal_strlit("emoteonlyoff");
        reveal_strlit("clear");
        reveal_strlit("r9kbeta");
        reveal_strlit("r9kbetaoff");
        reveal_strlit("vip");
        reveal_strlit("unvip");
        reveal_strlit("host");
        reveal_strlit("unhost");
        reveal_strlit("APPROVE_UNBAN_REQUEST");
        reveal_strlit("DENY_UNBAN_REQUEST");
        reveal_strlit("delete_notification");
        assert("delete"@.len() == 6);
        assert("timeout"@.len() == 7);
        assert("untimeout"@.len() == 9);
        assert("mod"@.len() == 3);
        assert("unmod"@.len() == 5);
        assert("modified_automod_properties"@.len() == 27);
        assert("ban"@.len() == 3);
        assert("unban"@.len() == 5);
        assert("automod_rejected"@.len() == 16);
        assert("approve_automod_message"@.len() == 23);
        assert("denied_automod_message"@.len() == 22);
        assert("raid"@.len() == 4);
        assert("unraid"@.len() == 6);
        assert("slow"@.len() == 4);
        assert("slowoff"@.len() == 7);
        assert("followers"@.len() == 9);
        assert("followersoff"@.len() == 12);
        assert("subscribers"@.len() == 11);
        assert("subscribersoff"@.len() == 14);
        assert("emoteonly"@.len() == 9);
        assert("emoteonlyoff"@.len() == 12);
        assert("clear"@.len() == 5);
        assert("r9kbeta"@.len() == 7);
        assert("r9kbetaoff"@.len() == 10);
        assert("vip"@.len() == 3);
        assert("unvip"@.len() == 5);
        assert("host"@.len() == 4);
        assert("unhost"@.len() == 6);
        assert("APPROVE_UNBAN_REQUEST"@.len() == 21);
        assert("DENY_UNBAN_REQUEST"@.len() == 18);
        assert("delete_notification"@.len() == 19);
        match self {
            ModerationActionCommand::Delete => {},
            ModerationActionCommand::Timeout => {
                assert("timeout"@ != "delete"@);
            },
            ModerationActionCommand::Untimeout => {
                assert("untimeout"@ != "delete"@);
                assert("untimeout"@ != "timeout"@);
            },
            ModerationActionCommand::Mod => {
                assert("mod"@ != "delete"@);
                assert("mod"@ != "timeout"@);
                assert("mod"@ != "untimeout"@);
            },
            ModerationActionCommand::Unmod => {
                assert("unmod"@ != "delete"@);
                assert("unmod"@ != "timeout"@);
                assert("unmod"@ != "untimeout"@);
                assert("unmod"@ != "mod"@);
            },
            ModerationActionCommand::ModifiedAutomodProperties => {
                assert("modified_automod_properties"@ != "delete"@);
                assert("modified_automod_properties"@ != "timeout"@);
                assert("modified_automod_properties"@ != "untimeout"@);
                assert("modified_automod_properties"@ != "mod"@);
                assert("modified_automod_properties"@ != "unmod"@);
            },
            ModerationActionCommand::Ban => {
                assert("ban"@ != "delete"@);
                assert("ban"@ != "timeout"@);
                assert("ban"@ != "untimeout"@);
                assert("ban"@[0] != "mod"@[0]);
                assert("ban"@ != "mod"@);
                assert("ban"@ != "unmod"@);
                assert("ban"@ != "modified_automod_properties"@);
            },
            ModerationActionCommand::Unban => {
                assert("unban"@ != "delete"@);
                assert("unban"@ != "timeout"@);
                assert("unban"@ != "untimeout"@);
                assert("unban"@ != "mod"@);
                assert("unban"@[2] != "unmod"@[2]);
                assert("unban"@ != "unmod"@);
                assert("unban"@ != "modified_automod_properties"@);
                assert("unban"@ != "ban"@);
            },
            ModerationActionCommand::AutomodRejected => {
                assert("automod_rejected"@ != "delete"@);
                assert("automod_rejected"@ != "timeout"@);
                assert("automod_rejected"@ != "untimeout"@);
                assert("automod_rejected"@ != "mod"@);
                assert("automod_rejected"@ != "unmod"@);
                assert("automod_rejected"@ != "modified_automod_properties"@);
                assert("automod_rejected"@ != "ban"@);
                assert("automod_rejected"@ != "unban"@);
            },
            ModerationActionCommand::ApproveAutomodMessage => {
                assert("approve_automod_message"@ != "delete"@);
                assert("approve_automod_message"@ != "timeout"@);
                assert("approve_automod_message"@ != "untimeout"@);
                assert("approve_automod_message"@ != "mod"@);
                assert("approve_automod_message"@ != "unmod"@);
                assert("approve_automod_message"@ != "modified_automod_properties"@);
                assert("approve_automod_message"@ != "ban"@);
                assert("approve_automod_message"@ != "unban"@);
                assert("approve_automod_message"@ != "automod_rejected"@);
            },
            ModerationActionCommand::DeniedAutomodMessage => {
                assert("denied_automod_message"@ != "delete"@);
                assert("denied_automod_message"@ != "timeout"@);
                assert("denied_automod_message"@ != "untimeout"@);
                assert("denied_automod_message"@ != "mod"@);
                assert("denied_automod_message"@ != "unmod"@);
                assert("denied_automod_message"@ != "modified_automod_properties"@);
                assert("denied_automod_message"@ != "ban"@);
                assert("denied_automod_message"@ != "unban"@);
                assert("denied_automod_message"@ != "automod_rejected"@);
                assert("denied_automod_message"@ != "approve_automod_message"@);
            },
            ModerationActionCommand::Raid => {
                assert("raid"@ != "delete"@);
                assert("raid"@ != "timeout"@);
                assert("raid"@ != "untimeout"@);
                assert("raid"@ != "mod"@);
                assert("raid"@ != "unmod"@);
                assert("raid"@ != "modified_automod_properties"@);
                assert("raid"@ != "ban"@);
                assert("raid"@ != "unban"@);
                assert("raid"@ != "automod_rejected"@);
                assert("raid"@ != "approve_automod_message"@);
                assert("raid"@ != "denied_automod_message"@);
            },
            ModerationActionCommand::Unraid => {
                assert("unraid"@[0] != "delete"@[0]);
                assert("unraid"@ != "delete"@);
                assert("unraid"@ != "timeout"@);
                assert("unraid"@ != "untimeout"@);
                assert("unraid"@ != "mod"@);
                assert("unraid"@ != "unmod"@);
                assert("unraid"@ != "modified_automod_properties"@);
                assert("unraid"@ != "ban"@);
                assert("unraid"@ != "unban"@);
                assert("unraid"@ != "automod_rejected"@);
                assert("unraid"@ != "approve_automod_message"@);
                assert("unraid"@ != "denied_automod_message"@);
                assert("unraid"@ != "raid"@);
            },
            ModerationActionCommand::Slow => {
                assert("slow"@ != "delete"@);
                assert("slow"@ != "timeout"@);
                assert("slow"@ != "untimeout"@);
                assert("slow"@ != "mod"@);
                assert("slow"@ != "unmod"@);
                assert("slow"@ != "modified_automod_properties"@);
                assert("slow"@ != "ban"@);
                assert("slow"@ != "unban"@);
                assert("slow"@ != "automod_rejected"@);
                assert("slow"@ != "approve_automod_message"@);
                assert("slow"@ != "denied_automod_message"@);
                assert("slow"@[0] != "raid"@[0]);
                assert("slow"@ != "raid"@);
                assert("slow"@ != "unraid"@);
            },
            ModerationActionCommand::SlowOff => {
                assert("slowoff"@ != "delete"@);
                assert("slowoff"@[0] != "timeout"@[0]);
                assert("slowoff"@ != "timeout"@);
                assert("slowoff"@ != "untimeout"@);
                assert("slowoff"@ != "mod"@);
                assert("slowoff"@ != "unmod"@);
                assert("slowoff"@ != "modified_automod_properties"@);
                assert("slowoff"@ != "ban"@);
                assert("slowoff"@ != "unban"@);
                assert("slowoff"@ != "automod_rejected"@);
                assert("slowoff"@ != "approve_automod_message"@);
                assert("slowoff"@ != "denied_automod_message"@);
                assert("slowoff"@ != "raid"@);
                assert("slowoff"@ != "unraid"@);
                assert("slowoff"@ != "slow"@);
            },
            ModerationActionCommand::Followers => {
                assert("followers"@ != "delete"@);
                assert("followers"@ != "timeout"@);
                assert("followers"@[0] != "untimeout"@[0]);
                assert("followers"@ != "untimeout"@);
                assert("followers"@ != "mod"@);
                assert("followers"@ != "unmod"@);
                assert("followers"@ != "modified_automod_properties"@);
                assert("followers"@ != "ban"@);
                assert("followers"@ != "unban"@);
                assert("followers"@ != "automod_rejected"@);
                assert("followers"@ != "approve_automod_message"@);
                assert("followers"@ != "denied_automod_message"@);
                assert("followers"@ != "raid"@);
                assert("followers"@ != "unraid"@);
                assert("followers"@ != "slow"@);
                assert("followers"@ != "slowoff"@);
            },
            ModerationActionCommand::FollowersOff => {
                assert("followersoff"@ != "delete"@);
                assert("followersoff"@ != "timeout"@);
                assert("followersoff"@ != "untimeout"@);
                assert("followersoff"@ != "mod"@);
                assert("followersoff"@ != "unmod"@);
                assert("followersoff"@ != "modified_automod_properties"@);
                assert("followersoff"@ != "ban"@);
                assert("followersoff"@ != "unban"@);
                assert("followersoff"@ != "automod_rejected"@);
                assert("followersoff"@ != "approve_automod_message"@);
                assert("followersoff"@ != "denied_automod_message"@);
                assert("followersoff"@ != "raid"@);
                assert("followersoff"@ != "unraid"@);
                assert("followersoff"@ != "slow"@);
                assert("followersoff"@ != "slowoff"@);
                assert("followersoff"@ != "followers"@);
            },
            ModerationActionCommand::Subscribers => {
                assert("subscribers"@ != "delete"@);
                assert("subscribers"@ != "timeout"@);
                assert("subscribers"@ != "untimeout"@);
                assert("subscribers"@ != "mod"@);
                assert("subscribers"@ != "unmod"@);
                assert("subscribers"@ != "modified_automod_properties"@);
                assert("subscribers"@ != "ban"@);
                assert("subscribers"@ != "unban"@);
                assert("subscribers"@ != "automod_rejected"@);
                assert("subscribers"@ != "approve_automod_message"@);
                assert("subscribers"@ != "denied_automod_message"@);
                assert("subscribers"@ != "raid"@);
                assert("subscribers"@ != "unraid"@);
                assert("subscribers"@ != "slow"@);
                assert("subscribers"@ != "slowoff"@);
                assert("subscribers"@ != "followers"@);
                assert("subscribers"@ != "followersoff"@);
            },
            ModerationActionCommand::SubscribersOff => {
                assert("subscribersoff"@ != "delete"@);
                assert("subscribersoff"@ != "timeout"@);
                assert("subscribersoff"@ != "untimeout"@);
                assert("subscribersoff"@ != "mod"@);
                assert("subscribersoff"@ != "unmod"@);
                assert("subscribersoff"@ != "modified_automod_properties"@);
                assert("subscribersoff"@ != "ban"@);
                assert("subscribersoff"@ != "unban"@);
                assert("subscribersoff"@ != "automod_rejected"@);
                assert("subscribersoff"@ != "approve_automod_message"@);
                assert("subscribersoff"@ != "denied_automod_message"@);
                assert("subscribersoff"@ != "raid"@);
                assert("subscribersoff"@ != "unraid"@);
                assert("subscribersoff"@ != "slow"@);
                assert("subscribersoff"@ != "slowoff"@);
                assert("subscribersoff"@ != "followers"@);
                assert("subscribersoff"@ != "followersoff"@);
                assert("subscribersoff"@ != "subscribers"@);
            },
            ModerationActionCommand::EmoteOnly => {
                assert("emoteonly"@ != "delete"@);
                assert("emoteonly"@ != "timeout"@);
                assert("emoteonly"@[0] != "untimeout"@[0]);
                assert("emoteonly"@ != "untimeout"@);
                assert("emoteonly"@ != "mod"@);
                assert("emoteonly"@ != "unmod"@);
                assert("emoteonly"@ != "modified_automod_properties"@);
                assert("emoteonly"@ != "ban"@);
                assert("emoteonly"@ != "unban"@);
                assert("emoteonly"@ != "automod_rejected"@);
                assert("emoteonly"@ != "approve_automod_message"@);
                assert("emoteonly"@ != "denied_automod_message"@);
                assert("emoteonly"@ != "raid"@);
                assert("emoteonly"@ != "unraid"@);
                assert("emoteonly"@ != "slow"@);
                assert("emoteonly"@ != "slowoff"@);
                assert("emoteonly"@[0] != "followers"@[0]);
                assert("emoteonly"@ != "followers"@);
                assert("emoteonly"@ != "followersoff"@);
                assert("emoteonly"@ != "subscribers"@);
                assert("emoteonly"@ != "subscribersoff"@);
            },
            ModerationActionCommand::EmoteOnlyOff => {
                assert("emoteonlyoff"@ != "delete"@);
                assert("emoteonlyoff"@ != "timeout"@);
                assert("emoteonlyoff"@ != "untimeout"@);
                assert("emoteonlyoff"@ != "mod"@);
                assert("emoteonlyoff"@ != "unmod"@);
                assert("emoteonlyoff"@ != "modified_automod_properties"@);
                assert("emoteonlyoff"@ != "ban"@);
                assert("emoteonlyoff"@ != "unban"@);
                assert("emoteonlyoff"@ != "automod_rejected"@);
                assert("emoteonlyoff"@ != "approve_automod_message"@);
                assert("emoteonlyoff"@ != "denied_automod_message"@);
                assert("emoteonlyoff"@ != "raid"@);
                assert("emoteonlyoff"@ != "unraid"@);
                assert("emoteonlyoff"@ != "slow"@);
                assert("emoteonlyoff"@ != "slowoff"@);
                assert("emoteonlyoff"@ != "followers"@);
                assert("emoteonlyoff"@[0] != "followersoff"@[0]);
                assert("emoteonlyoff"@ != "followersoff"@);
                assert("emoteonlyoff"@ != "subscribers"@);
                assert("emoteonlyoff"@ != "subscribersoff"@);
                assert("emoteonlyoff"@ != "emoteonly"@);
            },
            ModerationActionCommand::Clear => {
                assert("clear"@ != "delete"@);
                assert("clear"@ != "timeout"@);
                assert("clear"@ != "untimeout"@);
                assert("clear"@ != "mod"@);
                assert("clear"@[0] != "unmod"@[0]);
                assert("clear"@ != "unmod"@);
                assert("clear"@ != "modified_automod_properties"@);
                assert("clear"@ != "ban"@);
                assert("clear"@[0] != "unban"@[0]);
                assert("clear"@ != "unban"@);
                assert("clear"@ != "automod_rejected"@);
                assert("clear"@ != "approve_automod_message"@);
                assert("clear"@ != "denied_automod_message"@);
                assert("clear"@ != "raid"@);
                assert("clear"@ != "unraid"@);
                assert("clear"@ != "slow"@);
                assert("clear"@ != "slowoff"@);
                assert("clear"@ != "followers"@);
                assert("clear"@ != "followersoff"@);
                assert("clear"@ != "subscribers"@);
                assert("clear"@ != "subscribersoff"@);
                assert("clear"@ != "emoteonly"@);
                assert("clear"@ != "emoteonlyoff"@);
            },
            ModerationActionCommand::R9KBeta => {
                assert("r9kbeta"@ != "delete"@);
                assert("r9kbeta"@[0] != "timeout"@[0]);
                assert("r9kbeta"@ != "timeout"@);
                assert("r9kbeta"@ != "untimeout"@);
                assert("r9kbeta"@ != "mod"@);
                assert("r9kbeta"@ != "unmod"@);
                assert("r9kbeta"@ != "modified_automod_properties"@);
                assert("r9kbeta"@ != "ban"@);
                assert("r9kbeta"@ != "unban"@);
                assert("r9kbeta"@ != "automod_rejected"@);
                assert("r9kbeta"@ != "approve_automod_message"@);
                assert("r9kbeta"@ != "denied_automod_message"@);
                assert("r9kbeta"@ != "raid"@);
                assert("r9kbeta"@ != "unraid"@);
                assert("r9kbeta"@ != "slow"@);
                assert("r9kbeta"@[0] != "slowoff"@[0]);
                assert("r9kbeta"@ != "slowoff"@);
                assert("r9kbeta"@ != "followers"@);
                assert("r9kbeta"@ != "followersoff"@);
                assert("r9kbeta"@ != "subscribers"@);
                assert("r9kbeta"@ != "subscribersoff"@);
                assert("r9kbeta"@ != "emoteonly"@);
                assert("r9kbeta"@ != "emoteonlyoff"@);
                assert("r9kbeta"@ != "clear"@);
            },
            ModerationActionCommand::R9KBetaOff => {
                assert("r9kbetaoff"@ != "delete"@);
                assert("r9kbetaoff"@ != "timeout"@);
                assert("r9kbetaoff"@ != "untimeout"@);
                assert("r9kbetaoff"@ != "mod"@);
                assert("r9kbetaoff"@ != "unmod"@);
                assert("r9kbetaoff"@ != "modified_automod_properties"@);
                assert("r9kbetaoff"@ != "ban"@);
                assert("r9kbetaoff"@ != "unban"@);
                assert("r9kbetaoff"@ != "automod_rejected"@);
                assert("r9kbetaoff"@ != "approve_automod_message"@);
                assert("r9kbetaoff"@ != "denied_automod_message"@);
                assert("r9kbetaoff"@ != "raid"@);
                assert("r9kbetaoff"@ != "unraid"@);
                assert("r9kbetaoff"@ != "slow"@);
                assert("r9kbetaoff"@ != "slowoff"@);
                assert("r9kbetaoff"@ != "followers"@);
                assert("r9kbetaoff"@ != "followersoff"@);
                assert("r9kbetaoff"@ != "subscribers"@);
                assert("r9kbetaoff"@ != "subscribersoff"@);
                assert("r9kbetaoff"@ != "emoteonly"@);
                assert("r9kbetaoff"@ != "emoteonlyoff"@);
                assert("r9kbetaoff"@ != "clear"@);
                assert("r9kbetaoff"@ != "r9kbeta"@);
            },
            ModerationActionCommand::Vip => {
                assert("vip"@ != "delete"@);
                assert("vip"@ != "timeout"@);
                assert("vip"@ != "untimeout"@);
                assert("vip"@[0] != "mod"@[0]);
                assert("vip"@ != "mod"@);
                assert("vip"@ != "unmod"@);
                assert("vip"@ != "modified_automod_properties"@);
                assert("vip"@[0] != "ban"@[0]);
                assert("vip"@ != "ban"@);
                assert("vip"@ != "unban"@);
                assert("vip"@ != "automod_rejected"@);
                assert("vip"@ != "approve_automod_message"@);
                assert("vip"@ != "denied_automod_message"@);
                assert("vip"@ != "raid"@);
                assert("vip"@ != "unraid"@);
                assert("vip"@ != "slow"@);
                assert("vip"@ != "slowoff"@);
                assert("vip"@ != "followers"@);
                assert("vip"@ != "followersoff"@);
                assert("vip"@ != "subscribers"@);
                assert("vip"@ != "subscribersoff"@);
                assert("vip"@ != "emoteonly"@);
                assert("vip"@ != "emoteonlyoff"@);
                assert("vip"@ != "clear"@);
                assert("vip"@ != "r9kbeta"@);
                assert("vip"@ != "r9kbetaoff"@);
            },
            ModerationActionCommand::Unvip => {
                assert("unvip"@ != "delete"@);
                assert("unvip"@ != "timeout"@);
                assert("unvip"@ != "untimeout"@);
                assert("unvip"@ != "mod"@);
                assert("unvip"@[2] != "unmod"@[2]);
                assert("unvip"@ != "unmod"@);
                assert("unvip"@ != "modified_automod_properties"@);
                assert("unvip"@ != "ban"@);
                assert("unvip"@[2] != "unban"@[2]);
                assert("unvip"@ != "unban"@);
                assert("unvip"@ != "automod_rejected"@);
                assert("unvip"@ != "approve_automod_message"@);
                assert("unvip"@ != "denied_automod_message"@);
                assert("unvip"@ != "raid"@);
                assert("unvip"@ != "unraid"@);
                assert("unvip"@ != "slow"@);
                assert("unvip"@ != "slowoff"@);
                assert("unvip"@ != "followers"@);
                assert("unvip"@ != "followersoff"@);
                assert("unvip"@ != "subscribers"@);
                assert("unvip"@ != "subscribersoff"@);
                assert("unvip"@ != "emoteonly"@);
                assert("unvip"@ != "emoteonlyoff"@);
                assert("unvip"@[0] != "clear"@[0]);
                assert("unvip"@ != "clear"@);
                assert("unvip"@ != "r9kbeta"@);
                assert("unvip"@ != "r9kbetaoff"@);
                assert("unvip"@ != "vip"@);
            },
            ModerationActionCommand::Host => {
                assert("host"@ != "delete"@);
                assert("host"@ != "timeout"@);
                assert("host"@ != "untimeout"@);
                assert("host"@ != "mod"@);
                assert("host"@ != "unmod"@);
                assert("host"@ != "modified_automod_properties"@);
                assert("host"@ != "ban"@);
                assert("host"@ != "unban"@);
                assert("host"@ != "automod_rejected"@);
                assert("host"@ != "approve_automod_message"@);
                assert("host"@ != "denied_automod_message"@);
                assert("host"@[0] != "raid"@[0]);
                assert("host"@ != "raid"@);
                assert("host"@ != "unraid"@);
                assert("host"@[0] != "slow"@[0]);
                assert("host"@ != "slow"@);
                assert("host"@ != "slowoff"@);
                assert("host"@ != "followers"@);
                assert("host"@ != "followersoff"@);
                assert("host"@ != "subscribers"@);
                assert("host"@ != "subscribersoff"@);
                assert("host"@ != "emoteonly"@);
                assert("host"@ != "emoteonlyoff"@);
                assert("host"@ != "clear"@);
                assert("host"@ != "r9kbeta"@);
                assert("host"@ != "r9kbetaoff"@);
                assert("host"@ != "vip"@);
                assert("host"@ != "unvip"@);
            },
            ModerationActionCommand::Unhost => {
                assert("unhost"@[0] != "delete"@[0]);
                assert("unhost"@ != "delete"@);
                assert("unhost"@ != "timeout"@);
                assert("unhost"@ != "untimeout"@);
                assert("unhost"@ != "mod"@);
                assert("unhost"@ != "unmod"@);
                assert("unhost"@ != "modified_automod_properties"@);
                assert("unhost"@ != "ban"@);
                assert("unhost"@ != "unban"@);
                assert("unhost"@ != "automod_rejected"@);
                assert("unhost"@ != "approve_automod_message"@);
                assert("unhost"@ != "denied_automod_message"@);
                assert("unhost"@ != "raid"@);
                assert("unhost"@[2] != "unraid"@[2]);
                assert("unhost"@ != "unraid"@);
                assert("unhost"@ != "slow"@);
                assert("unhost"@ != "slowoff"@);
                assert("unhost"@ != "followers"@);
                assert("unhost"@ != "followersoff"@);
                assert("unhost"@ != "subscribers"@);
                assert("unhost"@ != "subscribersoff"@);
                assert("unhost"@ != "emoteonly"@);
                assert("unhost"@ != "emoteonlyoff"@);
                assert("unhost"@ != "clear"@);
                assert("unhost"@ != "r9kbeta"@);
                assert("unhost"@ != "r9kbetaoff"@);
                assert("unhost"@ != "vip"@);
                assert("unhost"@ != "unvip"@);
                assert("unhost"@ != "host"@);
            },
            ModerationActionCommand::ApproveUnbanRequest => {
                assert("APPROVE_UNBAN_REQUEST"@ != "delete"@);
                assert("APPROVE_UNBAN_REQUEST"@ != "timeout"@);
                assert("APPROVE_UNBAN_REQUEST"@ != "untimeout"@);
                assert("APPROVE_UNBAN_REQUEST"@ != "mod"@);
                assert("APPROVE_UNBAN_REQUEST"@ != "unmod"@);
                assert("APPROVE_UNBAN_REQUEST"@ != "modified_automod_properties"@);
                assert("APPROVE_UNBAN_REQUEST"@ != "ban"@);
                assert("APPROVE_UNBAN_REQUEST"@ != "unban"@);
                assert("APPROVE_UNBAN_REQUEST"@ != "automod_rejected"@);
                assert("APPROVE_UNBAN_REQUEST"@ != "approve_automod_message"@);
                assert("APPROVE_UNBAN_REQUEST"@ != "denied_automod_message"@);
                assert("APPROVE_UNBAN_REQUEST"@ != "raid"@);
                assert("APPROVE_UNBAN_REQUEST"@ != "unraid"@);
                assert("APPROVE_UNBAN_REQUEST"@ != "slow"@);
                assert("APPROVE_UNBAN_REQUEST"@ != "slowoff"@);
                assert("APPROVE_UNBAN_REQUEST"@ != "followers"@);
                assert("APPROVE_UNBAN_REQUEST"@ != "followersoff"@);
                assert("APPROVE_UNBAN_REQUEST"@ != "subscribers"@);
                assert("APPROVE_UNBAN_REQUEST"@ != "subscribersoff"@);
                assert("APPROVE_UNBAN_REQUEST"@ != "emoteonly"@);
                assert("APPROVE_UNBAN_REQUEST"@ != "emoteonlyoff"@);
                assert("APPROVE_UNBAN_REQUEST"@ != "clear"@);
                assert("APPROVE_UNBAN_REQUEST"@ != "r9kbeta"@);
                assert("APPROVE_UNBAN_REQUEST"@ != "r9kbetaoff"@);
                assert("APPROVE_UNBAN_REQUEST"@ != "vip"@);
                assert("APPROVE_UNBAN_REQUEST"@ != "unvip"@);
                assert("APPROVE_UNBAN_REQUEST"@ != "host"@);
                assert("APPROVE_UNBAN_REQUEST"@ != "unhost"@);
            },
            ModerationActionCommand::DenyUnbanRequest => {
                assert("DENY_UNBAN_REQUEST"@ != "delete"@);
                assert("DENY_UNBAN_REQUEST"@ != "timeout"@);
                assert("DENY_UNBAN_REQUEST"@ != "untimeout"@);
                assert("DENY_UNBAN_REQUEST"@ != "mod"@);
                assert("DENY_UNBAN_REQUEST"@ != "unmod"@);
                assert("DENY_UNBAN_REQUEST"@ != "modified_automod_properties"@);
                assert("DENY_UNBAN_REQUEST"@ != "ban"@);
                assert("DENY_UNBAN_REQUEST"@ != "unban"@);
                assert("DENY_UNBAN_REQUEST"@ != "automod_rejected"@);
                assert("DENY_UNBAN_REQUEST"@ != "approve_automod_message"@);
                assert("DENY_UNBAN_REQUEST"@ != "denied_automod_message"@);
                assert("DENY_UNBAN_REQUEST"@ != "raid"@);
                assert("DENY_UNBAN_REQUEST"@ != "unraid"@);
                assert("DENY_UNBAN_REQUEST"@ != "slow"@);
                assert("DENY_UNBAN_REQUEST"@ != "slowoff"@);
                assert("DENY_UNBAN_REQUEST"@ != "followers"@);
                assert("DENY_UNBAN_REQUEST"@ != "followersoff"@);
                assert("DENY_UNBAN_REQUEST"@ != "subscribers"@);
                assert("DENY_UNBAN_REQUEST"@ != "subscribersoff"@);
                assert("DENY_UNBAN_REQUEST"@ != "emoteonly"@);
                assert("DENY_UNBAN_REQUEST"@ != "emoteonlyoff"@);
                assert("DENY_UNBAN_REQUEST"@ != "clear"@);
                assert("DENY_UNBAN_REQUEST"@ != "r9kbeta"@);
                assert("DENY_UNBAN_REQUEST"@ != "r9kbetaoff"@);
                assert("DENY_UNBAN_REQUEST"@ != "vip"@);
                assert("DENY_UNBAN_REQUEST"@ != "unvip"@);
                assert("DENY_UNBAN_REQUEST"@ != "host"@);
                assert("DENY_UNBAN_REQUEST"@ != "unhost"@);
                assert("DENY_UNBAN_REQUEST"@ != "APPROVE_UNBAN_REQUEST"@);
            },
            ModerationActionCommand::DeleteNotification => {
                assert("delete_notification"@ != "delete"@);
                assert("delete_notification"@ != "timeout"@);
                assert("delete_notification"@ != "untimeout"@);
                assert("delete_notification"@ != "mod"@);
                assert("delete_notification"@ != "unmod"@);
                assert("delete_notification"@ != "modified_automod_properties"@);
                assert("delete_notification"@ != "ban"@);
                assert("delete_notification"@ != "unban"@);
                assert("delete_notification"@ != "automod_rejected"@);
                assert("delete_notification"@ != "approve_automod_message"@);
                assert("delete_notification"@ != "denied_automod_message"@);
                assert("delete_notification"@ != "raid"@);
                assert("delete_notification"@ != "unraid"@);
                assert("delete_notification"@ != "slow"@);
                assert("delete_notification"@ != "slowoff"@);
                assert("delete_notification"@ != "followers"@);
                assert("delete_notification"@ != "followersoff"@);
                assert("delete_notification"@ != "subscribers"@);
                assert("delete_notification"@ != "subscribersoff"@);
                assert("delete_notification"@ != "emoteonly"@);
                assert("delete_notification"@ != "emoteonlyoff"@);
                assert("delete_notification"@ != "clear"@);
                assert("delete_notification"@ != "r9kbeta"@);
                assert("delete_notification"@ != "r9kbetaoff"@);
                assert("delete_notification"@ != "vip"@);
                assert("delete_notification"@ != "unvip"@);
                assert("delete_notification"@ != "host"@);
                assert("delete_notification"@ != "unhost"@);
                assert("delete_notification"@ != "APPROVE_UNBAN_REQUEST"@);
                assert("delete_notification"@ != "DENY_UNBAN_REQUEST"@);
            },
        }
    }
}

/// A change to the channel's automod terms.
#[derive(Clone, Copy, Debug, PartialEq, Eq, Structural)]
pub enum ChannelAction {
    /// An automod permitted term was added.
    AddPermittedTerm,
    /// An automod permitted term was removed.
    DeletePermittedTerm,
    /// An automod blocked term was added.
    AddBlockedTerm,
    /// An automod blocked term was removed.
    DeleteBlockedTerm,
}

impl ChannelAction {
    /// The value named by the wire text `s`, if any.
    pub open spec fn of_wire(s: Seq<char>) -> Option<ChannelAction> {
        if s == "add_permitted_term"@ {
            Some(ChannelAction::AddPermittedTerm)
        } else if s == "delete_permitted_term"@ {
            Some(ChannelAction::DeletePermittedTerm)
        } else if s == "add_blocked_term"@ {
            Some(ChannelAction::AddBlockedTerm)
        } else if s == "delete_blocked_term"@ {
            Some(ChannelAction::DeleteBlockedTerm)
        } else {
            None
        }
    }

    /// The wire text of the value.
    pub open spec fn wire(self) -> Seq<char> {
        match self {
            ChannelAction::AddPermittedTerm => "add_permitted_term"@,
            ChannelAction::DeletePermittedTerm => "delete_permitted_term"@,
            ChannelAction::AddBlockedTerm => "add_blocked_term"@,
            ChannelAction::DeleteBlockedTerm => "delete_blocked_term"@,
        }
    }

    /// Reads a value from its wire text.
    pub fn from_wire(s: &str) -> (r: Option<ChannelAction>)
        ensures
            r == ChannelAction::of_wire(s@),
    {
        if str_eq(s, "add_permitted_term") {
            Some(ChannelAction::AddPermittedTerm)
        } else if str_eq(s, "delete_permitted_term") {
            Some(ChannelAction::DeletePermittedTerm)
        } else if str_eq(s, "add_blocked_term") {
            Some(ChannelAction::AddBlockedTerm)
        } else if str_eq(s, "delete_blocked_term") {
            Some(ChannelAction::DeleteBlockedTerm)
        } else {
            None
        }
    }

    /// The wire text of the value.
    pub fn as_str(&self) -> (r: &'static str)
        ensures
            r@ == self.wire(),
    {
        match self {
            ChannelAction::AddPermittedTerm => "add_permitted_term",
            ChannelAction::DeletePermittedTerm => "delete_permitted_term",
            ChannelAction::AddBlockedTerm => "add_blocked_term",
            ChannelAction::DeleteBlockedTerm => "delete_blocked_term",
        }
    }

    /// The value of the member `key`: a string that names a known value.
    pub open spec fn member(o: Seq<(String, Json)>, key: &'static str) -> Result<ChannelAction, DecodeError> {
        match str_member(o, key) {
            Ok(s) => match ChannelAction::of_wire(s@) {
                Some(v) => Ok(v),
                None => Err(DecodeError::UnknownValue { field: key, raw: s }),
            },
            Err(e) => Err(e),
        }
    }

    /// Reads the member `key`.
    pub fn read(o: &Vec<(String, Json)>, key: &'static str) -> (r: Result<ChannelAction, DecodeError>)
        ensures
            r == ChannelAction::member(o@, key),
    {
        match read_str(o, key) {
            Ok(s) => match ChannelAction::from_wire(s.as_str()) {
                Some(v) => Ok(v),
                None => Err(DecodeError::UnknownValue { field: key, raw: s }),
            },
            Err(e) => Err(e),
        }
    }

    /// Reading the wire text of a value gives the value back.
    pub proof fn lemma_wire_round_trip(self)
        ensures
            ChannelAction::of_wire(self.wire()) == Some(self),
    {
        reveal_strlit("add_permitted_term");
        reveal_strlit("delete_permitted_term");
        reveal_strlit("add_blocked_term");
        reveal_strlit("delete_blocked_term");
        assert("add_permitted_term"@.len() == 18);
        assert("delete_permitted_term"@.len() == 21);
        assert("add_blocked_term"@.len() == 16);
        assert("delete_blocked_term"@.len() == 19);
        match self {
            ChannelAction::AddPermittedTerm => {},
            ChannelAction::DeletePermittedTerm => {
                assert("delete_permitted_term"@ != "add_permitted_term"@);
            },
            ChannelAction::AddBlockedTerm => {
                assert("add_blocked_term"@ != "add_permitted_term"@);
                assert("add_blocked_term"@ != "delete_permitted_term"@);
            },
            ChannelAction::DeleteBlockedTerm => {
                assert("delete_blocked_term"@ != "add_permitted_term"@);
                assert("delete_blocked_term"@ != "delete_permitted_term"@);
                assert("delete_blocked_term"@ != "add_blocked_term"@);
            },
        }
    }
}

/// The kind of moderation.
#[derive(Clone, Copy, Debug, PartialEq, Eq, Structural)]
pub enum ModerationType {
    /// A chatter was moderated.
    ChatLoginModeration,
    /// The channel was moderated.
    ChatChannelModeration,
    /// The listening user was the target of a moderation command.
    ChatTargetedLoginModeration,
}

impl ModerationType {
    /// The value named by the wire text `s`, if any.
    pub open spec fn of_wire(s: Seq<char>) -> Option<ModerationType> {
        if s == "chat_login_moderation"@ {
            Some(ModerationType::ChatLoginModeration)
        } else if s == "chat_channel_moderation"@ {
            Some(ModerationType::ChatChannelModeration)
        } else if s == "chat_targeted_login_moderation"@ {
            Some(ModerationType::ChatTargetedLoginModeration)
        } else {
            None
        }
    }

    /// The wire text of the value.
    pub open spec fn wire(self) -> Seq<char> {
        match self {
            ModerationType::ChatLoginModeration => "chat_login_moderation"@,
            ModerationType::ChatChannelModeration => "chat_channel_moderation"@,
            ModerationType::ChatTargetedLoginModeration => "chat_targeted_login_moderation"@,
        }
    }

    /// Reads a value from its wire text.
    pub fn from_wire(s: &str) -> (r: Option<ModerationType>)
        ensures
            r == ModerationType::of_wire(s@),
    {
        if str_eq(s, "chat_login_moderation") {
            Some(ModerationType::ChatLoginModeration)
        } else if str_eq(s, "chat_channel_moderation") {
            Some(ModerationType::ChatChannelModeration)
        } else if str_eq(s, "chat_targeted_login_moderation") {
            Some(ModerationType::ChatTargetedLoginModeration)
        } else {
            None
        }
    }

    /// The wire text of the value.
    pub fn as_str(&self) -> (r: &'static str)
        ensures
            r@ == self.wire(),
    {
        match self {
            ModerationType::ChatLoginModeration => "chat_login_moderation",
            ModerationType::ChatChannelModeration => "chat_channel_moderation",
            ModerationType::ChatTargetedLoginModeration => "chat_targeted_login_moderation",
        }
    }

    /// The value of the member `key`: a string that names a known value.
    pub open spec fn member(o: Seq<(String, Json)>, key: &'static str) -> Result<ModerationType, DecodeError> {
        match str_member(o, key) {
            Ok(s) => match ModerationType::of_wire(s@) {
                Some(v) => Ok(v),
                None => Err(DecodeError::UnknownValue { field: key, raw: s }),
            },
            Err(e) => Err(e),
        }
    }

    /// Reads the member `key`.
    pub fn read(o: &Vec<(String, Json)>, key: &'static str) -> (r: Result<ModerationType, DecodeError>)
        ensures
            r == ModerationType::member(o@, key),
    {
        match read_str(o, key) {
            Ok(s) => match ModerationType::from_wire(s.as_str()) {
                Some(v) => Ok(v),
                None => Err(DecodeError::UnknownValue { field: key, raw: s }),
            },
            Err(e) => Err(e),
        }
    }

    /// Reading the wire text of a value gives the value back.
    pub proof fn lemma_wire_round_trip(self)
        ensures
            ModerationType::of_wire(self.wire()) == Some(self),
    {
        reveal_strlit("chat_login_moderation");
        reveal_strlit("chat_channel_moderation");
        reveal_strlit("chat_targeted_login_moderation");
        assert("chat_login_moderation"@.len() == 21);
        assert("chat_channel_moderation"@.len() == 23);
        assert("chat_targeted_login_moderation"@.len() == 30);
        match self {
            ModerationType::ChatLoginModeration => {},
            ModerationType::ChatChannelModeration => {
                assert("chat_channel_moderation"@ != "chat_login_moderation"@);
            },
            ModerationType::ChatTargetedLoginModeration => {
                assert("chat_targeted_login_moderation"@ != "chat_login_moderation"@);
                assert("chat_targeted_login_moderation"@ != "chat_channel_moderation"@);
            },
        }
    }
}

/// A moderation action: `moderation_action`.
#[derive(Debug)]
pub struct ModerationAction {
    /// Arguments of the command; `null` reads as none.
    pub args: Vec<String>,
    /// Login of the user who acted.
    pub created_by: Option<String>,
    /// Id of the user who acted.
    pub created_by_user_id: Option<String>,
    /// Whether automod triggered the action.
    pub from_automod: bool,
    /// The command.
    pub moderation_action: ModerationActionCommand,
    /// Id of the message concerned.
    pub msg_id: Option<String>,
    /// Id of the target user.
    pub target_user_id: String,
    /// Kind of moderation.
    pub type_: ModerationType,
    /// Login of the target user.
    pub target_user_login: Option<String>,
    /// When the action happened.
    pub created_at: Option<Timestamp>,
}

impl ModerationAction {
    /// Whether `k` names a member that the record reads.
    pub open spec fn knows(k: Seq<char>) -> bool {
        k == "args"@
            || k == "created_by"@
            || k == "created_by_user_id"@
            || k == "from_automod"@
            || k == "moderation_action"@
            || k == "msg_id"@
            || k == "target_user_id"@
            || k == "type"@
            || k == "target_user_login"@
            || k == "created_at"@
    }

    /// [`ModerationAction::knows`] as a predicate.
    pub open spec fn known() -> spec_fn(Seq<char>) -> bool {
        |k: Seq<char>| ModerationAction::knows(k)
    }

    fn is_known(k: &str) -> (r: bool)
        ensures
            r == ModerationAction::knows(k@),
    {
        str_eq(k, "args")
            || str_eq(k, "created_by")
            || str_eq(k, "created_by_user_id")
            || str_eq(k, "from_automod")
            || str_eq(k, "moderation_action")
            || str_eq(k, "msg_id")
            || str_eq(k, "target_user_id")
            || str_eq(k, "type")
            || str_eq(k, "target_user_login")
            || str_eq(k, "created_at")
    }

    /// Finds the first member that the record does not read.
    pub fn unknown_member(o: &Vec<(String, Json)>) -> (r: Option<DecodeError>)
        ensures
            r == first_unknown(o@, ModerationAction::known()),
    {
        let mut i: usize = 0;
        assert(o@.subrange(0, o@.len() as int) == o@);
        while i < o.len()
            invariant
                i <= o@.len(),
                first_unknown(o@, ModerationAction::known()) == first_unknown(o@.subrange(i as int, o@.len() as int), ModerationAction::known()),
            decreases o@.len() - i,
        {
            let ghost rest = o@.subrange(i as int, o@.len() as int);
            assert(rest.drop_first() == o@.subrange(i + 1, o@.len() as int));
            if !ModerationAction::is_known(o[i].0.as_str()) {
                return Some(DecodeError::UnknownField(o[i].0.clone()));
            }
            i = i + 1;
        }
        None
    }

    /// The first error of `o`: a member the record does not read, when those are
    /// denied, then the first field, in declaration order, that cannot be read.
    pub open spec fn error(o: Seq<(String, Json)>, deny: bool) -> Option<DecodeError> {
        either(if deny { first_unknown(o, ModerationAction::known()) } else { None },
        either(err_of(str_list_or_empty_member(o, "args")),
        either(err_of(blank_str_member(o, "created_by")),
        either(err_of(blank_str_member(o, "created_by_user_id")),
        either(err_of(flag_member(o, "from_automod")),
        either(err_of(ModerationActionCommand::member(o, "moderation_action")),
        either(err_of(blank_str_member(o, "msg_id")),
        either(err_of(str_member(o, "target_user_id")),
        either(err_of(ModerationType::member(o, "type")),
        either(err_of(blank_str_member(o, "target_user_login")),
        err_of(blank_timestamp_member(o, "created_at"))))))))))))
    }

    /// Whether every field of `x` is the value read from `o`.
    pub open spec fn reads_as(o: Seq<(String, Json)>, x: ModerationAction) -> bool {
        &&& x.args@ == str_list_or_empty_member(o, "args")->Ok_0
        &&& x.created_by == blank_str_member(o, "created_by")->Ok_0
        &&& x.created_by_user_id == blank_str_member(o, "created_by_user_id")->Ok_0
        &&& x.from_automod == flag_member(o, "from_automod")->Ok_0
        &&& x.moderation_action == ModerationActionCommand::member(o, "moderation_action")->Ok_0
        &&& x.msg_id == blank_str_member(o, "msg_id")->Ok_0
        &&& x.target_user_id == str_member(o, "target_user_id")->Ok_0
        &&& x.type_ == ModerationType::member(o, "type")->Ok_0
        &&& x.target_user_login == blank_str_member(o, "target_user_login")->Ok_0
        &&& opt_view(x.created_at) == blank_timestamp_member(o, "created_at")->Ok_0
    }

    /// Whether `r` is what decoding the members `o` yields.
    pub open spec fn decoded(o: Seq<(String, Json)>, deny: bool, r: Result<ModerationAction, DecodeError>) -> bool {
        match r {
            Ok(x) => ModerationAction::error(o, deny) is None && ModerationAction::reads_as(o, x),
            Err(e) => ModerationAction::error(o, deny) == Some(e),
        }
    }

    /// Decodes the record from the members of a JSON object; with `deny`, a
    /// member that the record does not read is an error.
    pub fn decode(o: &Vec<(String, Json)>, deny: bool) -> (r: Result<ModerationAction, DecodeError>)
        ensures
            ModerationAction::decoded(o@, deny, r),
    {
        if deny {
            if let Some(e) = ModerationAction::unknown_member(o) {
                return Err(e);
            }
        }
        let args = match read_str_list_or_empty(o, "args") {
            Ok(v) => v,
            Err(e) => return Err(e),
        };
        let created_by = match read_blank_str(o, "created_by") {
            Ok(v) => v,
            Err(e) => return Err(e),
        };
        let created_by_user_id = match read_blank_str(o, "created_by_user_id") {
            Ok(v) => v,
            Err(e) => return Err(e),
        };
        let from_automod = match read_flag(o, "from_automod") {
            Ok(v) => v,
            Err(e) => return Err(e),
        };
        let moderation_action = match ModerationActionCommand::read(o, "moderation_action") {
            Ok(v) => v,
            Err(e) => return Err(e),
        };
        let msg_id = match read_blank_str(o, "msg_id") {
            Ok(v) => v,
            Err(e) => return Err(e),
        };
        let target_user_id = match read_str(o, "target_user_id") {
            Ok(v) => v,
            Err(e) => return Err(e),
        };
        let type_ = match ModerationType::read(o, "type") {
            Ok(v) => v,
            Err(e) => return Err(e),
        };
        let target_user_login = match read_blank_str(o, "target_user_login") {
            Ok(v) => v,
            Err(e) => return Err(e),
        };
        let created_at = match read_blank_timestamp(o, "created_at") {
            Ok(v) => v,
            Err(e) => return Err(e),
        };
        Ok(ModerationAction { args, created_by, created_by_user_id, from_automod, moderation_action, msg_id, target_user_id, type_, target_user_login, created_at })
    }
}

/// A moderator was added: `moderator_added`.
#[derive(Debug)]
pub struct ModeratorAdded {
    /// Id of the channel.
    pub channel_id: String,
    /// Id of the moderator concerned.
    pub target_user_id: String,
    /// The command; should be `mod`.
    pub moderation_action: ModerationActionCommand,
    /// Login of the moderator concerned.
    pub target_user_login: String,
    /// Id of the user who acted.
    pub created_by_user_id: String,
    /// Login of the user who acted.
    pub created_by: String,
}

impl ModeratorAdded {
    /// Whether `k` names a member that the record reads.
    pub open spec fn knows(k: Seq<char>) -> bool {
        k == "channel_id"@
            || k == "target_user_id"@
            || k == "moderation_action"@
            || k == "target_user_login"@
            || k == "created_by_user_id"@
            || k == "created_by"@
    }

    /// [`ModeratorAdded::knows`] as a predicate.
    pub open spec fn known() -> spec_fn(Seq<char>) -> bool {
        |k: Seq<char>| ModeratorAdded::knows(k)
    }

    fn is_known(k: &str) -> (r: bool)
        ensures
            r == ModeratorAdded::knows(k@),
    {
        str_eq(k, "channel_id")
            || str_eq(k, "target_user_id")
            || str_eq(k, "moderation_action")
            || str_eq(k, "target_user_login")
            || str_eq(k, "created_by_user_id")
            || str_eq(k, "created_by")
    }

    /// Finds the first member that the record does not read.
    pub fn unknown_member(o: &Vec<(String, Json)>) -> (r: Option<DecodeError>)
        ensures
            r == first_unknown(o@, ModeratorAdded::known()),
    {
        let mut i: usize = 0;
        assert(o@.subrange(0, o@.len() as int) == o@);
        while i < o.len()
            invariant
                i <= o@.len(),
                first_unknown(o@, ModeratorAdded::known()) == first_unknown(o@.subrange(i as int, o@.len() as int), ModeratorAdded::known()),
            decreases o@.len() - i,
        {
            let ghost rest = o@.subrange(i as int, o@.len() as int);
            assert(rest.drop_first() == o@.subrange(i + 1, o@.len() as int));
            if !ModeratorAdded::is_known(o[i].0.as_str()) {
                return Some(DecodeError::UnknownField(o[i].0.clone()));
            }
            i = i + 1;
        }
        None
    }

    /// The first error of `o`: a member the record does not read, when those are
    /// denied, then the first field, in declaration order, that cannot be read.
    pub open spec fn error(o: Seq<(String, Json)>, deny: bool) -> Option<DecodeError> {
        either(if deny { first_unknown(o, ModeratorAdded::known()) } else { None },
        either(err_of(str_member(o, "channel_id")),
        either(err_of(str_member(o, "target_user_id")),
        either(err_of(ModerationActionCommand::member(o, "moderation_action")),
        either(err_of(str_member(o, "target_user_login")),
        either(err_of(str_member(o, "created_by_user_id")),
        err_of(str_member(o, "created_by"))))))))
    }

    /// Whether every field of `x` is the value read from `o`.
    pub open spec fn reads_as(o: Seq<(String, Json)>, x: ModeratorAdded) -> bool {
        &&& x.channel_id == str_member(o, "channel_id")->Ok_0
        &&& x.target_user_id == str_member(o, "target_user_id")->Ok_0
        &&& x.moderation_action == ModerationActionCommand::member(o, "moderation_action")->Ok_0
        &&& x.target_user_login == str_member(o, "target_user_login")->Ok_0
        &&& x.created_by_user_id == str_member(o, "created_by_user_id")->Ok_0
        &&& x.created_by == str_member(o, "created_by")->Ok_0
    }

    /// Whether `r` is what decoding the members `o` yields.
    pub open spec fn decoded(o: Seq<(String, Json)>, deny: bool, r: Result<ModeratorAdded, DecodeError>) -> bool {
        match r {
            Ok(x) => ModeratorAdded::error(o, deny) is None && ModeratorAdded::reads_as(o, x),
            Err(e) => ModeratorAdded::error(o, deny) == Some(e),
        }
    }

    /// Decodes the record from the members of a JSON object; with `deny`, a
    /// member that the record does not read is an error.
    pub fn decode(o: &Vec<(String, Json)>, deny: bool) -> (r: Result<ModeratorAdded, DecodeError>)
        ensures
            ModeratorAdded::decoded(o@, deny, r),
    {
        if deny {
            if let Some(e) = ModeratorAdded::unknown_member(o) {
                return Err(e);
            }
        }
        let channel_id = match read_str(o, "channel_id") {
            Ok(v) => v,
            Err(e) => return Err(e),
        };
        let target_user_id = match read_str(o, "target_user_id") {
            Ok(v) => v,
            Err(e) => return Err(e),
        };
        let moderation_action = match ModerationActionCommand::read(o, "moderation_action") {
            Ok(v) => v,
            Err(e) => return Err(e),
        };
        let target_user_login = match read_str(o, "target_user_login") {
            Ok(v) => v,
            Err(e) => return Err(e),
        };
        let created_by_user_id = match read_str(o, "created_by_user_id") {
            Ok(v) => v,
            Err(e) => return Err(e),
        };
        let created_by = match read_str(o, "created_by") {
            Ok(v) => v,
            Err(e) => return Err(e),
        };
        Ok(ModeratorAdded { channel_id, target_user_id, moderation_action, target_user_login, created_by_user_id, created_by })
    }
}

/// A moderator was removed: `moderator_removed`.
#[derive(Debug)]
pub struct ModeratorRemoved {
    /// Id of the channel.
    pub channel_id: String,
    /// Id of the moderator concerned.
    pub target_user_id: String,
    /// The command; should be `unmod`.
    pub moderation_action: ModerationActionCommand,
    /// Login of the moderator concerned.
    pub target_user_login: String,
    /// Id of the user who acted.
    pub created_by_user_id: String,
    /// Login of the user who acted.
    pub created_by: String,
}

impl ModeratorRemoved {
    /// Whether `k` names a member that the record reads.
    pub open spec fn knows(k: Seq<char>) -> bool {
        k == "channel_id"@
            || k == "target_user_id"@
            || k == "moderation_action"@
            || k == "target_user_login"@
            || k == "created_by_user_id"@
            || k == "created_by"@
    }

    /// [`ModeratorRemoved::knows`] as a predicate.
    pub open spec fn known() -> spec_fn(Seq<char>) -> bool {
        |k: Seq<char>| ModeratorRemoved::knows(k)
    }

    fn is_known(k: &str) -> (r: bool)
        ensures
            r == ModeratorRemoved::knows(k@),
    {
        str_eq(k, "channel_id")
            || str_eq(k, "target_user_id")
            || str_eq(k, "moderation_action")
            || str_eq(k, "target_user_login")
            || str_eq(k, "created_by_user_id")
            || str_eq(k, "created_by")
    }

    /// Finds the first member that the record does not read.
    pub fn unknown_member(o: &Vec<(String, Json)>) -> (r: Option<DecodeError>)
        ensures
            r == first_unknown(o@, ModeratorRemoved::known()),
    {
        let mut i: usize = 0;
        assert(o@.subrange(0, o@.len() as int) == o@);
        while i < o.len()
            invariant
                i <= o@.len(),
                first_unknown(o@, ModeratorRemoved::known()) == first_unknown(o@.subrange(i as int, o@.len() as int), ModeratorRemoved::known()),
            decreases o@.len() - i,
        {
            let ghost rest = o@.subrange(i as int, o@.len() as int);
            assert(rest.drop_first() == o@.subrange(i + 1, o@.len() as int));
            if !ModeratorRemoved::is_known(o[i].0.as_str()) {
                return Some(DecodeError::UnknownField(o[i].0.clone()));
            }
            i = i + 1;
        }
        None
    }

    /// The first error of `o`: a member the record does not read, when those are
    /// denied, then the first field, in declaration order, that cannot be read.
    pub open spec fn error(o: Seq<(String, Json)>, deny: bool) -> Option<DecodeError> {
        either(if deny { first_unknown(o, ModeratorRemoved::known()) } else { None },
        either(err_of(str_member(o, "channel_id")),
        either(err_of(str_member(o, "target_user_id")),
        either(err_of(ModerationActionCommand::member(o, "moderation_action")),
        either(err_of(str_member(o, "target_user_login")),
        either(err_of(str_member(o, "created_by_user_id")),
        err_of(str_member(o, "created_by"))))))))
    }

    /// Whether every field of `x` is the value read from `o`.
    pub open spec fn reads_as(o: Seq<(String, Json)>, x: ModeratorRemoved) -> bool {
        &&& x.channel_id == str_member(o, "channel_id")->Ok_0
        &&& x.target_user_id == str_member(o, "target_user_id")->Ok_0
        &&& x.moderation_action == ModerationActionCommand::member(o, "moderation_action")->Ok_0
        &&& x.target_user_login == str_member(o, "target_user_login")->Ok_0
        &&& x.created_by_user_id == str_member(o, "created_by_user_id")->Ok_0
        &&& x.created_by == str_member(o, "created_by")->Ok_0
    }

    /// Whether `r` is what decoding the members `o` yields.
    pub open spec fn decoded(o: Seq<(String, Json)>, deny: bool, r: Result<ModeratorRemoved, DecodeError>) -> bool {
        match r {
            Ok(x) => ModeratorRemoved::error(o, deny) is None && ModeratorRemoved::reads_as(o, x),
            Err(e) => ModeratorRemoved::error(o, deny) == Some(e),
        }
    }

    /// Decodes the record from the members of a JSON object; with `deny`, a
    /// member that the record does not read is an error.
    pub fn decode(o: &Vec<(String, Json)>, deny: bool) -> (r: Result<ModeratorRemoved, DecodeError>)
        ensures
            ModeratorRemoved::decoded(o@, deny, r),
    {
        if deny {
            if let Some(e) = ModeratorRemoved::unknown_member(o) {
                return Err(e);
            }
        }
        let channel_id = match read_str(o, "channel_id") {
            Ok(v) => v,
            Err(e) => return Err(e),
        };
        let target_user_id = match read_str(o, "target_user_id") {
            Ok(v) => v,
            Err(e) => return Err(e),
        };
        let moderation_action = match ModerationActionCommand::read(o, "moderation_action") {
            Ok(v) => v,
            Err(e) => return Err(e),
        };
        let target_user_login = match read_str(o, "target_user_login") {
            Ok(v) => v,
            Err(e) => return Err(e),
        };
        let created_by_user_id = match read_str(o, "created_by_user_id") {
            Ok(v) => v,
            Err(e) => return Err(e),
        };
        let created_by = match read_str(o, "created_by") {
            Ok(v) => v,
            Err(e) => return Err(e),
        };
        Ok(ModeratorRemoved { channel_id, target_user_id, moderation_action, target_user_login, created_by_user_id, created_by })
    }
}

/// A channel term was added, changed or removed.
#[derive(Debug)]
pub struct ChannelTermsAction {
    /// Id of the channel.
    pub channel_id: String,
    /// When a temporary term expires.
    pub expires_at: Option<Timestamp>,
    /// Whether the term came from an automod decision.
    pub from_automod: bool,
    /// Id of the term.
    pub id: String,
    /// Id of the user who caused the change.
    pub requester_id: String,
    /// Login of the user who caused the change.
    pub requester_login: String,
    /// The term.
    pub text: String,
    /// What was done.
    pub type_: ChannelAction,
    /// When the term was updated; none for a new term.
    pub updated_at: Option<Timestamp>,
}

impl ChannelTermsAction {
    /// Whether `k` names a member that the record reads.
    pub open spec fn knows(k: Seq<char>) -> bool {
        k == "channel_id"@
            || k == "expires_at"@
            || k == "from_automod"@
            || k == "id"@
            || k == "requester_id"@
            || k == "requester_login"@
            || k == "text"@
            || k == "type"@
            || k == "updated_at"@
    }

    /// [`ChannelTermsAction::knows`] as a predicate.
    pub open spec fn known() -> spec_fn(Seq<char>) -> bool {
        |k: Seq<char>| ChannelTermsAction::knows(k)
    }

    fn is_known(k: &str) -> (r: bool)
        ensures
            r == ChannelTermsAction::knows(k@),
    {
        str_eq(k, "channel_id")
            || str_eq(k, "expires_at")
            || str_eq(k, "from_automod")
            || str_eq(k, "id")
            || str_eq(k, "requester_id")
            || str_eq(k, "requester_login")
            || str_eq(k, "text")
            || str_eq(k, "type")
            || str_eq(k, "updated_at")
    }

    /// Finds the first member that the record does not read.
    pub fn unknown_member(o: &Vec<(String, Json)>) -> (r: Option<DecodeError>)
        ensures
            r == first_unknown(o@, ChannelTermsAction::known()),
    {
        let mut i: usize = 0;
        assert(o@.subrange(0, o@.len() as int) == o@);
        while i < o.len()
            invariant
                i <= o@.len(),
                first_unknown(o@, ChannelTermsAction::known()) == first_unknown(o@.subrange(i as int, o@.len() as int), ChannelTermsAction::known()),
            decreases o@.len() - i,
        {
            let ghost rest = o@.subrange(i as int, o@.len() as int);
            assert(rest.drop_first() == o@.subrange(i + 1, o@.len() as int));
            if !ChannelTermsAction::is_known(o[i].0.as_str()) {
                return Some(DecodeError::UnknownField(o[i].0.clone()));
            }
            i = i + 1;
        }
        None
    }

    /// The first error of `o`: a member the record does not read, when those are
    /// denied, then the first field, in declaration order, that cannot be read.
    pub open spec fn error(o: Seq<(String, Json)>, deny: bool) -> Option<DecodeError> {
        either(if deny { first_unknown(o, ChannelTermsAction::known()) } else { None },
        either(err_of(str_member(o, "channel_id")),
        either(err_of(blank_timestamp_member(o, "expires_at")),
        either(err_of(bool_member(o, "from_automod")),
        either(err_of(str_member(o, "id")),
        either(err_of(str_member(o, "requester_id")),
        either(err_of(str_member(o, "requester_login")),
        either(err_of(str_member(o, "text")),
        either(err_of(ChannelAction::member(o, "type")),
        err_of(blank_timestamp_member(o, "updated_at")))))))))))
    }

    /// Whether every field of `x` is the value read from `o`.
    pub open spec fn reads_as(o: Seq<(String, Json)>, x: ChannelTermsAction) -> bool {
        &&& x.channel_id == str_member(o, "channel_id")->Ok_0
        &&& opt_view(x.expires_at) == blank_timestamp_member(o, "expires_at")->Ok_0
        &&& x.from_automod == bool_member(o, "from_automod")->Ok_0
        &&& x.id == str_member(o, "id")->Ok_0
        &&& x.requester_id == str_member(o, "requester_id")->Ok_0
        &&& x.requester_login == str_member(o, "requester_login")->Ok_0
        &&& x.text == str_member(o, "text")->Ok_0
        &&& x.type_ == ChannelAction::member(o, "type")->Ok_0
        &&& opt_view(x.updated_at) == blank_timestamp_member(o, "updated_at")->Ok_0
    }

    /// Whether `r` is what decoding the members `o` yields.
    pub open spec fn decoded(o: Seq<(String, Json)>, deny: bool, r: Result<ChannelTermsAction, DecodeError>) -> bool {
        match r {
            Ok(x) => ChannelTermsAction::error(o, deny) is None && ChannelTermsAction::reads_as(o, x),
            Err(e) => ChannelTermsAction::error(o, deny) == Some(e),
        }
    }

    /// Decodes the record from the members of a JSON object; with `deny`, a
    /// member that the record does not read is an error.
    pub fn decode(o: &Vec<(String, Json)>, deny: bool) -> (r: Result<ChannelTermsAction, DecodeError>)
        ensures
            ChannelTermsAction::decoded(o@, deny, r),
    {
        if deny {
            if let Some(e) = ChannelTermsAction::unknown_member(o) {
                return Err(e);
            }
        }
        let channel_id = match read_str(o, "channel_id") {
            Ok(v) => v,
            Err(e) => return Err(e),
        };
        let expires_at = match read_blank_timestamp(o, "expires_at") {
            Ok(v) => v,
            Err(e) => return Err(e),
        };
        let from_automod = match read_bool(o, "from_automod") {
            Ok(v) => v,
            Err(e) => return Err(e),
        };
        let id = match read_str(o, "id") {
            Ok(v) => v,
            Err(e) => return Err(e),
        };
        let requester_id = match read_str(o, "requester_id") {
            Ok(v) => v,
            Err(e) => return Err(e),
        };
        let requester_login = match read_str(o, "requester_login") {
            Ok(v) => v,
            Err(e) => return Err(e),
        };
        let text = match read_str(o, "text") {
            Ok(v) => v,
            Err(e) => return Err(e),
        };
        let type_ = match ChannelAction::read(o, "type") {
            Ok(v) => v,
            Err(e) => return Err(e),
        };
        let updated_at = match read_blank_timestamp(o, "updated_at") {
            Ok(v) => v,
            Err(e) => return Err(e),
        };
        Ok(ChannelTermsAction { channel_id, expires_at, from_automod, id, requester_id, requester_login, text, type_, updated_at })
    }
}

/// A user was made VIP: `vip_added`.
#[derive(Debug)]
pub struct VipAdded {
    /// Id of the channel.
    pub channel_id: String,
    /// Login of the user who acted.
    pub created_by: String,
    /// Id of the user who acted.
    pub created_by_user_id: String,
    /// Id of the new VIP.
    pub target_user_id: String,
    /// Login of the new VIP.
    pub target_user_login: String,
}

impl VipAdded {
    /// Whether `k` names a member that the record reads.
    pub open spec fn knows(k: Seq<char>) -> bool {
        k == "channel_id"@
            || k == "created_by"@
            || k == "created_by_user_id"@
            || k == "target_user_id"@
            || k == "target_user_login"@
    }

    /// [`VipAdded::knows`] as a predicate.
    pub open spec fn known() -> spec_fn(Seq<char>) -> bool {
        |k: Seq<char>| VipAdded::knows(k)
    }

    fn is_known(k: &str) -> (r: bool)
        ensures
            r == VipAdded::knows(k@),
    {
        str_eq(k, "channel_id")
            || str_eq(k, "created_by")
            || str_eq(k, "created_by_user_id")
            || str_eq(k, "target_user_id")
            || str_eq(k, "target_user_login")
    }

    /// Finds the first member that the record does not read.
    pub fn unknown_member(o: &Vec<(String, Json)>) -> (r: Option<DecodeError>)
        ensures
            r == first_unknown(o@, VipAdded::known()),
    {
        let mut i: usize = 0;
        assert(o@.subrange(0, o@.len() as int) == o@);
        while i < o.len()
            invariant
                i <= o@.len(),
                first_unknown(o@, VipAdded::known()) == first_unknown(o@.subrange(i as int, o@.len() as int), VipAdded::known()),
            decreases o@.len() - i,
        {
            let ghost rest = o@.subrange(i as int, o@.len() as int);
            assert(rest.drop_first() == o@.subrange(i + 1, o@.len() as int));
            if !VipAdded::is_known(o[i].0.as_str()) {
                return Some(DecodeError::UnknownField(o[i].0.clone()));
            }
            i = i + 1;
        }
        None
    }

    /// The first error of `o`: a member the record does not read, when those are
    /// denied, then the first field, in declaration order, that cannot be read.
    pub open spec fn error(o: Seq<(String, Json)>, deny: bool) -> Option<DecodeError> {
        either(if deny { first_unknown(o, VipAdded::known()) } else { None },
        either(err_of(str_member(o, "channel_id")),
        either(err_of(str_member(o, "created_by")),
        either(err_of(str_member(o, "created_by_user_id")),
        either(err_of(str_member(o, "target_user_id")),
        err_of(str_member(o, "target_user_login")))))))
    }

    /// Whether every field of `x` is the value read from `o`.
    pub open spec fn reads_as(o: Seq<(String, Json)>, x: VipAdded) -> bool {
        &&& x.channel_id == str_member(o, "channel_id")->Ok_0
        &&& x.created_by == str_member(o, "created_by")->Ok_0
        &&& x.created_by_user_id == str_member(o, "created_by_user_id")->Ok_0
        &&& x.target_user_id == str_member(o, "target_user_id")->Ok_0
        &&& x.target_user_login == str_member(o, "target_user_login")->Ok_0
    }

    /// Whether `r` is what decoding the members `o` yields.
    pub open spec fn decoded(o: Seq<(String, Json)>, deny: bool, r: Result<VipAdded, DecodeError>) -> bool {
        match r {
            Ok(x) => VipAdded::error(o, deny) is None && VipAdded::reads_as(o, x),
            Err(e) => VipAdded::error(o, deny) == Some(e),
        }
    }

    /// Decodes the record from the members of a JSON object; with `deny`, a
    /// member that the record does not read is an error.
    pub fn decode(o: &Vec<(String, Json)>, deny: bool) -> (r: Result<VipAdded, DecodeError>)
        ensures
            VipAdded::decoded(o@, deny, r),
    {
        if deny {
            if let Some(e) = VipAdded::unknown_member(o) {
                return Err(e);
            }
        }
        let channel_id = match read_str(o, "channel_id") {
            Ok(v) => v,
            Err(e) => return Err(e),
        };
        let created_by = match read_str(o, "created_by") {
            Ok(v) => v,
            Err(e) => return Err(e),
        };
        let created_by_user_id = match read_str(o, "created_by_user_id") {
            Ok(v) => v,
            Err(e) => return Err(e),
        };
        let target_user_id = match read_str(o, "target_user_id") {
            Ok(v) => v,
            Err(e) => return Err(e),
        };
        let target_user_login = match read_str(o, "target_user_login") {
            Ok(v) => v,
            Err(e) => return Err(e),
        };
        Ok(VipAdded { channel_id, created_by, created_by_user_id, target_user_id, target_user_login })
    }
}

/// A response to an unban request.
#[derive(Debug)]
pub struct UnbanRequest {
    /// Id of the moderator who responded.
    pub created_by_id: String,
    /// Login of the moderator who responded.
    pub created_by_login: String,
    /// The command; approve or deny.
    pub moderation_action: ModerationActionCommand,
    /// Message attached to the response.
    pub moderator_message: String,
    /// Id of the banned user.
    pub target_user_id: String,
    /// Login of the banned user.
    pub target_user_login: String,
}

impl UnbanRequest {
    /// Whether `k` names a member that the record reads.
    pub open spec fn knows(k: Seq<char>) -> bool {
        k == "created_by_id"@
            || k == "created_by_login"@
            || k == "moderation_action"@
            || k == "moderator_message"@
            || k == "target_user_id"@
            || k == "target_user_login"@
    }

    /// [`UnbanRequest::knows`] as a predicate.
    pub open spec fn known() -> spec_fn(Seq<char>) -> bool {
        |k: Seq<char>| UnbanRequest::knows(k)
    }

    fn is_known(k: &str) -> (r: bool)
        ensures
            r == UnbanRequest::knows(k@),
    {
        str_eq(k, "created_by_id")
            || str_eq(k, "created_by_login")
            || str_eq(k, "moderation_action")
            || str_eq(k, "moderator_message")
            || str_eq(k, "target_user_id")
            || str_eq(k, "target_user_login")
    }

    /// Finds the first member that the record does not read.
    pub fn unknown_member(o: &Vec<(String, Json)>) -> (r: Option<DecodeError>)
        ensures
            r == first_unknown(o@, UnbanRequest::known()),
    {
        let mut i: usize = 0;
        assert(o@.subrange(0, o@.len() as int) == o@);
        while i < o.len()
            invariant
                i <= o@.len(),
                first_unknown(o@, UnbanRequest::known()) == first_unknown(o@.subrange(i as int, o@.len() as int), UnbanRequest::known()),
            decreases o@.len() - i,
        {
            let ghost rest = o@.subrange(i as int, o@.len() as int);
            assert(rest.drop_first() == o@.subrange(i + 1, o@.len() as int));
            if !UnbanRequest::is_known(o[i].0.as_str()) {
                return Some(DecodeError::UnknownField(o[i].0.clone()));
            }
            i = i + 1;
        }
        None
    }

    /// The first error of `o`: a member the record does not read, when those are
    /// denied, then the first field, in declaration order, that cannot be read.
    pub open spec fn error(o: Seq<(String, Json)>, deny: bool) -> Option<DecodeError> {
        either(if deny { first_unknown(o, UnbanRequest::known()) } else { None },
        either(err_of(str_member(o, "created_by_id")),
        either(err_of(str_member(o, "created_by_login")),
        either(err_of(ModerationActionCommand::member(o, "moderation_action")),
        either(err_of(str_member(o, "moderator_message")),
        either(err_of(str_member(o, "target_user_id")),
        err_of(str_member(o, "target_user_login"))))))))
    }

    /// Whether every field of `x` is the value read from `o`.
    pub open spec fn reads_as(o: Seq<(String, Json)>, x: UnbanRequest) -> bool {
        &&& x.created_by_id == str_member(o, "created_by_id")->Ok_0
        &&& x.created_by_login == str_member(o, "created_by_login")->Ok_0
        &&& x.moderation_action == ModerationActionCommand::member(o, "moderation_action")->Ok_0
        &&& x.moderator_message == str_member(o, "moderator_message")->Ok_0
        &&& x.target_user_id == str_member(o, "target_user_id")->Ok_0
        &&& x.target_user_login == str_member(o, "target_user_login")->Ok_0
    }

    /// Whether `r` is what decoding the members `o` yields.
    pub open spec fn decoded(o: Seq<(String, Json)>, deny: bool, r: Result<UnbanRequest, DecodeError>) -> bool {
        match r {
            Ok(x) => UnbanRequest::error(o, deny) is None && UnbanRequest::reads_as(o, x),
            Err(e) => UnbanRequest::error(o, deny) == Some(e),
        }
    }

    /// Decodes the record from the members of a JSON object; with `deny`, a
    /// member that the record does not read is an error.
    pub fn decode(o: &Vec<(String, Json)>, deny: bool) -> (r: Result<UnbanRequest, DecodeError>)
        ensures
            UnbanRequest::decoded(o@, deny, r),
    {
        if deny {
            if let Some(e) = UnbanRequest::unknown_member(o) {
                return Err(e);
            }
        }
        let created_by_id = match read_str(o, "created_by_id") {
            Ok(v) => v,
            Err(e) => return Err(e),
        };
        let created_by_login = match read_str(o, "created_by_login") {
            Ok(v) => v,
            Err(e) => return Err(e),
        };
        let moderation_action = match ModerationActionCommand::read(o, "moderation_action") {
            Ok(v) => v,
            Err(e) => return Err(e),
        };
        let moderator_message = match read_str(o, "moderator_message") {
            Ok(v) => v,
            Err(e) => return Err(e),
        };
        let target_user_id = match read_str(o, "target_user_id") {
            Ok(v) => v,
            Err(e) => return Err(e),
        };
        let target_user_login = match read_str(o, "target_user_login") {
            Ok(v) => v,
            Err(e) => return Err(e),
        };
        Ok(UnbanRequest { created_by_id, created_by_login, moderation_action, moderator_message, target_user_id, target_user_login })
    }
}

} // verus!
