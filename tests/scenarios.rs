use twitch_api::eventsub::{Event, EventSubError, EventSubMessage, Schema};
use twitch_api::helix::{
    BlockUser, BlockUserRequest, EndPoll, EndPollRequest, GetBitsLeaderboardRequest, HelixRequestError, Reason,
    SourceContext, UnbanUserRequest, UnbanUserResponse,
};
use twitch_api::json::{DecodeError, Json};
use twitch_api::moderation::ModerationActionCommand;
use twitch_api::payloads::{Contribution, ContributionType, VideoType};
use twitch_api::pubsub::{
    ChatModeratorActions, ChatModeratorActionsReply, PubSubError, Response, TopicData, Topics,
    UserModerationNotifications,
};
use twitch_api::topic::parse_u32;

const ONLINE: &str = r#"
{
    "subscription": {
        "id": "f1c2a387-161a-49f9-a165-0f21d7a4e1c4",
        "type": "stream.online",
        "version": "1",
        "status": "enabled",
        "cost": 0,
        "condition": {
            "broadcaster_user_id": "1337"
        },
        "transport": {
            "method": "webhook",
            "callback": "https://example.com/webhooks/callback"
        },
        "created_at": "2019-11-16T10:11:12.123Z"
    },
    "event": {
        "id": "9001",
        "broadcaster_user_id": "1337",
        "broadcaster_user_login": "cool_user",
        "broadcaster_user_name": "Cool_User",
        "type": "live",
        "started_at": "2020-10-11T10:11:12.123Z"
    }
}
"#;

fn member<'a>(j: &'a Json, key: &str) -> &'a Json {
    match j {
        Json::Object(o) => &o.iter().find(|(k, _)| k == key).unwrap().1,
        _ => panic!("not an object"),
    }
}

fn text_of(j: &Json) -> &str {
    match j {
        Json::Str(s) => s.as_str(),
        _ => panic!("not a string"),
    }
}

fn moderation_frame(topic: &str, message: &str) -> String {
    let message = message.replace('\\', "\\\\").replace('"', "\\\"");
    format!(r#"{{"type":"MESSAGE","data":{{"topic":"{}","message":"{}"}}}}"#, topic, message)
}

#[test]
fn stream_online_scenario() {
    let ev = Event::parse(ONLINE).unwrap();
    match &ev {
        Event::StreamOnlineV1(n) => {
            assert_eq!(n.event.id, "9001");
            assert_eq!(n.event.broadcaster_user_id, "1337");
            assert_eq!(n.event.type_, VideoType::Live);
            assert_eq!(n.event.started_at.as_str(), "2020-10-11T10:11:12.123Z");
            assert_eq!(n.condition.broadcaster_user_id, "1337");
            assert_eq!(n.subscription.transport.method, "webhook");
            assert_eq!(n.subscription.cost, 0);
        },
        other => panic!("unexpected {:?}", other),
    }
    let json = ev.to_json().unwrap();
    let event = member(&json, "event");
    assert_eq!(text_of(member(event, "id")), "9001");
    assert_eq!(text_of(member(event, "type")), "live");
    assert_eq!(text_of(member(event, "started_at")), "2020-10-11T10:11:12.123Z");
    let subscription = member(&json, "subscription");
    assert_eq!(text_of(member(subscription, "type")), "stream.online");
    assert_eq!(text_of(member(subscription, "version")), "1");
    let again = Event::decode(&json).unwrap();
    assert_eq!(format!("{:?}", ev), format!("{:?}", again));
}

#[test]
fn unregistered_version_is_unknown_schema() {
    let text = ONLINE.replace(r#""version": "1""#, r#""version": "7""#);
    match Event::parse(&text).unwrap() {
        Event::UnknownSchema { kind, version } => {
            assert_eq!(kind, "stream.online");
            assert_eq!(version, "7");
        },
        other => panic!("unexpected {:?}", other),
    }
}

#[test]
fn unknown_kind_is_unknown_schema() {
    let text = ONLINE.replace("stream.online", "channel.shoutout.create");
    assert!(matches!(Event::parse(&text).unwrap(), Event::UnknownSchema { .. }));
}

#[test]
fn eventsub_errors_name_their_stage() {
    assert!(matches!(Event::parse("{not json"), Err(EventSubError::Syntax { raw }) if raw == "{not json"));
    assert!(matches!(Event::parse("[1, 2]"), Err(EventSubError::Envelope(DecodeError::NotObject))));
    let no_event = r#"{"subscription":{"id":"a","type":"stream.offline","version":"1","status":"enabled","cost":0,
        "condition":{"broadcaster_user_id":"1"},"transport":{"method":"webhook"},"created_at":"2019-11-16T10:11:12.123Z"}}"#;
    assert!(matches!(Event::parse(no_event), Err(EventSubError::Envelope(DecodeError::MissingField("event")))));
    let bad_condition = ONLINE.replace(r#""broadcaster_user_id": "1337"
        }"#, r#""broadcaster_user_id": 1337
        }"#);
    assert!(matches!(
        Event::parse(&bad_condition),
        Err(EventSubError::Condition(DecodeError::WrongShape("broadcaster_user_id")))
    ));
    let bad_video_type = ONLINE.replace(r#""type": "live""#, r#""type": "hologram""#);
    match Event::parse(&bad_video_type) {
        Err(EventSubError::Payload(DecodeError::UnknownValue { field, raw })) => {
            assert_eq!(field, "type");
            assert_eq!(raw, "hologram");
        },
        other => panic!("unexpected {:?}", other),
    }
    let bad_time = ONLINE.replace("2020-10-11T10:11:12.123Z", "yesterday");
    assert!(matches!(
        Event::parse(&bad_time),
        Err(EventSubError::Payload(DecodeError::WrongShape("started_at")))
    ));
}

#[test]
fn eventsub_message_classification() {
    let challenge = r#"{"challenge":"pogchamp-kappa-360noscope-vohiyo","subscription":{"id":"a"}}"#;
    match EventSubMessage::classify("webhook_callback_verification", challenge).unwrap() {
        EventSubMessage::VerificationChallenge { challenge } => {
            assert_eq!(challenge, "pogchamp-kappa-360noscope-vohiyo")
        },
        other => panic!("unexpected {:?}", other),
    }
    let revocation = r#"{"subscription":{"id":"f1c2","type":"channel.follow","version":"1","status":"authorization_revoked","cost":1}}"#;
    match EventSubMessage::classify("revocation", revocation).unwrap() {
        EventSubMessage::Revocation { id, kind, version, status } => {
            assert_eq!(id, "f1c2");
            assert_eq!(kind, "channel.follow");
            assert_eq!(version, "1");
            assert_eq!(status, "authorization_revoked");
        },
        other => panic!("unexpected {:?}", other),
    }
    assert!(matches!(EventSubMessage::classify("session_keepalive", ""), Ok(EventSubMessage::Keepalive)));
    assert!(matches!(
        EventSubMessage::classify("notification", ONLINE),
        Ok(EventSubMessage::Notification(Event::StreamOnlineV1(_)))
    ));
    assert!(matches!(
        EventSubMessage::classify("session_welcome", "{}"),
        Err(EventSubError::UnknownMessageType(t)) if t == "session_welcome"
    ));
}

#[test]
fn registry_keys_and_deprecation() {
    assert_eq!(Schema::lookup("channel.update", "1"), Some(Schema::ChannelUpdateV1));
    assert_eq!(Schema::lookup("channel.update", "2"), Some(Schema::ChannelUpdateV2));
    assert_eq!(Schema::lookup("channel.update", "3"), None);
    assert_eq!(Schema::lookup("channel.raid", "1"), Some(Schema::ChannelRaidV1));
    assert!(Schema::ChannelUpdateV1.deprecated());
    assert!(!Schema::ChannelUpdateV2.deprecated());
    assert_eq!(Schema::ChannelPredictionLockV1.kind_str(), "channel.prediction.lock");
    assert_eq!(Schema::ChannelUpdateV2.version_str(), "2");
}

#[test]
fn contribution_round_trip() {
    let c = Contribution {
        total: 50,
        type_: ContributionType::Subscription,
        user_id: "123".to_string(),
        user_login: "pogchamp".to_string(),
        user_name: "PogChamp".to_string(),
    };
    let members = c.to_members();
    let back = Contribution::decode(&members, true).unwrap();
    assert_eq!(format!("{:?}", c), format!("{:?}", back));
    let members = vec![
        ("total".to_string(), Json::Int(7)),
        ("type".to_string(), Json::Str("bits".to_string())),
        ("user_id".to_string(), Json::Str("1".to_string())),
        ("user_login".to_string(), Json::Str("a".to_string())),
        ("user_name".to_string(), Json::Str("A".to_string())),
    ];
    let c = Contribution::decode(&members, true).unwrap();
    assert_eq!(c.total, 7);
    assert_eq!(c.type_, ContributionType::Bits);
    let mut extra = members;
    extra.push(("level".to_string(), Json::Int(2)));
    assert!(Contribution::decode(&extra, false).is_ok());
    assert!(matches!(Contribution::decode(&extra, true), Err(DecodeError::UnknownField(k)) if k == "level"));
}

#[test]
fn topic_text_scenario() {
    let t = ChatModeratorActions::from_topic_str("chat_moderator_actions.1337.1234").unwrap();
    assert_eq!(t.user_id, 1337);
    assert_eq!(t.channel_id, 1234);
    assert_eq!(t.to_topic_string(), "chat_moderator_actions.1337.1234");
}

#[test]
fn topic_round_trips() {
    let values = [
        Topics::ChatModeratorActions(ChatModeratorActions { user_id: 0, channel_id: u32::MAX }),
        Topics::ChatModeratorActions(ChatModeratorActions { user_id: 10, channel_id: 7 }),
        Topics::UserModerationNotifications(UserModerationNotifications { current_user_id: 123, channel_id: 1234 }),
        Topics::UserModerationNotifications(UserModerationNotifications { current_user_id: u32::MAX, channel_id: 0 }),
    ];
    for t in values {
        assert_eq!(Topics::from_topic_str(&t.to_topic_string()), Some(t));
    }
    assert_eq!(
        ChatModeratorActions { user_id: 0, channel_id: 4294967295 }.to_topic_string(),
        "chat_moderator_actions.0.4294967295"
    );
}

#[test]
fn topic_text_rejections() {
    assert_eq!(ChatModeratorActions::from_topic_str("chat_moderator_actions.1.2.3"), None);
    assert_eq!(ChatModeratorActions::from_topic_str("chat_moderator_actions.1"), None);
    assert_eq!(ChatModeratorActions::from_topic_str("chat_moderator_actions.1.x"), None);
    assert_eq!(ChatModeratorActions::from_topic_str("chat_moderator_actions.1.4294967296"), None);
    assert_eq!(ChatModeratorActions::from_topic_str("chat_moderator_actions..2"), None);
    assert_eq!(ChatModeratorActions::from_topic_str("user-moderation-notifications.1.2"), None);
    assert_eq!(
        ChatModeratorActions::from_topic_str("chat_moderator_actions.+5.007"),
        Some(ChatModeratorActions { user_id: 5, channel_id: 7 })
    );
    assert_eq!(parse_u32("4294967295"), Some(u32::MAX));
    assert_eq!(parse_u32("+"), None);
    assert_eq!(parse_u32(""), None);
    assert_eq!(parse_u32("-1"), None);
}

#[test]
fn nested_message_syntax_error() {
    let frame = r#"{"type":"MESSAGE","data":{"topic":"chat_moderator_actions.1.2","message":"{not json"}}"#;
    match Response::parse(frame) {
        Err(PubSubError::MessageSyntax { raw }) => assert_eq!(raw, "{not json"),
        other => panic!("unexpected {:?}", other),
    }
    match Response::parse("{\"type\": ") {
        Err(PubSubError::EnvelopeSyntax { raw }) => assert_eq!(raw, "{\"type\": "),
        other => panic!("unexpected {:?}", other),
    }
}

#[test]
fn pubsub_frames_without_topic() {
    assert!(matches!(Response::parse(r#"{"type":"PONG"}"#), Ok(Response::Pong)));
    assert!(matches!(Response::parse(r#"{"type":"RECONNECT"}"#), Ok(Response::Reconnect)));
    match Response::parse(r#"{"type":"RESPONSE","error":"","nonce":"44h1k13746815ab1r2"}"#).unwrap() {
        Response::Response(r) => {
            assert_eq!(r.error, None);
            assert_eq!(r.nonce, Some("44h1k13746815ab1r2".to_string()));
        },
        other => panic!("unexpected {:?}", other),
    }
    match Response::parse(r#"{"type":"RESPONSE","error":"ERR_BADAUTH","nonce":null}"#).unwrap() {
        Response::Response(r) => {
            assert_eq!(r.error, Some("ERR_BADAUTH".to_string()));
            assert_eq!(r.nonce, None);
        },
        other => panic!("unexpected {:?}", other),
    }
    assert!(matches!(
        Response::parse(r#"{"type":"WHISPER"}"#),
        Err(PubSubError::UnknownType(t)) if t == "WHISPER"
    ));
    assert!(matches!(
        Response::parse(r#"{"data":{}}"#),
        Err(PubSubError::Envelope(DecodeError::MissingField("type")))
    ));
}

#[test]
fn unknown_topic_is_kept_raw() {
    let frame = moderation_frame("video-playback-by-id.31239503", r#"{"type":"viewcount","viewers":3}"#);
    match Response::parse(&frame).unwrap() {
        Response::Message { data: TopicData::Unknown { topic, message } } => {
            assert_eq!(topic, "video-playback-by-id.31239503");
            assert_eq!(message, r#"{"type":"viewcount","viewers":3}"#);
        },
        other => panic!("unexpected {:?}", other),
    }
}

#[test]
fn reply_errors() {
    let unknown = moderation_frame("chat_moderator_actions.1.2", r#"{"type":"frobnicate","data":{}}"#);
    match Response::parse(&unknown) {
        Err(PubSubError::Reply(DecodeError::UnknownValue { field, raw })) => {
            assert_eq!(field, "type");
            assert_eq!(raw, "frobnicate");
        },
        other => panic!("unexpected {:?}", other),
    }
    let no_data = moderation_frame("chat_moderator_actions.1.2", r#"{"type":"vip_added"}"#);
    assert!(matches!(
        Response::parse(&no_data),
        Err(PubSubError::Reply(DecodeError::MissingField("data")))
    ));
    let not_object = moderation_frame("chat_moderator_actions.1.2", "[1]");
    assert!(matches!(Response::parse(&not_object), Err(PubSubError::Reply(DecodeError::NotObject))));
    let bad_command = moderation_frame(
        "chat_moderator_actions.1.2",
        r#"{"type":"moderation_action","data":{"type":"chat_login_moderation","moderation_action":"yeet","args":null,"target_user_id":"1"}}"#,
    );
    match Response::parse(&bad_command) {
        Err(PubSubError::Reply(DecodeError::UnknownValue { field, raw })) => {
            assert_eq!(field, "moderation_action");
            assert_eq!(raw, "yeet");
        },
        other => panic!("unexpected {:?}", other),
    }
}

#[test]
fn moderation_action_fields() {
    let frame = moderation_frame(
        "chat_moderator_actions.27620241.27620241",
        r#"{"type":"moderation_action","data":{"type":"chat_channel_moderation","moderation_action":"slowoff","args":null,"created_by":"","created_by_user_id":"27620241","msg_id":"","target_user_id":"","created_at":"2021-07-27T22:28:31.075027599Z"}}"#,
    );
    match Response::parse(&frame).unwrap() {
        Response::Message { data: TopicData::ChatModeratorActions { topic, reply } } => {
            assert_eq!(topic, ChatModeratorActions { user_id: 27620241, channel_id: 27620241 });
            match reply {
                ChatModeratorActionsReply::ModerationAction(a) => {
                    assert!(a.args.is_empty());
                    assert_eq!(a.created_by, None);
                    assert_eq!(a.created_by_user_id, Some("27620241".to_string()));
                    assert_eq!(a.msg_id, None);
                    assert!(!a.from_automod);
                    assert_eq!(a.moderation_action, ModerationActionCommand::SlowOff);
                    assert_eq!(a.created_at.unwrap().as_str(), "2021-07-27T22:28:31.075027599Z");
                },
                other => panic!("unexpected {:?}", other),
            }
        },
        other => panic!("unexpected {:?}", other),
    }
    assert_eq!(ModerationActionCommand::ApproveUnbanRequest.as_str(), "APPROVE_UNBAN_REQUEST");
    assert_eq!(ModerationActionCommand::from_wire("r9kbetaoff"), Some(ModerationActionCommand::R9KBetaOff));
}

#[test]
fn no_content_success_ignores_body() {
    let resp = UnbanUserRequest::parse_inner_response(204, "", "https://api.twitch.tv/helix/moderation/bans").unwrap();
    assert_eq!(resp.data, UnbanUserResponse::Success);
    assert_eq!(resp.pagination, None);
    let resp = BlockUserRequest::parse_inner_response(204, "not json at all", "u").unwrap();
    assert_eq!(resp.data, BlockUser::Success);
    match UnbanUserRequest::parse_inner_response(200, "{}", "u") {
        Err(HelixRequestError::InvalidResponse { reason, response, status, uri }) => {
            assert_eq!(reason, "unexpected status");
            assert_eq!(response, "{}");
            assert_eq!(status, 200);
            assert_eq!(uri, "u");
        },
        other => panic!("unexpected {:?}", other),
    }
}

#[test]
fn status_outcomes_of_end_poll() {
    let uri = "https://api.twitch.tv/helix/polls?";
    assert!(matches!(EndPollRequest::parse_response(400, "", uri).unwrap().data, EndPoll::MissingQuery));
    assert!(matches!(EndPollRequest::parse_response(401, "", uri).unwrap().data, EndPoll::AuthFailed));
    match EndPollRequest::parse_response(418, "I'm a teapot", uri) {
        Err(HelixRequestError::InvalidResponse { reason, response, status, uri: u }) => {
            assert_eq!(reason, "unexpected status code");
            assert_eq!(response, "I'm a teapot");
            assert_eq!(status, 418);
            assert_eq!(u, uri);
        },
        other => panic!("unexpected {:?}", other),
    }
    match EndPollRequest::parse_response(200, r#"{"data":[]}"#, uri) {
        Err(HelixRequestError::InvalidResponse { reason, .. }) => {
            assert_eq!(reason, "expected at least one element in data")
        },
        other => panic!("unexpected {:?}", other),
    }
    assert!(matches!(
        EndPollRequest::parse_response(200, "{", uri),
        Err(HelixRequestError::BodySyntax { status: 200, .. })
    ));
    assert!(matches!(
        EndPollRequest::parse_response(200, r#"{"data":[{"id":"x"}]}"#, uri),
        Err(HelixRequestError::DeserializeError { error: DecodeError::MissingField("broadcaster_id"), .. })
    ));
    let server_error = r#"{"error":"Unauthorized","status":401,"message":"Invalid OAuth token"}"#;
    match EndPollRequest::parse_response(401, server_error, uri) {
        Err(HelixRequestError::Error { error, status, message, uri: u, response, http_status }) => {
            assert_eq!(error, "Unauthorized");
            assert_eq!(status, 401);
            assert_eq!(message, "Invalid OAuth token");
            assert_eq!(u, uri);
            assert_eq!(response, server_error);
            assert_eq!(http_status, 401);
        },
        other => panic!("unexpected {:?}", other),
    }
}

#[test]
fn leaderboard_cursor_and_total() {
    let body = r#"{"data":[{"user_id":"1","user_login":"a","user_name":"A","rank":1,"score":5}],
        "date_range":{"started_at":"2018-02-05T08:00:00Z","ended_at":"2018-02-12T08:00:00Z"},
        "total":1,"pagination":{"cursor":"eyJiIjpudWxsfQ"}}"#;
    let resp = GetBitsLeaderboardRequest::parse_inner_response(200, body, "u").unwrap();
    assert_eq!(resp.total, Some(1));
    assert_eq!(resp.pagination, Some("eyJiIjpudWxsfQ".to_string()));
    assert_eq!(resp.data.leaderboard[0].score, 5);
    assert_eq!(resp.data.date_range.ended_at.as_str(), "2018-02-12T08:00:00Z");
}

#[test]
fn request_builders() {
    let req = BlockUserRequest::block_user("41245071".to_string())
        .source_context(SourceContext::Chat)
        .reason(Reason::Spam);
    assert_eq!(req.target_user_id, "41245071");
    assert_eq!(req.source_context, Some(SourceContext::Chat));
    assert_eq!(req.reason, Some(Reason::Spam));
    assert_eq!(SourceContext::Whispher.as_str(), "whisper");
    let req = GetBitsLeaderboardRequest::new().count(5).period("week".to_string()).user_id("1337".to_string());
    assert_eq!(req.count, Some(5));
    assert_eq!(req.period, Some("week".to_string()));
    assert_eq!(req.user_id, Some("1337".to_string()));
    assert!(req.started_at.is_none());
    assert_eq!(GetBitsLeaderboardRequest::scope(), "bits:read");
}

#[test]
fn unknown_members_by_mode() {
    assert!(matches!(Event::parse_strict(ONLINE), Ok(Event::StreamOnlineV1(_))));
    let extra = ONLINE.replace(r#""id": "9001","#, r#""id": "9001", "viewer_count": 3,"#);
    assert!(matches!(Event::parse(&extra), Ok(Event::StreamOnlineV1(_))));
    match Event::parse_strict(&extra) {
        Err(EventSubError::Payload(DecodeError::UnknownField(k))) => assert_eq!(k, "viewer_count"),
        other => panic!("unexpected {:?}", other),
    }
    let frame = moderation_frame(
        "chat_moderator_actions.27620241.27620241",
        r#"{"type":"moderation_action","data":{"type":"chat_channel_moderation","moderation_action":"slow","unknownfield":1,"args":["5"],"created_by":"tmo","created_by_user_id":"1234","msg_id":"","target_user_id":"","target_user_login":"","from_automod":false}}"#,
    );
    assert!(Response::parse(&frame).is_ok());
    match Response::parse_strict(&frame) {
        Err(PubSubError::Reply(DecodeError::UnknownField(k))) => assert_eq!(k, "unknownfield"),
        other => panic!("unexpected {:?}", other),
    }
}

#[test]
fn scope_requirements() {
    assert_eq!(Schema::ChannelCheerV1.required_scopes(), vec!["bits:read"]);
    assert_eq!(
        Schema::ChannelPredictionLockV1.required_scopes(),
        vec!["channel:read:predictions", "channel:manage:predictions"]
    );
    assert!(Schema::StreamOnlineV1.required_scopes().is_empty());
    let t = ChatModeratorActions { user_id: 1, channel_id: 2 }.into_topic();
    assert_eq!(t.required_scopes(), vec!["channel:moderate"]);
    let u = UserModerationNotifications { current_user_id: 1, channel_id: 2 }.into_topic();
    assert!(u.required_scopes().is_empty());
}

#[test]
fn leaderboard_needs_ok_status() {
    let body = r#"{"data":[],"date_range":{"started_at":"2018-02-05T08:00:00Z","ended_at":"2018-02-12T08:00:00Z"},"total":0}"#;
    assert!(GetBitsLeaderboardRequest::parse_response(200, body, "u").is_ok());
    for status in [400u16, 401, 418] {
        match GetBitsLeaderboardRequest::parse_response(status, body, "u") {
            Err(HelixRequestError::InvalidResponse { reason, response, status: st, uri }) => {
                assert_eq!(reason, "unexpected status");
                assert_eq!(response, body);
                assert_eq!(st, status);
                assert_eq!(uri, "u");
            },
            other => panic!("unexpected {:?}", other),
        }
    }
    let server_error = r#"{"error":"Bad Request","status":400,"message":"Invalid count"}"#;
    match GetBitsLeaderboardRequest::parse_response(400, server_error, "u") {
        Err(HelixRequestError::Error { error, http_status, response, .. }) => {
            assert_eq!(error, "Bad Request");
            assert_eq!(http_status, 400);
            assert_eq!(response, server_error);
        },
        other => panic!("unexpected {:?}", other),
    }
}

#[test]
fn helix_unknown_members_by_mode() {
    let body = r#"{"data":[{"user_id":"1","user_login":"a","user_name":"A","rank":1,"score":5,"badge":"gold"}],
        "date_range":{"started_at":"2018-02-05T08:00:00Z","ended_at":"2018-02-12T08:00:00Z"},"total":1}"#;
    assert!(GetBitsLeaderboardRequest::parse_response(200, body, "u").is_ok());
    match GetBitsLeaderboardRequest::parse_response_strict(200, body, "u") {
        Err(HelixRequestError::DeserializeError { error: DecodeError::UnknownField(k), .. }) => assert_eq!(k, "badge"),
        other => panic!("unexpected {:?}", other),
    }
    let poll = r#"{"data":[{"id":"p","broadcaster_id":"1","broadcaster_name":"B","broadcaster_login":"b","title":"t",
        "choices":[],"channel_points_voting_enabled":false,"channel_points_per_vote":0,"status":"ACTIVE",
        "duration":60,"started_at":"2021-03-19T06:08:33.871278372Z","ended_at":null,"extra":1}]}"#;
    assert!(matches!(EndPollRequest::parse_response(200, poll, "u").unwrap().data, EndPoll::Success(_)));
    assert!(matches!(
        EndPollRequest::parse_response_strict(200, poll, "u"),
        Err(HelixRequestError::DeserializeError { error: DecodeError::UnknownField(_), .. })
    ));
}

#[test]
fn leaderboard_decodes_every_2xx() {
    let body = r#"{"data":[{"user_id":"1","user_login":"a","user_name":"A","rank":1,"score":5}],
        "date_range":{"started_at":"2018-02-05T08:00:00Z","ended_at":"2018-02-12T08:00:00Z"},"total":1}"#;
    for status in [200u16, 201, 299] {
        let resp = GetBitsLeaderboardRequest::parse_response(status, body, "u").unwrap();
        assert_eq!(resp.total, Some(1));
        assert_eq!(resp.pagination, None);
        assert_eq!(resp.data.leaderboard[0].user_login, "a");
    }
    match GetBitsLeaderboardRequest::parse_response(201, "{", "u") {
        Err(HelixRequestError::BodySyntax { status, .. }) => assert_eq!(status, 201),
        other => panic!("unexpected {:?}", other),
    }
    assert!(matches!(
        GetBitsLeaderboardRequest::parse_response(300, body, "u"),
        Err(HelixRequestError::InvalidResponse { status: 300, .. })
    ));
}

#[test]
fn command_wire_text_reads_back() {
    for c in [
        ModerationActionCommand::Delete,
        ModerationActionCommand::SlowOff,
        ModerationActionCommand::R9KBeta,
        ModerationActionCommand::DenyUnbanRequest,
        ModerationActionCommand::DeleteNotification,
    ] {
        assert_eq!(ModerationActionCommand::from_wire(c.as_str()), Some(c));
    }
}
