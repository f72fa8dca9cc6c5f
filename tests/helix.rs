use twitch_api::helix::{
    BlockUser, BlockUserRequest, EndPoll, EndPollBody, EndPollRequest, EndPrediction, EndPredictionBody,
    EndPredictionRequest, GetBitsLeaderboardRequest, PollStatus, PredictionStatus, RemoveBlockedTerm,
    RemoveBlockedTermRequest, RemoveChannelVipRequest, RemoveChannelVipResponse, UnbanUserRequest,
    UnbanUserResponse,
};
use twitch_api::json::Json;

fn value(j: &Json) -> serde_json::Value {
    match j {
        Json::Null => serde_json::Value::Null,
        Json::Bool(b) => serde_json::Value::Bool(*b),
        Json::Int(i) => serde_json::Value::from(*i),
        Json::Number(t) => serde_json::from_str(t).unwrap(),
        Json::Str(s) => serde_json::Value::String(s.clone()),
        Json::Array(a) => serde_json::Value::Array(a.iter().map(value).collect()),
        Json::Object(o) => serde_json::Value::Object(o.iter().map(|(k, v)| (k.clone(), value(v))).collect()),
    }
}

/// Writes a JSON tree as compact text, members in key order.
fn to_text(j: &Json) -> String {
    serde_json::to_string(&value(j)).unwrap()
}

#[test]
fn get_bits_leaderboard_test_request() {
    let _req = GetBitsLeaderboardRequest::new();

    // From api call
    let data = r##"
{
    "data": [
        {
        "user_id": "158010205",
        "user_login": "tundracowboy",
        "user_name": "TundraCowboy",
        "rank": 1,
        "score": 12543
        },
        {
        "user_id": "7168163",
        "user_login": "topramens",
        "user_name": "Topramens",
        "rank": 2,
        "score": 6900
        }
    ],
    "date_range": {
        "started_at": "2018-02-05T08:00:00Z",
        "ended_at": "2018-02-12T08:00:00Z"
    },
    "total": 2
    }
"##;

    let uri = "https://api.twitch.tv/helix/bits/leaderboard?";
    let resp = GetBitsLeaderboardRequest::parse_response(200, data, uri).unwrap();
    assert_eq!(resp.data.leaderboard.len(), 2);
    assert_eq!(resp.total, Some(2));
}

#[test]
fn remove_channel_vip_test_request() {
    let _req = RemoveChannelVipRequest::new("123".to_string(), "456".to_string());
    let data = "";
    let uri = "https://api.twitch.tv/helix/channels/vips?broadcaster_id=123&user_id=456";
    let resp = RemoveChannelVipRequest::parse_response(204, data, uri).unwrap();
    assert_eq!(resp.data, RemoveChannelVipResponse::Success);
}

#[test]
fn remove_blocked_term_test_request() {
    let _req = RemoveBlockedTermRequest::new(
        "1234".to_string(),
        "5678".to_string(),
        "c9fc79b8-0f63-4ef7-9d38-efd811e74ac2".to_string(),
    );
    // From twitch docs
    let data = "";
    let uri = "https://api.twitch.tv/helix/moderation/blocked_terms?broadcaster_id=1234&moderator_id=5678&id=c9fc79b8-0f63-4ef7-9d38-efd811e74ac2";
    let resp = RemoveBlockedTermRequest::parse_response(204, data, uri).unwrap();
    assert_eq!(resp.data, RemoveBlockedTerm::Success);
}

#[test]
fn unban_user_test_request() {
    let _req = UnbanUserRequest::new("1234".to_string(), "5678".to_string(), "9876".to_string());
    // From twitch docs
    let data = "\n    ";
    let uri = "https://api.twitch.tv/helix/moderation/bans?broadcaster_id=1234&moderator_id=5678&user_id=9876";
    let resp = UnbanUserRequest::parse_response(204, data, uri).unwrap();
    assert_eq!(resp.data, UnbanUserResponse::Success);
}

#[test]
fn block_user_test_request() {
    let _req = BlockUserRequest::block_user("41245071".to_string());
    // From twitch docs
    let data = "";
    let uri = "https://api.twitch.tv/helix/users/blocks?target_user_id=41245071";
    let resp = BlockUserRequest::parse_response(204, data, uri).unwrap();
    assert_eq!(resp.data, BlockUser::Success);
}

#[test]
fn end_poll_test_request() {
    let _req = EndPollRequest::new();

    let body = EndPollBody::new(
        "141981764".to_string(),
        "ed961efd-8a3f-4cf5-a9d0-e616c590cd2a".to_string(),
        PollStatus::Terminated,
    );

    assert_eq!(
        to_text(&Json::Object(body.to_members())),
        r#"{"broadcaster_id":"141981764","id":"ed961efd-8a3f-4cf5-a9d0-e616c590cd2a","status":"TERMINATED"}"#
    );

    // From twitch docs
    let data = r##"
{
    "data": [
        {
        "id": "ed961efd-8a3f-4cf5-a9d0-e616c590cd2a",
        "broadcaster_id": "141981764",
        "broadcaster_name": "TwitchDev",
        "broadcaster_login": "twitchdev",
        "title": "Heads or Tails?",
        "choices": [
            {
            "id": "4c123012-1351-4f33-84b7-43856e7a0f47",
            "title": "Heads",
            "votes": 0,
            "channel_points_votes": 0,
            "bits_votes": 0
            },
            {
            "id": "279087e3-54a7-467e-bcd0-c1393fcea4f0",
            "title": "Tails",
            "votes": 0,
            "channel_points_votes": 0,
            "bits_votes": 0
            }
        ],
        "channel_points_voting_enabled": true,
        "channel_points_per_vote": 100,
        "status": "TERMINATED",
        "duration": 1800,
        "started_at": "2021-03-19T06:08:33.871278372Z",
        "ended_at": "2021-03-19T06:11:26.746889614Z"
        }
    ]
}
    "##;

    let uri = "https://api.twitch.tv/helix/polls?";
    let resp = EndPollRequest::parse_response(200, data, uri).unwrap();
    assert!(matches!(resp.data, EndPoll::Success(_)));
}

#[test]
fn end_prediction_test_request() {
    let _req = EndPredictionRequest::new();

    let body = EndPredictionBody::new(
        "141981764".to_string(),
        "bc637af0-7766-4525-9308-4112f4cbf178".to_string(),
        PredictionStatus::Resolved,
    )
    .winning_outcome_id("73085848-a94d-4040-9d21-2cb7a89374b7".to_string());

    assert_eq!(
        to_text(&Json::Object(body.to_members())),
        r#"{"broadcaster_id":"141981764","id":"bc637af0-7766-4525-9308-4112f4cbf178","status":"RESOLVED","winning_outcome_id":"73085848-a94d-4040-9d21-2cb7a89374b7"}"#
    );

    // From twitch docs
    let data = r##"
{
    "data": [
        {
        "id": "bc637af0-7766-4525-9308-4112f4cbf178",
        "broadcaster_id": "141981764",
        "broadcaster_name": "TwitchDev",
        "broadcaster_login": "twitchdev",
        "title": "Will we win all the games?",
        "winning_outcome_id": "73085848-a94d-4040-9d21-2cb7a89374b7",
        "outcomes": [
            {
            "id": "73085848-a94d-4040-9d21-2cb7a89374b7",
            "title": "yes",
            "users": 0,
            "channel_points": 0,
            "top_predictors": null,
            "color": "BLUE"
            },
            {
            "id": "86010b2e-9764-4136-9359-fd1c9c5a8033",
            "title": "no",
            "users": 0,
            "channel_points": 0,
            "top_predictors": null,
            "color": "PINK"
            }
        ],
        "prediction_window": 120,
        "status": "RESOLVED",
        "created_at": "2021-04-28T21:48:19.480371331Z",
        "ended_at": "2021-04-28T21:54:24.026833954Z",
        "locked_at": "2021-04-28T21:48:34.636685705Z"
        }
    ]
}
    "##;

    let uri = "https://api.twitch.tv/helix/predictions?";
    let resp = EndPredictionRequest::parse_response(200, data, uri).unwrap();
    assert!(matches!(resp.data, EndPrediction::Success(_)));
}
