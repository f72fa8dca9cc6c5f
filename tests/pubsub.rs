use twitch_api::pubsub::{ChatModeratorActions, Response, TopicData, UserModerationNotifications};

#[test]
fn mod_action_delete() {
        let source = r#"
{
    "type": "MESSAGE",
    "data": {
        "topic": "chat_moderator_actions.27620241.27620241",
        "message": "{\"type\":\"moderation_action\",\"data\":{\"type\":\"chat_login_moderation\",\"moderation_action\":\"delete\",\"args\":[\"tmo\",\"bop\",\"e513c02d-dca5-4480-9af5-e6078d954e42\"],\"created_by\":\"emilgardis\",\"created_by_user_id\":\"27620241\",\"msg_id\":\"\",\"target_user_id\":\"1234\",\"target_user_login\":\"\",\"from_automod\":false}}"
    }
}"#;
        let actual = Response::parse(source).unwrap();
        assert!(matches!(
            actual,
            Response::Message {
                data: TopicData::ChatModeratorActions { .. },
            }
        ));
}

#[test]
fn mod_action_timeout() {
        let source = r#"{"type":"MESSAGE","data":{"topic":"chat_moderator_actions.27620241.27620241","message":"{\"type\":\"moderation_action\",\"data\":{\"type\":\"chat_login_moderation\",\"moderation_action\":\"timeout\",\"args\":[\"tmo\",\"1\",\"\"],\"created_by\":\"emilgardis\",\"created_by_user_id\":\"27620241\",\"msg_id\":\"\",\"target_user_id\":\"1234\",\"target_user_login\":\"\",\"from_automod\":false}}"}}"#;
        let actual = Response::parse(source).unwrap();
        assert!(matches!(
            actual,
            Response::Message {
                data: TopicData::ChatModeratorActions { .. },
            }
        ));
}

#[test]
fn mod_add_moderator() {
        let source = r#"{"type":"MESSAGE","data":{"topic":"chat_moderator_actions.27620241.27620241","message":"{\"type\":\"moderator_added\",  \"data\":{\"channel_id\":\"27620241\",\"target_user_id\":\"19264788\",\"moderation_action\":\"mod\",\"target_user_login\":\"nightbot\",\"created_by_user_id\":\"27620241\",\"created_by\":\"emilgardis\"}}"}}"#;
        let actual = Response::parse(source).unwrap();
        assert!(matches!(
            actual,
            Response::Message {
                data: TopicData::ChatModeratorActions { .. },
            }
        ));
}

#[test]
fn mod_add_moderator_no_user_id() {
        let source = r#"{"type":"MESSAGE","data":{"topic":"chat_moderator_actions.27620241.27620241","message":"{\"type\":\"moderator_added\",  \"data\":{\"channel_id\":\"27620241\",\"target_user_id\":\"19264788\",\"moderation_action\":\"mod\",\"target_user_login\":\"nightbot\",\"created_by_user_id\":\"27620241\",\"created_by\":\"emilgardis\"}}"}}"#;
        let actual = Response::parse(source).unwrap();
        assert!(matches!(
            actual,
            Response::Message {
                data: TopicData::ChatModeratorActions { .. },
            }
        ));
}

#[test]
fn mod_remove_moderator() {
        let source = r#"{"type":"MESSAGE","data":{"topic":"chat_moderator_actions.691109305.129546453","message":"{\"type\":\"moderator_removed\",\"data\":{\"channel_id\":\"129546453\",\"target_user_id\":\"691109305\",\"moderation_action\":\"unmod\",\"target_user_login\":\"rewardmore\",\"created_by_user_id\":\"129546453\",\"created_by\":\"nerixyz\"}}"}}"#;
        let actual = Response::parse(source).unwrap();
        assert!(matches!(
            actual,
            Response::Message {
                data: TopicData::ChatModeratorActions { .. },
            }
        ));
}

#[test]
fn mod_targeted_delete() {
        let source = r#"{"type":"MESSAGE","data":{"topic":"chat_moderator_actions.27620241.80525799","message":"{\"type\":\"moderation_action\",\"data\":{\"type\":\"chat_targeted_login_moderation\",\"moderation_action\":\"delete_notification\",\"args\":[\"you have the moonpool no?\"],\"msg_id\":\"b7ffbf8a-ca9f-497e-bc6f-ae0e606e99dc\",\"target_user_id\":\"27620241\",\"target_user_login\":\"emilgardis\"}}"}}"#;
        let actual = Response::parse(source).unwrap();
        assert!(matches!(
            actual,
            Response::Message {
                data: TopicData::ChatModeratorActions { .. },
            }
        ));
}

#[test]
fn mod_automod() {
        let source = r#"
{
    "type": "MESSAGE",
    "data": {
        "topic": "chat_moderator_actions.27620241.27620241",
        "message": "{\"type\":\"moderation_action\",\"data\":{\"type\":\"chat_channel_moderation\",\"moderation_action\":\"modified_automod_properties\",\"args\":null,\"created_by\":\"emilgardis\",\"created_by_user_id\":\"27620241\",\"msg_id\":\"\",\"target_user_id\":\"\",\"target_user_login\":\"\",\"from_automod\":false}}"
    }
}"#;
        let actual = Response::parse(source).unwrap();
        assert!(matches!(
            actual,
            Response::Message {
                data: TopicData::ChatModeratorActions { .. },
            }
        ));
}

#[test]
fn mod_automod_delete_blocked_term() {
        let source = r#"
{
    "type": "MESSAGE",
    "data": {
        "topic": "chat_moderator_actions.27620241.27620241",
        "message": "{\"type\":\"channel_terms_action\",\"data\":{\"type\":\"delete_blocked_term\",\"id\":\"41a8f582-4c60-4ca1-aa10-91ec06161118\",\"text\":\"Hype\",\"requester_id\":\"27620241\",\"requester_login\":\"emilgardis\",\"channel_id\":\"27620241\",\"expires_at\":\"\",\"updated_at\":\"2021-05-10T21:35:28.745222679Z\",\"from_automod\":false}}"
    }
}"#;
        let actual = Response::parse(source).unwrap();
        assert!(matches!(
            actual,
            Response::Message {
                data: TopicData::ChatModeratorActions { .. },
            }
        ));
}

#[test]
fn mod_slowmode() {
        let source = r#"
{
    "type": "MESSAGE",
    "data": {
        "topic": "chat_moderator_actions.27620241.27620241",
        "message": "{\"type\":\"moderation_action\",\"data\":{\"type\":\"chat_channel_moderation\",\"moderation_action\":\"slow\",\"args\":[\"5\"],\"created_by\":\"tmo\",\"created_by_user_id\":\"1234\",\"msg_id\":\"\",\"target_user_id\":\"\",\"target_user_login\":\"\",\"from_automod\":false}}"
    }
}"#;
        let actual = Response::parse(source).unwrap();
        assert!(matches!(
            actual,
            Response::Message {
                data: TopicData::ChatModeratorActions { .. },
            }
        ));
}

#[test]
fn allow_unknown() {
        let source = r#"
{
    "type": "MESSAGE",
    "data": {
        "topic": "chat_moderator_actions.27620241.27620241",
        "message": "{\"type\":\"moderation_action\",\"data\":{\"type\":\"chat_channel_moderation\",\"moderation_action\":\"slow\",\"unknownfield\": 1,\"args\":[\"5\"],\"created_by\":\"tmo\",\"created_by_user_id\":\"1234\",\"msg_id\":\"\",\"target_user_id\":\"\",\"target_user_login\":\"\",\"from_automod\":false}}"
    }
}"#;
        let actual = Response::parse(source).unwrap();
        assert!(matches!(
            actual,
            Response::Message {
                data: TopicData::ChatModeratorActions { .. },
            }
        ));
}

#[test]
fn deny_unban_request() {
        let source = r#"
{
    "type": "MESSAGE",
    "data": {
        "topic": "chat_moderator_actions.80525799.80525799",
        "message": "{\"type\":\"deny_unban_request\",\"data\":{\"moderation_action\":\"DENY_UNBAN_REQUEST\",\"created_by_id\":\"27620241\",\"created_by_login\":\"emilgardis\",\"moderator_message\":\"ok\",\"target_user_id\":\"465894629\",\"target_user_login\":\"emil_the_impostor\"}}"
    }
}"#;
        let actual = Response::parse(source).unwrap();
        assert!(matches!(
            actual,
            Response::Message {
                data: TopicData::ChatModeratorActions { .. },
            }
        ));
}

#[test]
fn approve_unban_request() {
        let source = r#"
{
    "type": "MESSAGE",
    "data": {
        "topic": "chat_moderator_actions.80525799.80525799",
        "message": "{\"type\":\"approve_unban_request\",\"data\":{\"moderation_action\":\"APPROVE_UNBAN_REQUEST\",\"created_by_id\":\"27620241\",\"created_by_login\":\"emilgardis\",\"moderator_message\":\"ok\",\"target_user_id\":\"465894629\",\"target_user_login\":\"emil_the_impostor\"}}"
    }
}"#;
        let actual = Response::parse(source).unwrap();
        assert!(matches!(
            actual,
            Response::Message {
                data: TopicData::ChatModeratorActions { .. },
            }
        ));
}

#[test]
fn vip_added() {
        let source = r#"
        {
            "type": "MESSAGE",
            "data": {
                "topic": "chat_moderator_actions.80525799.80525799",
                "message": "{\"type\":\"vip_added\",\"data\":{\"channel_id\":\"80525799\",\"target_user_id\":\"56345511\",\"target_user_login\":\"bossquest\",\"created_by_user_id\":\"80525799\",\"created_by\":\"sessis\"}}"
            }
        }"#;
        let actual = Response::parse(source).unwrap();
        assert!(matches!(
            actual,
            Response::Message {
                data: TopicData::ChatModeratorActions { .. },
            }
        ));
}

#[test]
fn vip_added_mod_action() {
        let source = r#"
        {
            "type": "MESSAGE",
            "data": {
                "topic": "chat_moderator_actions.691109305.120183018",
                "message": "{\"type\":\"moderation_action\",\"data\":{\"type\":\"chat_login_moderation\",\"moderation_action\":\"vip\",\"args\":[\"Floikka\"],\"created_by\":\"nam______________________\",\"created_by_user_id\":\"120183018\",\"created_at\":\"2022-12-20T16:41:26.168122804Z\",\"msg_id\":\"\",\"target_user_id\":\"85262774\",\"target_user_login\":\"\",\"from_automod\":false}}"
            }
        }"#;
        let actual = Response::parse(source).unwrap();
        assert!(matches!(
            actual,
            Response::Message {
                data: TopicData::ChatModeratorActions { .. },
            }
        ));
}

#[test]
fn vip_removed() {
        let source = r#"
        {
            "type": "MESSAGE",
            "data": {
                "topic": "chat_moderator_actions.27620241.27620241",
                "message": "{\"type\":\"moderation_action\",\"data\":{\"type\":\"chat_login_moderation\",\"moderation_action\":\"unvip\",\"args\":[\"emil_the_impostor\"],\"created_by\":\"emilgardis\",\"created_by_user_id\":\"27620241\",\"created_at\":\"2021-07-27T22:28:31.075027599Z\",\"msg_id\":\"\",\"target_user_id\":\"465894629\",\"target_user_login\":\"\",\"from_automod\":false}}"
            }
        }"#;
        let actual = Response::parse(source).unwrap();
        assert!(matches!(
            actual,
            Response::Message {
                data: TopicData::ChatModeratorActions { .. },
            }
        ));
}

#[test]
fn unraid() {
        let source = r#"
        {
            "type": "MESSAGE",
            "data": {
                "topic": "chat_moderator_actions.27620241.27620241",
                "message": "{\"type\":\"moderation_action\",\"data\":{\"type\":\"chat_channel_moderation\",\"moderation_action\":\"unraid\",\"args\":[\"emilgradis\"],\"created_by\":\"emilgardis\",\"created_by_user_id\":\"27620241\",\"created_at\":\"\",\"msg_id\":\"\",\"target_user_id\":\"\",\"target_user_login\":\"\",\"from_automod\":false}}"
            }
        }"#;
        let actual = Response::parse(source).unwrap();
        assert!(matches!(
            actual,
            Response::Message {
                data: TopicData::ChatModeratorActions { .. },
            }
        ));
}

#[test]
fn automodcaught() {
        let source = r#"
{
    "type": "MESSAGE",
    "data": {
        "topic": "user-moderation-notifications.27620241.268131879",
        "message": "{\"type\":\"automod_caught_message\",\"data\":{\"message_id\":\"d6f608f8-8f34-4f65-947c-0a92e31b0bfc\",\"status\":\"PENDING\"}}"
    }
}"#;
        let actual = Response::parse(source).unwrap();
        assert!(matches!(
            actual,
            Response::Message {
                data: TopicData::UserModerationNotifications { .. },
            }
        ));
}

#[test]
fn moderation_check_deser() {
    let s = "chat_moderator_actions.1337.1234";
    assert_eq!(
        ChatModeratorActions {
            user_id: 1337,
            channel_id: 1234,
        },
        ChatModeratorActions::from_topic_str(s).unwrap()
    );
}

#[test]
fn moderation_check_ser() {
    let s = "chat_moderator_actions.1337.1234";
    let right: String = ChatModeratorActions {
        user_id: 1337,
        channel_id: 1234,
    }
    .to_topic_string();
    assert_eq!(s.to_string(), right);
}

#[test]
fn user_moderation_notifications_check_deser() {
    let s = "user-moderation-notifications.123.1234";
    assert_eq!(
        UserModerationNotifications {
            channel_id: 1234,
            current_user_id: 123
        },
        UserModerationNotifications::from_topic_str(s).unwrap()
    );
}

#[test]
fn user_moderation_notifications_check_ser() {
    let s = "user-moderation-notifications.123.1234";
    let right: String = UserModerationNotifications {
        channel_id: 1234,
        current_user_id: 123,
    }
    .to_topic_string();
    assert_eq!(s.to_string(), right);
}
