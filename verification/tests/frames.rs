use plustwo::events::{ChatMessage, StreamOffline, StreamOnline};
use plustwo::frames::{decode_frame, frame_from, notification_from, Outline, Unparseable};
use plustwo::session::{Frame, Notification};

fn control(kind: &str, session: &str) -> String {
    format!(
        r#"{{"metadata":{{"message_id":"m-1","message_type":"{}","message_timestamp":"2025-03-13T20:00:00.5Z"}},"payload":{}}}"#,
        kind, session
    )
}

fn notification(kind: &str, version: &str, condition: &str, event: &str) -> String {
    format!(
        r#"{{"metadata":{{"message_id":"m-2","message_type":"notification","message_timestamp":"2025-03-13T20:05:00.25Z","subscription_type":"{kind}","subscription_version":"{version}"}},"payload":{{"subscription":{{"id":"s-1","status":"enabled","type":"{kind}","version":"{version}","cost":0,"condition":{condition},"transport":{{"method":"websocket","session_id":"sess"}},"created_at":"2025-03-13T19:00:00Z"}},"event":{event}}}}}"#,
        kind = kind,
        version = version,
        condition = condition,
        event = event
    )
}

#[test]
fn a_welcome_names_the_session() {
    let text = control(
        "session_welcome",
        r#"{"session":{"id":"sess-42","status":"connected","connected_at":"2025-03-13T20:00:00Z","keepalive_timeout_seconds":10,"reconnect_url":null}}"#,
    );
    assert_eq!(decode_frame(&text), Ok(Frame::Welcome { session_id: "sess-42".to_string() }));
}

#[test]
fn a_keepalive_is_read() {
    assert_eq!(decode_frame(&control("session_keepalive", "{}")), Ok(Frame::Keepalive));
}

#[test]
fn a_reconnect_names_the_new_endpoint() {
    let text = control(
        "session_reconnect",
        r#"{"session":{"id":"sess-43","status":"reconnecting","connected_at":"2025-03-13T20:00:00Z","keepalive_timeout_seconds":null,"reconnect_url":"wss://example.test/ws?x=1"}}"#,
    );
    assert_eq!(
        decode_frame(&text),
        Ok(Frame::Reconnect {
            session_id: "sess-43".to_string(),
            reconnect_url: Some("wss://example.test/ws?x=1".to_string()),
        })
    );
}

#[test]
fn a_reconnect_may_name_no_endpoint() {
    let text = control(
        "session_reconnect",
        r#"{"session":{"id":"sess-44","status":"reconnecting","connected_at":"2025-03-13T20:00:00Z","keepalive_timeout_seconds":null,"reconnect_url":null}}"#,
    );
    assert_eq!(
        decode_frame(&text),
        Ok(Frame::Reconnect { session_id: "sess-44".to_string(), reconnect_url: None })
    );
}

#[test]
fn a_revocation_names_the_subscription() {
    let text = r#"{"metadata":{"message_id":"m-3","message_type":"revocation","message_timestamp":"2025-03-13T20:00:00Z","subscription_type":"stream.online","subscription_version":"1"},"payload":{"subscription":{"id":"s-1","status":"authorization_revoked","type":"stream.online","version":"1","cost":0,"condition":{"broadcaster_user_id":"4242"},"transport":{"method":"websocket","session_id":"sess"},"created_at":"2025-03-13T19:00:00Z"}}}"#;
    assert_eq!(
        decode_frame(text),
        Ok(Frame::Revocation { subscription_type: "stream.online".to_string() })
    );
}

#[test]
fn a_stream_online_notification_is_read() {
    let text = notification(
        "stream.online",
        "1",
        r#"{"broadcaster_user_id":"4242"}"#,
        r#"{"id":"555","broadcaster_user_id":"4242","broadcaster_user_login":"some_channel","broadcaster_user_name":"Some_Channel","type":"live","started_at":"2025-03-13T20:04:58Z"}"#,
    );
    assert_eq!(
        decode_frame(&text),
        Ok(Frame::Notification {
            timestamp: "2025-03-13T20:05:00.25Z".to_string(),
            event: Notification::StreamOnline {
                payload: StreamOnline {
                    broadcaster_user_id: "4242".to_string(),
                    broadcaster_user_login: "some_channel".to_string(),
                    started_at: "2025-03-13T20:04:58Z".to_string(),
                },
            },
        })
    );
}

#[test]
fn a_stream_offline_notification_is_read() {
    let text = notification(
        "stream.offline",
        "1",
        r#"{"broadcaster_user_id":"4242"}"#,
        r#"{"broadcaster_user_id":"4242","broadcaster_user_login":"some_channel","broadcaster_user_name":"Some_Channel"}"#,
    );
    assert_eq!(
        decode_frame(&text),
        Ok(Frame::Notification {
            timestamp: "2025-03-13T20:05:00.25Z".to_string(),
            event: Notification::StreamOffline {
                payload: StreamOffline {
                    broadcaster_user_id: "4242".to_string(),
                    broadcaster_user_login: "some_channel".to_string(),
                },
            },
        })
    );
}

#[test]
fn a_chat_message_notification_is_read() {
    let text = notification(
        "channel.chat.message",
        "1",
        r#"{"broadcaster_user_id":"4242","user_id":"77"}"#,
        r##"{"broadcaster_user_id":"4242","broadcaster_user_login":"some_channel","broadcaster_user_name":"Some_Channel","chatter_user_id":"9001","chatter_user_login":"a_viewer","chatter_user_name":"A_Viewer","message_id":"0a1b2c3d-0000-4000-8000-00000000abcd","message":{"text":"+2 well played","fragments":[{"type":"text","text":"+2 well played","cheermote":null,"emote":null,"mention":null}]},"color":"#112233","badges":[],"message_type":"text","cheer":null,"reply":null,"channel_points_custom_reward_id":null,"source_broadcaster_user_id":null,"source_broadcaster_user_login":null,"source_broadcaster_user_name":null,"source_message_id":null,"source_badges":null}"##,
    );
    assert_eq!(
        decode_frame(&text),
        Ok(Frame::Notification {
            timestamp: "2025-03-13T20:05:00.25Z".to_string(),
            event: Notification::ChatMessage {
                payload: ChatMessage {
                    broadcaster_user_id: "4242".to_string(),
                    broadcaster_user_login: "some_channel".to_string(),
                    chatter_user_id: "9001".to_string(),
                    chatter_user_name: "A_Viewer".to_string(),
                    message_id: "0a1b2c3d-0000-4000-8000-00000000abcd".to_string(),
                    text: "+2 well played".to_string(),
                },
            },
        })
    );
}

#[test]
fn a_notification_of_another_kind_is_read_as_other() {
    let text = notification(
        "channel.follow",
        "2",
        r#"{"broadcaster_user_id":"4242","moderator_user_id":"4242"}"#,
        r#"{"user_id":"9001","user_login":"a_viewer","user_name":"A_Viewer","broadcaster_user_id":"4242","broadcaster_user_login":"some_channel","broadcaster_user_name":"Some_Channel","followed_at":"2025-03-13T20:04:58Z"}"#,
    );
    assert_eq!(
        decode_frame(&text),
        Ok(Frame::Notification {
            timestamp: "2025-03-13T20:05:00.25Z".to_string(),
            event: Notification::Other,
        })
    );
}

#[test]
fn a_notification_in_a_version_that_is_not_known_is_passed_over() {
    let text = notification(
        "stream.online",
        "9",
        r#"{"broadcaster_user_id":"4242"}"#,
        r#"{"id":"555","broadcaster_user_id":"4242"}"#,
    );
    assert_eq!(decode_frame(&text), Ok(Frame::Other));
}

#[test]
fn what_is_no_frame_is_unparseable() {
    assert_eq!(decode_frame(""), Err(Unparseable));
    assert_eq!(decode_frame("hello"), Err(Unparseable));
    assert_eq!(decode_frame("{}"), Err(Unparseable));
    assert_eq!(
        decode_frame(&control("session_welcome", r#"{"session":{"status":"connected"}}"#)),
        Err(Unparseable)
    );
}

#[test]
fn the_first_kind_found_in_a_notification_is_taken() {
    let online = || StreamOnline {
        broadcaster_user_id: "1".to_string(),
        broadcaster_user_login: "one".to_string(),
        started_at: "t".to_string(),
    };
    let offline = || StreamOffline {
        broadcaster_user_id: "1".to_string(),
        broadcaster_user_login: "one".to_string(),
    };
    let chat = || ChatMessage {
        broadcaster_user_id: "1".to_string(),
        broadcaster_user_login: "one".to_string(),
        chatter_user_id: "2".to_string(),
        chatter_user_name: "Two".to_string(),
        message_id: "m".to_string(),
        text: "+2".to_string(),
    };
    assert_eq!(
        notification_from(Some(chat()), Some(online()), Some(offline())),
        Notification::ChatMessage { payload: chat() }
    );
    assert_eq!(
        notification_from(None, Some(online()), Some(offline())),
        Notification::StreamOnline { payload: online() }
    );
    assert_eq!(
        notification_from(None, None, Some(offline())),
        Notification::StreamOffline { payload: offline() }
    );
    assert_eq!(notification_from(None, None, None), Notification::Other);
}

#[test]
fn a_frame_is_made_of_its_outline_and_of_what_a_notification_tells() {
    let told = || Notification::StreamOffline {
        payload: StreamOffline {
            broadcaster_user_id: "1".to_string(),
            broadcaster_user_login: "one".to_string(),
        },
    };
    assert_eq!(frame_from(Outline::Unparseable, told()), Err(Unparseable));
    assert_eq!(frame_from(Outline::Unimplemented, told()), Ok(Frame::Other));
    assert_eq!(frame_from(Outline::Other, told()), Ok(Frame::Other));
    assert_eq!(frame_from(Outline::Keepalive, told()), Ok(Frame::Keepalive));
    assert_eq!(
        frame_from(Outline::Welcome { session_id: "s".to_string() }, told()),
        Ok(Frame::Welcome { session_id: "s".to_string() })
    );
    assert_eq!(
        frame_from(
            Outline::Reconnect { session_id: "s".to_string(), reconnect_url: None },
            told()
        ),
        Ok(Frame::Reconnect { session_id: "s".to_string(), reconnect_url: None })
    );
    assert_eq!(
        frame_from(Outline::Revocation { subscription_type: "k".to_string() }, told()),
        Ok(Frame::Revocation { subscription_type: "k".to_string() })
    );
    assert_eq!(
        frame_from(Outline::Notification { timestamp: "t".to_string() }, told()),
        Ok(Frame::Notification { timestamp: "t".to_string(), event: told() })
    );
}
