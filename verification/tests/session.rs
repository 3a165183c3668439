use plustwo::broadcaster::WatchedBroadcaster;
use plustwo::classify::MessageKind;
use plustwo::database::{DatabaseClient, Write};
use plustwo::entities::{broadcasters, messages};
use plustwo::error::ArchiveError;
use plustwo::events::{ChatMessage, StreamOffline, StreamOnline};
use plustwo::gql::UserAndStreamByLoginStream;
use plustwo::session::{handle_frame, Action, Fatal, Frame, Notification};
use plustwo::shared::TwitchVideo;
use plustwo::socket::{EventSubSocket, Phase, SocketAction, SocketEvent, SocketFault};
use plustwo::state::State;
use plustwo::time::Timestamp;
use plustwo::watcher::on_stream_online;

const DEFAULT: &str = "wss://feed.test/ws";

fn stream(video_id: &str) -> UserAndStreamByLoginStream {
    UserAndStreamByLoginStream {
        id: "stream".to_string(),
        archive_video: TwitchVideo {
            created_at: Timestamp { secs: 900, nanos: 0 },
            id: video_id.to_string(),
            title: "title".to_string(),
            length_seconds: 0,
        },
    }
}

fn watching(id: i64, current: Option<UserAndStreamByLoginStream>) -> State {
    let mut state = State::new("77".to_string(), 0);
    state.onboard(WatchedBroadcaster {
        broadcaster: broadcasters::Model {
            id,
            display_name: "name".to_string(),
            profile_image_url: None,
        },
        current_broadcast: current,
        is_watching: true,
    });
    state
}

fn notification(event: Notification) -> Frame {
    Frame::Notification { timestamp: "2025-03-13T20:00:00Z".to_string(), event }
}

fn chat(text: &str, message_id: u8) -> Notification {
    Notification::ChatMessage {
        payload: ChatMessage {
            broadcaster_user_id: "12".to_string(),
            broadcaster_user_login: "login".to_string(),
            chatter_user_id: "9001".to_string(),
            chatter_user_name: "Chatter".to_string(),
            message_id: format!("00000000-0000-0000-0000-0000000000{:02x}", message_id),
            text: text.to_string(),
        },
    }
}

#[test]
fn a_welcome_stores_the_session_and_asks_for_a_refresh() {
    let mut socket = EventSubSocket::connect(DEFAULT);
    let mut state = State::new("77".to_string(), 0);
    assert_eq!(socket.phase, Phase::Connecting);
    let action = handle_frame(
        Frame::Welcome { session_id: "sess-1".to_string() },
        DEFAULT,
        &mut socket,
        &mut state,
    );
    assert_eq!(action, Ok(Action::Refresh));
    assert_eq!(state.session_id(), "sess-1");
    assert_eq!(socket.phase, Phase::Active);
}

#[test]
fn a_keepalive_and_an_unknown_frame_change_nothing() {
    let mut socket = EventSubSocket::connect(DEFAULT);
    let mut state = watching(12, Some(stream("555")));
    handle_frame(Frame::Welcome { session_id: "s".to_string() }, DEFAULT, &mut socket, &mut state)
        .unwrap();
    for frame in [Frame::Keepalive, Frame::Other, notification(Notification::Other)] {
        assert_eq!(handle_frame(frame, DEFAULT, &mut socket, &mut state), Ok(Action::Idle));
        assert_eq!(socket.phase, Phase::Active);
        assert_eq!(state.session_id(), "s");
        assert_eq!(state.broadcasters()[&12].current_broadcast, Some(stream("555")));
    }
}

#[test]
fn a_reconnect_goes_to_the_endpoint_named_or_to_the_usual_one() {
    let mut socket = EventSubSocket::connect(DEFAULT);
    let mut state = State::new("77".to_string(), 0);
    let named = Frame::Reconnect {
        session_id: "sess-2".to_string(),
        reconnect_url: Some("wss://other.test/ws".to_string()),
    };
    assert_eq!(
        handle_frame(named, DEFAULT, &mut socket, &mut state),
        Ok(Action::Connect { url: "wss://other.test/ws".to_string() })
    );
    assert_eq!(state.session_id(), "sess-2");
    assert_eq!(socket.phase, Phase::Reconnecting);
    let unnamed = Frame::Reconnect { session_id: "sess-3".to_string(), reconnect_url: None };
    assert_eq!(
        handle_frame(unnamed, DEFAULT, &mut socket, &mut state),
        Ok(Action::Connect { url: DEFAULT.to_string() })
    );
    assert_eq!(state.session_id(), "sess-3");
}

#[test]
fn a_revocation_ends_the_session_with_its_reason() {
    let mut socket = EventSubSocket::connect(DEFAULT);
    let mut state = watching(12, None);
    let action = handle_frame(
        Frame::Revocation { subscription_type: "channel.chat.message".to_string() },
        DEFAULT,
        &mut socket,
        &mut state,
    );
    assert_eq!(
        action,
        Err(Fatal::Revoked { subscription_type: "channel.chat.message".to_string() })
    );
    assert_eq!(socket.phase, Phase::Terminated);
}

#[test]
fn going_live_asks_for_the_stream_of_a_watched_channel_only() {
    let mut socket = EventSubSocket::connect(DEFAULT);
    let mut state = watching(12, None);
    let online = |id: &str| StreamOnline {
        broadcaster_user_id: id.to_string(),
        broadcaster_user_login: "login".to_string(),
        started_at: "2025-03-13T20:00:00Z".to_string(),
    };
    assert_eq!(
        handle_frame(
            notification(Notification::StreamOnline { payload: online("12") }),
            DEFAULT,
            &mut socket,
            &mut state
        ),
        Ok(Action::QueryStream { payload: online("12") })
    );
    assert_eq!(
        handle_frame(
            notification(Notification::StreamOnline { payload: online("13") }),
            DEFAULT,
            &mut socket,
            &mut state
        ),
        Ok(Action::Idle)
    );
    assert_eq!(socket.phase, Phase::Connecting);
    assert_eq!(
        handle_frame(
            notification(Notification::StreamOnline { payload: online("?") }),
            DEFAULT,
            &mut socket,
            &mut state
        ),
        Err(Fatal::Fault { fault: ArchiveError::BadBroadcasterId })
    );
    assert_eq!(socket.phase, Phase::Terminated);
}

#[test]
fn a_session_archives_a_broadcast_from_start_to_end() {
    let mut db = DatabaseClient::new();
    let mut socket = EventSubSocket::connect(DEFAULT);
    let mut state = watching(12, None);
    let mut store = |action: Result<Action, Fatal>, db: &mut DatabaseClient| match action {
        Ok(Action::Store { writes }) => db.apply_all(writes).unwrap(),
        other => panic!("no writes: {:?}", other),
    };

    let before = handle_frame(notification(chat("+2 early", 1)), DEFAULT, &mut socket, &mut state);
    store(before, &mut db);
    assert!(db.messages().is_empty());

    let online = StreamOnline {
        broadcaster_user_id: "12".to_string(),
        broadcaster_user_login: "login".to_string(),
        started_at: "2025-03-13T19:59:00Z".to_string(),
    };
    let write = on_stream_online(&online, &mut state, Some(stream("555"))).unwrap().unwrap();
    db.apply(write).unwrap();

    for (text, id) in [("+2 nice", 2), ("hello", 3), ("-2", 4), ("again +2", 2)] {
        let action = handle_frame(notification(chat(text, id)), DEFAULT, &mut socket, &mut state);
        store(action, &mut db);
    }
    let offline = Notification::StreamOffline {
        payload: StreamOffline {
            broadcaster_user_id: "12".to_string(),
            broadcaster_user_login: "login".to_string(),
        },
    };
    let action = handle_frame(notification(offline), DEFAULT, &mut socket, &mut state);
    store(action, &mut db);

    let sent_at = Timestamp { secs: 1741896000, nanos: 0 };
    assert_eq!(
        db.messages(),
        &vec![
            messages::Model {
                id: 2,
                broadcast_id: 555,
                chatter_id: 9001,
                sent_at,
                message_kind: MessageKind::PlusTwo,
            },
            messages::Model {
                id: 4,
                broadcast_id: 555,
                chatter_id: 9001,
                sent_at,
                message_kind: MessageKind::MinusTwo,
            },
        ]
    );
    assert_eq!(db.chatters().len(), 1);
    let broadcast = db.get_broadcast(555).unwrap();
    assert_eq!(broadcast.started_at, Timestamp { secs: 1741895940, nanos: 0 });
    assert_eq!(broadcast.ended_at, Some(sent_at));
    assert_eq!(state.broadcasters()[&12].current_broadcast, None);

    let after = handle_frame(notification(chat("+2 late", 5)), DEFAULT, &mut socket, &mut state);
    assert_eq!(after, Ok(Action::Store { writes: vec![] }));
}

#[test]
fn going_offline_without_a_known_broadcast_names_none() {
    let mut socket = EventSubSocket::connect(DEFAULT);
    let mut state = watching(12, None);
    let offline = Notification::StreamOffline {
        payload: StreamOffline {
            broadcaster_user_id: "12".to_string(),
            broadcaster_user_login: "login".to_string(),
        },
    };
    assert_eq!(
        handle_frame(notification(offline), DEFAULT, &mut socket, &mut state),
        Ok(Action::Store {
            writes: vec![Write::EndBroadcast {
                broadcaster_id: 12,
                ended_at: Timestamp { secs: 1741896000, nanos: 0 },
                broadcast_id: None,
            }],
        })
    );
}

#[test]
fn a_text_is_handed_on_and_other_messages_are_waited_out() {
    let mut socket = EventSubSocket::connect(DEFAULT);
    assert_eq!(socket.url, DEFAULT);
    assert_eq!(socket.next_message(SocketEvent::Other), SocketAction::Wait);
    assert_eq!(
        socket.next_message(SocketEvent::Text { text: "frame".to_string() }),
        SocketAction::Deliver { text: "frame".to_string() }
    );
    assert_eq!(socket.phase, Phase::Connecting);
}

#[test]
fn a_reset_by_the_peer_is_answered_by_a_new_channel_to_the_same_endpoint() {
    let mut socket = EventSubSocket::connect("wss://somewhere.test/ws");
    let mut state = State::new("77".to_string(), 0);
    handle_frame(Frame::Welcome { session_id: "s".to_string() }, DEFAULT, &mut socket, &mut state)
        .unwrap();
    let action = socket.next_message(SocketEvent::Reset);
    assert_eq!(action, SocketAction::Reconnect { url: "wss://somewhere.test/ws".to_string() });
    assert_eq!(socket.phase, Phase::Reconnecting);
    let mut socket = match action {
        SocketAction::Reconnect { url } => EventSubSocket::connect(&url),
        _ => unreachable!(),
    };
    assert_eq!(
        socket.next_message(SocketEvent::Text { text: "next".to_string() }),
        SocketAction::Deliver { text: "next".to_string() }
    );
    assert_ne!(socket.phase, Phase::Terminated);
}

#[test]
fn any_other_fault_of_the_channel_ends_the_session() {
    let mut socket = EventSubSocket::connect(DEFAULT);
    assert_eq!(
        socket.next_message(SocketEvent::Failed),
        SocketAction::Fail { fault: SocketFault::ChannelFailed }
    );
    assert_eq!(socket.phase, Phase::Terminated);
    let mut socket = EventSubSocket::connect(DEFAULT);
    assert_eq!(
        socket.next_message(SocketEvent::Closed),
        SocketAction::Fail { fault: SocketFault::EndedWithoutText }
    );
    assert_eq!(socket.phase, Phase::Terminated);
}
