use plustwo::archiver::{archive_video, is_archived, is_live_video};
use plustwo::classify::MessageKind;
use plustwo::database::{DatabaseClient, Write};
use plustwo::entities::{broadcasters, broadcasts, chatters, messages};
use plustwo::error::ArchiveError;
use plustwo::events::SubscriptionKind;
use plustwo::gql::{
    CommentsByVideoAndCursorComment, CommentsByVideoAndCursorFragment,
    CommentsByVideoAndCursorMessage, CommentsByVideoAndCursorUser, UserAndStreamByLoginStream,
};
use plustwo::onboarding::{Onboarding, Report, Request, Step};
use plustwo::shared::TwitchVideo;
use plustwo::state::State;
use plustwo::time::Timestamp;

fn model() -> broadcasters::Model {
    broadcasters::Model { id: 12, display_name: "some_channel".to_string(), profile_image_url: None }
}

fn video(id: &str, length_seconds: u64) -> TwitchVideo {
    TwitchVideo {
        created_at: Timestamp { secs: 900, nanos: 5 },
        id: id.to_string(),
        title: "title".to_string(),
        length_seconds,
    }
}

fn stream(video_id: &str) -> UserAndStreamByLoginStream {
    UserAndStreamByLoginStream { id: "stream".to_string(), archive_video: video(video_id, 0) }
}

fn comment(id: u128, author: &str, text: &str) -> CommentsByVideoAndCursorComment {
    CommentsByVideoAndCursorComment {
        commenter: Some(CommentsByVideoAndCursorUser {
            display_name: "Viewer".to_string(),
            id: author.to_string(),
        }),
        created_at: Timestamp { secs: 950, nanos: 0 },
        id,
        message: CommentsByVideoAndCursorMessage {
            fragments: vec![CommentsByVideoAndCursorFragment { text: text.to_string() }],
        },
    }
}

fn vote(id: u128) -> messages::Model {
    messages::Model {
        id,
        broadcast_id: 555,
        chatter_id: 9001,
        sent_at: Timestamp { secs: 950, nanos: 0 },
        message_kind: MessageKind::PlusTwo,
    }
}

fn kinds(request: &Request) -> Vec<SubscriptionKind> {
    match request {
        Request::Subscribe { requests } => requests.iter().map(|r| r.kind).collect(),
        other => panic!("no subscriptions: {:?}", other),
    }
}

#[test]
fn taking_under_watch_begins_by_asking_whether_the_channel_is_live() {
    let (onboarding, request) = Onboarding::begin(model());
    assert_eq!(request, Request::QueryStatus { login: "some_channel".to_string() });
    assert_eq!(onboarding.step(), Step::Status);
    assert!(!onboarding.broadcaster().is_watching);
    assert_eq!(onboarding.broadcaster().current_broadcast, None);
}

#[test]
fn an_offline_channel_goes_straight_to_its_subscriptions() {
    let (mut onboarding, _) = Onboarding::begin(model());
    let request = onboarding.advance(Report::Status { stream: None }, "sess", "77");
    assert_eq!(
        kinds(&request),
        vec![
            SubscriptionKind::StreamOnline,
            SubscriptionKind::StreamOffline,
            SubscriptionKind::ChannelChatMessage,
        ]
    );
    assert_eq!(onboarding.step(), Step::Subscribing);
    assert_eq!(
        onboarding.advance(Report::Subscribed { confirmed: 3 }, "sess", "77"),
        Request::Finished
    );
    assert_eq!(onboarding.step(), Step::Watched);
    let mut state = State::new("77".to_string(), 0);
    assert!(state.onboard(onboarding.into_broadcaster()));
    assert!(state.broadcasters()[&12].is_watching);
}

#[test]
fn a_live_channel_is_caught_up_on_before_it_is_subscribed_to() {
    let mut db = DatabaseClient::new();
    let (mut onboarding, _) = Onboarding::begin(model());

    let request = onboarding.advance(Report::Status { stream: Some(stream("555")) }, "sess", "77");
    assert_eq!(onboarding.step(), Step::Opening);
    match request {
        Request::Store { writes } => {
            assert_eq!(
                writes,
                vec![Write::StartBroadcast {
                    broadcast_id: 555,
                    broadcaster_id: 12,
                    title: "title".to_string(),
                    started_at: Timestamp { secs: 900, nanos: 5 },
                }]
            );
            db.apply_all(writes).unwrap();
        }
        other => panic!("{:?}", other),
    }

    assert_eq!(
        onboarding.advance(Report::Stored, "sess", "77"),
        Request::FetchComments { video_id: "555".to_string() }
    );
    assert_eq!(onboarding.step(), Step::Fetching);

    let comments = vec![comment(1, "9001", "+2"), comment(2, "9001", "hm"), comment(3, "9001", "+2")];
    match onboarding.advance(Report::Comments { comments }, "sess", "77") {
        Request::Store { writes } => {
            assert_eq!(
                writes,
                vec![
                    Write::InsertManyChatters {
                        rows: vec![chatters::Model { id: 9001, display_name: "Viewer".to_string() }],
                    },
                    Write::InsertManyMessages { rows: vec![vote(1), vote(3)] },
                ]
            );
            db.apply_all(writes).unwrap();
        }
        other => panic!("{:?}", other),
    }
    assert_eq!(onboarding.step(), Step::Storing);
    assert!(!onboarding.broadcaster().is_watching);

    let request = onboarding.advance(Report::Stored, "sess", "77");
    assert_eq!(kinds(&request).len(), 3);
    assert_eq!(onboarding.step(), Step::Subscribing);
    assert!(!onboarding.broadcaster().is_watching);

    assert_eq!(
        onboarding.advance(Report::Subscribed { confirmed: 3 }, "sess", "77"),
        Request::Finished
    );
    assert!(onboarding.broadcaster().is_watching);
    assert_eq!(onboarding.broadcaster().current_broadcast, Some(stream("555")));
    assert_eq!(db.messages(), &vec![vote(1), vote(3)]);
    assert_eq!(db.get_broadcast(555).unwrap().ended_at, None);
    assert_eq!(onboarding.advance(Report::Stored, "sess", "77"), Request::Finished);
    assert_eq!(onboarding.step(), Step::Watched);
}

#[test]
fn a_subscription_that_fails_gives_the_channel_up_for_now() {
    for confirmed in 0..3 {
        let (mut onboarding, _) = Onboarding::begin(model());
        onboarding.advance(Report::Status { stream: None }, "sess", "77");
        assert_eq!(
            onboarding.advance(Report::Subscribed { confirmed }, "sess", "77"),
            Request::GiveUp { fault: None }
        );
        assert_eq!(onboarding.step(), Step::Aborted);
        let mut state = State::new("77".to_string(), 0);
        assert!(!state.onboard(onboarding.into_broadcaster()));
        assert_eq!(state.update_broadcasters(1, vec![model()]), vec![model()]);
    }
}

#[test]
fn a_failure_on_the_way_gives_the_channel_up_for_now() {
    let (mut onboarding, _) = Onboarding::begin(model());
    assert_eq!(onboarding.advance(Report::Failed, "s", "77"), Request::GiveUp { fault: None });
    assert_eq!(onboarding.step(), Step::Aborted);
    assert_eq!(
        onboarding.advance(Report::Status { stream: None }, "s", "77"),
        Request::GiveUp { fault: None }
    );
    assert_eq!(onboarding.step(), Step::Aborted);

    let (mut onboarding, _) = Onboarding::begin(model());
    onboarding.advance(Report::Status { stream: Some(stream("555")) }, "s", "77");
    onboarding.advance(Report::Stored, "s", "77");
    assert_eq!(onboarding.advance(Report::Failed, "s", "77"), Request::GiveUp { fault: None });
    assert!(!onboarding.broadcaster().is_watching);
}

#[test]
fn a_fault_in_the_data_gives_the_channel_up_with_the_fault() {
    let (mut onboarding, _) = Onboarding::begin(model());
    assert_eq!(
        onboarding.advance(Report::Status { stream: Some(stream("v555")) }, "s", "77"),
        Request::GiveUp { fault: Some(ArchiveError::BadBroadcastId) }
    );
    let (mut onboarding, _) = Onboarding::begin(model());
    onboarding.advance(Report::Status { stream: Some(stream("555")) }, "s", "77");
    onboarding.advance(Report::Stored, "s", "77");
    assert_eq!(
        onboarding.advance(Report::Comments { comments: vec![comment(1, "?", "+2")] }, "s", "77"),
        Request::GiveUp { fault: Some(ArchiveError::BadChatterId) }
    );
    assert_eq!(onboarding.step(), Step::Aborted);
}

#[test]
fn a_report_that_answers_nothing_asked_gives_the_channel_up() {
    let (mut onboarding, _) = Onboarding::begin(model());
    assert_eq!(
        onboarding.advance(Report::Subscribed { confirmed: 3 }, "s", "77"),
        Request::GiveUp { fault: None }
    );
    assert!(!onboarding.broadcaster().is_watching);
    let (mut onboarding, _) = Onboarding::begin(model());
    onboarding.advance(Report::Status { stream: Some(stream("555")) }, "s", "77");
    assert_eq!(
        onboarding.advance(Report::Comments { comments: vec![] }, "s", "77"),
        Request::GiveUp { fault: None }
    );
}

#[test]
fn a_video_is_archived_from_its_start_to_the_end_that_its_length_gives() {
    let writes =
        archive_video(12, &video("555", 3600), vec![comment(1, "9001", "+2"), comment(2, "9", "x")])
            .unwrap();
    assert_eq!(
        writes,
        vec![
            Write::StartBroadcast {
                broadcast_id: 555,
                broadcaster_id: 12,
                title: "title".to_string(),
                started_at: Timestamp { secs: 900, nanos: 5 },
            },
            Write::InsertManyChatters {
                rows: vec![chatters::Model { id: 9001, display_name: "Viewer".to_string() }],
            },
            Write::InsertManyMessages { rows: vec![vote(1)] },
            Write::EndBroadcast {
                broadcaster_id: 12,
                ended_at: Timestamp { secs: 4500, nanos: 5 },
                broadcast_id: Some(555),
            },
        ]
    );
    let mut db = DatabaseClient::new();
    assert_eq!(db.apply_all(writes), Ok(()));
    assert!(is_archived(db.get_broadcast(555)));
}

#[test]
fn a_video_that_cannot_be_read_is_not_archived() {
    assert_eq!(archive_video(12, &video("x", 1), vec![]), Err(ArchiveError::BadBroadcastId));
    assert_eq!(
        archive_video(12, &video("555", 1), vec![comment(1, "x", "-2")]),
        Err(ArchiveError::BadChatterId)
    );
    assert_eq!(
        archive_video(12, &video("555", u64::MAX), vec![]),
        Err(ArchiveError::EndOutOfRange)
    );
}

#[test]
fn the_video_in_progress_and_the_videos_with_an_end_are_left_alone() {
    let live = "555".to_string();
    assert!(is_live_video(&"555".to_string(), Some(&live)));
    assert!(!is_live_video(&"556".to_string(), Some(&live)));
    assert!(!is_live_video(&"555".to_string(), None));
    let open = broadcasts::Model {
        id: 555,
        broadcaster_id: 12,
        title: "t".to_string(),
        started_at: Timestamp { secs: 1, nanos: 0 },
        ended_at: None,
    };
    let ended = broadcasts::Model { ended_at: Some(Timestamp { secs: 2, nanos: 0 }), ..open.clone() };
    assert!(!is_archived(None));
    assert!(!is_archived(Some(&open)));
    assert!(is_archived(Some(&ended)));
}
