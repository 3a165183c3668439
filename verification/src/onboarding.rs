//! Taking a channel under watch, step by step.
//!
//! A channel that is found live is caught up on before anything is
//! subscribed to, and it counts as watched only when every subscription is
//! confirmed. Whatever fails on the way gives the channel up for now, to be
//! tried again at the next look at the list of broadcasters.

use vstd::prelude::*;
use crate::broadcaster::{WatchedBroadcaster, SUBSCRIPTIONS_PER_BROADCASTER};
use crate::catchup::{any_unattributable, staged_chatters, staged_messages};
use crate::database::Write;
use crate::entities::broadcasters;
use crate::error::ArchiveError;
use crate::events::{Subscription, SubscriptionKind};
use crate::gql::{CommentsByVideoAndCursorComment, UserAndStreamByLoginStream};
use crate::ids::number_of;

verus! {

/// How far the taking of a channel under watch has come.
#[derive(Clone, Copy, Debug, PartialEq, Eq, Structural)]
pub enum Step {
    /// The archive is asked whether the channel is live.
    Status,
    /// The broadcast in progress is being opened in the archive.
    Opening,
    /// The comments of the broadcast in progress are being fetched.
    Fetching,
    /// The votes among the comments are being stored.
    Storing,
    /// The subscriptions are being issued.
    Subscribing,
    /// The channel is watched.
    Watched,
    /// The channel was given up for now.
    Aborted,
}

/// What the caller reports back.
#[derive(Debug, PartialEq, Eq)]
pub enum Report {
    /// The archive's answer on the channel: its stream, if it is live.
    Status { stream: Option<UserAndStreamByLoginStream> },
    /// The writes that were asked for have been made.
    Stored,
    /// The comments that were asked for, in the archive's order.
    Comments { comments: Vec<CommentsByVideoAndCursorComment> },
    /// The subscriptions were issued in order, and the first `confirmed`
    /// of them were confirmed.
    Subscribed { confirmed: usize },
    /// What was asked for has failed.
    Failed,
}

/// What the caller is asked to do next.
#[derive(Debug, PartialEq, Eq)]
pub enum Request {
    /// Ask the archive whether the channel `login` is live.
    QueryStatus { login: String },
    /// Make these writes to the archive, in order.
    Store { writes: Vec<Write> },
    /// Fetch the comments of the archive video `video_id`, to the last.
    FetchComments { video_id: String },
    /// Issue these subscriptions, in order, up to the first that fails.
    Subscribe { requests: Vec<Subscription> },
    /// Nothing more: the channel is watched.
    Finished,
    /// Nothing more: the channel is given up for now, with the fault that
    /// was met, if it was one of the data.
    GiveUp { fault: Option<ArchiveError> },
}

/// A channel on its way under watch.
#[derive(Debug)]
pub struct Onboarding {
    broadcaster: WatchedBroadcaster,
    step: Step,
}

/// A channel on its way under watch, as plain values.
pub struct OnboardingModel {
    /// The channel, with the stream that the archive reported of it.
    pub broadcaster: WatchedBroadcaster,
    /// How far the taking under watch has come.
    pub step: Step,
}

impl View for Onboarding {
    type V = OnboardingModel;

    closed spec fn view(&self) -> OnboardingModel {
        OnboardingModel { broadcaster: self.broadcaster, step: self.step }
    }
}

/// Whether `requests` are the subscriptions that watching the channel
/// `broadcaster_id` takes, in their order.
pub open spec fn subscribes_to(
    requests: Seq<Subscription>,
    broadcaster_id: i64,
    session_id: Seq<char>,
    watcher_id: Seq<char>,
) -> bool {
    &&& requests.len() == SUBSCRIPTIONS_PER_BROADCASTER
    &&& requests[0].asks(SubscriptionKind::StreamOnline, broadcaster_id, session_id, watcher_id)
    &&& requests[1].asks(SubscriptionKind::StreamOffline, broadcaster_id, session_id, watcher_id)
    &&& requests[2].asks(
        SubscriptionKind::ChannelChatMessage,
        broadcaster_id,
        session_id,
        watcher_id,
    )
}

impl OnboardingModel {
    /// The step that follows `self.step` on `report`.
    pub open spec fn next_step(&self, report: Report) -> Step {
        match (self.step, report) {
            (Step::Status, Report::Status { stream: None }) => Step::Subscribing,
            (Step::Status, Report::Status { stream: Some(live) }) => if number_of(
                live.archive_video.id@,
            ) is Some {
                Step::Opening
            } else {
                Step::Aborted
            },
            (Step::Opening, Report::Stored) => Step::Fetching,
            (Step::Fetching, Report::Comments { comments }) => if any_unattributable(comments@) {
                Step::Aborted
            } else {
                Step::Storing
            },
            (Step::Storing, Report::Stored) => Step::Subscribing,
            (Step::Subscribing, Report::Subscribed { confirmed }) => if confirmed
                >= SUBSCRIPTIONS_PER_BROADCASTER {
                Step::Watched
            } else {
                Step::Aborted
            },
            (Step::Watched, _) => Step::Watched,
            _ => Step::Aborted,
        }
    }

    /// Whether the channel is consistent with the step: it is watched
    /// exactly when the last step is done, and a stream is known with a
    /// readable identity while it is caught up on.
    pub open spec fn well_formed(&self) -> bool {
        &&& self.broadcaster.is_watching == (self.step == Step::Watched)
        &&& (self.step == Step::Opening || self.step == Step::Fetching || self.step
            == Step::Storing) ==> self.broadcaster.broadcast_id() is Some
        &&& self.step == Step::Status ==> self.broadcaster.current_broadcast is None
    }

}

impl Onboarding {
    /// Whether the channel is consistent with the step.
    pub open spec fn well_formed(&self) -> bool {
        self@.well_formed()
    }

    /// How far the taking under watch has come.
    pub fn step(&self) -> (step: Step)
        ensures
            step == self@.step,
    {
        self.step
    }

    /// The channel, with the stream that the archive reported of it.
    pub fn broadcaster(&self) -> (broadcaster: &WatchedBroadcaster)
        ensures
            *broadcaster == self@.broadcaster,
    {
        &self.broadcaster
    }

    /// Begins to take `broadcaster` under watch: the first thing to ask is
    /// whether the channel is live.
    pub fn begin(broadcaster: broadcasters::Model) -> (begun: (Onboarding, Request))
        ensures
            begun.0.well_formed(),
            begun.0@.step == Step::Status,
            begun.0@.broadcaster.broadcaster == broadcaster,
            begun.1 matches Request::QueryStatus { login } && login == broadcaster.display_name,
    {
        let login = broadcaster.display_name.clone();
        (
            Onboarding {
                broadcaster: WatchedBroadcaster {
                    broadcaster,
                    current_broadcast: None,
                    is_watching: false,
                },
                step: Step::Status,
            },
            Request::QueryStatus { login },
        )
    }

    /// The subscriptions of the channel, asked for through `session_id`.
    fn subscribe(&mut self, session_id: &str, watcher_id: &str) -> (request: Request)
        requires
            !old(self)@.broadcaster.is_watching,
        ensures
            final(self)@.broadcaster == old(self)@.broadcaster,
            final(self)@.step == Step::Subscribing,
            request matches Request::Subscribe { requests } && subscribes_to(
                requests@,
                old(self)@.broadcaster.broadcaster.id,
                session_id@,
                watcher_id@,
            ),
    {
        self.step = Step::Subscribing;
        Request::Subscribe { requests: self.broadcaster.watch(session_id, watcher_id) }
    }

    /// Gives the channel up for now.
    fn abort(&mut self, fault: Option<ArchiveError>) -> (request: Request)
        requires
            !old(self)@.broadcaster.is_watching,
        ensures
            final(self)@.broadcaster == old(self)@.broadcaster,
            final(self)@.step == Step::Aborted,
            request == (Request::GiveUp { fault }),
    {
        self.step = Step::Aborted;
        Request::GiveUp { fault }
    }

    /// Takes what the caller reports and says what to do next.
    ///
    /// A channel that is offline goes straight to its subscriptions. One
    /// that is live is caught up on first: its broadcast is opened, its
    /// comments are fetched, and the votes among them are stored; only
    /// then is it subscribed to. It is watched once all its subscriptions
    /// are confirmed. A report of failure, a fault in the data, and a
    /// report that does not answer what was asked give the channel up.
    pub fn advance(&mut self, report: Report, session_id: &str, watcher_id: &str) -> (request:
        Request)
        requires
            old(self).well_formed(),
        ensures
            final(self).well_formed(),
            final(self)@.step == old(self)@.next_step(report),
            final(self)@.broadcaster.broadcaster == old(self)@.broadcaster.broadcaster,
            final(self)@.broadcaster.current_broadcast == match (old(self)@.step, report) {
                (Step::Status, Report::Status { stream }) => stream,
                _ => old(self)@.broadcaster.current_broadcast,
            },
            match final(self)@.step {
                Step::Status => false,
                Step::Opening => {
                    &&& request matches Request::Store { writes }
                    &&& final(self)@.broadcaster.current_broadcast matches Some(live)
                    &&& writes@ == seq![
                        Write::StartBroadcast {
                            broadcast_id: number_of(live.archive_video.id@)->0,
                            broadcaster_id: old(self)@.broadcaster.broadcaster.id,
                            title: live.archive_video.title,
                            started_at: live.archive_video.created_at,
                        },
                    ]
                },
                Step::Fetching => {
                    &&& request matches Request::FetchComments { video_id }
                    &&& old(self)@.broadcaster.current_broadcast matches Some(live)
                    &&& video_id == live.archive_video.id
                },
                Step::Storing => {
                    &&& report matches Report::Comments { comments }
                    &&& request matches Request::Store { writes }
                    &&& writes@.len() == 2
                    &&& writes@[0] matches Write::InsertManyChatters { rows: chatters }
                    &&& chatters@ == staged_chatters(comments@)
                    &&& writes@[1] matches Write::InsertManyMessages { rows: messages }
                    &&& messages@ == staged_messages(
                        old(self)@.broadcaster.broadcast_id()->0,
                        comments@,
                    )
                },
                Step::Subscribing => {
                    &&& request matches Request::Subscribe { requests }
                    &&& subscribes_to(
                        requests@,
                        old(self)@.broadcaster.broadcaster.id,
                        session_id@,
                        watcher_id@,
                    )
                },
                Step::Watched => request matches Request::Finished,
                Step::Aborted => {
                    &&& request matches Request::GiveUp { fault }
                    &&& fault == match (old(self)@.step, report) {
                        (Step::Status, Report::Status { stream: Some(_) }) => Some(
                            ArchiveError::BadBroadcastId,
                        ),
                        (Step::Fetching, Report::Comments { .. }) => Some(
                            ArchiveError::BadChatterId,
                        ),
                        _ => None,
                    }
                },
            },
    {
        match self.step {
            Step::Watched => Request::Finished,
            Step::Aborted => Request::GiveUp { fault: None },
            Step::Status => match report {
                Report::Status { stream } => {
                    self.broadcaster.current_broadcast = stream;
                    match self.broadcaster.catchup_start() {
                        Err(fault) => self.abort(Some(fault)),
                        Ok(None) => self.subscribe(session_id, watcher_id),
                        Ok(Some(write)) => {
                            let mut writes: Vec<Write> = Vec::new();
                            writes.push(write);
                            self.step = Step::Opening;
                            Request::Store { writes }
                        },
                    }
                },
                _ => self.abort(None),
            },
            Step::Opening => match report {
                Report::Stored => match &self.broadcaster.current_broadcast {
                    Some(stream) => {
                        let video_id = stream.archive_video.id.clone();
                        self.step = Step::Fetching;
                        Request::FetchComments { video_id }
                    },
                    None => self.abort(None),
                },
                _ => self.abort(None),
            },
            Step::Fetching => match report {
                Report::Comments { comments } => match self.broadcaster.catchup(comments) {
                    Err(fault) => self.abort(Some(fault)),
                    Ok(writes) => {
                        self.step = Step::Storing;
                        Request::Store { writes }
                    },
                },
                _ => self.abort(None),
            },
            Step::Storing => match report {
                Report::Stored => self.subscribe(session_id, watcher_id),
                _ => self.abort(None),
            },
            Step::Subscribing => match report {
                Report::Subscribed { confirmed } => {
                    self.broadcaster.mark_watched(confirmed);
                    if self.broadcaster.is_watching {
                        self.step = Step::Watched;
                        Request::Finished
                    } else {
                        self.abort(None)
                    }
                },
                _ => self.abort(None),
            },
        }
    }

    /// Ends the taking under watch and hands the channel out, to be filed in
    /// the registry if it is watched.
    pub fn into_broadcaster(self) -> (broadcaster: WatchedBroadcaster)
        ensures
            broadcaster == self@.broadcaster,
    {
        self.broadcaster
    }
}

/// A channel comes to be watched only by the confirmation of all its
/// subscriptions, and it comes to its subscriptions only from being found
/// offline or from having stored what it was caught up on.
pub proof fn lemma_watched_after_catchup(onboarding: OnboardingModel, report: Report)
    requires
        onboarding.well_formed(),
    ensures
        onboarding.step != Step::Watched && onboarding.next_step(report) == Step::Watched ==> {
            &&& onboarding.step == Step::Subscribing
            &&& report matches Report::Subscribed { confirmed }
            &&& confirmed >= SUBSCRIPTIONS_PER_BROADCASTER
        },
        onboarding.next_step(report) == Step::Subscribing ==> {
            ||| onboarding.step == Step::Status && report matches Report::Status { stream: None }
            ||| onboarding.step == Step::Storing && report is Stored
        },
        onboarding.next_step(report) == Step::Storing ==> onboarding.step == Step::Fetching,
        onboarding.next_step(report) == Step::Fetching ==> onboarding.step == Step::Opening,
        onboarding.next_step(report) == Step::Opening ==> onboarding.step == Step::Status,
        report is Failed && onboarding.step != Step::Watched ==> onboarding.next_step(report)
            == Step::Aborted,
        onboarding.step == Step::Aborted ==> onboarding.next_step(report) == Step::Aborted,
{
}

} // verus!
