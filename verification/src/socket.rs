//! The channel of the event feed: what each thing that the channel yields
//! asks of the one who holds it.

use vstd::prelude::*;

verus! {

/// Where a session with the event feed stands.
#[derive(Clone, Copy, Debug, PartialEq, Eq, Structural)]
pub enum Phase {
    /// The channel is open and the feed has not welcomed it yet.
    Connecting,
    /// The feed has welcomed the channel.
    Active,
    /// The channel is given up for a new one.
    Reconnecting,
    /// The session has ended for good.
    Terminated,
}

/// What the channel yields when it is asked for the next message.
#[derive(Debug, PartialEq, Eq)]
pub enum SocketEvent {
    /// A text message.
    Text { text: String },
    /// A message that carries no text.
    Other,
    /// The peer reset the connection without closing it.
    Reset,
    /// Any other fault of the channel.
    Failed,
    /// The channel has ended.
    Closed,
}

/// Why a channel cannot go on.
#[derive(Clone, Copy, Debug, PartialEq, Eq, Structural)]
pub enum SocketFault {
    /// The channel reported a fault that is not recovered from.
    ChannelFailed,
    /// The channel ended before it gave a text message.
    EndedWithoutText,
}

/// What the holder of the channel is to do next.
#[derive(Debug, PartialEq, Eq)]
pub enum SocketAction {
    /// Hand the text on to be decoded.
    Deliver { text: String },
    /// Ask the channel again.
    Wait,
    /// Close the channel and open a new one at `url`.
    Reconnect { url: String },
    /// Give up.
    Fail { fault: SocketFault },
}

/// The channel of the event feed: its endpoint, and where its session
/// stands. The connection itself is held by the caller.
#[derive(Debug, PartialEq, Eq)]
pub struct EventSubSocket {
    pub url: String,
    pub phase: Phase,
}

impl EventSubSocket {
    /// What `event` asks for, and the phase afterwards. A reset by the
    /// peer is answered by a new channel to the same endpoint; any other
    /// fault ends the session.
    pub open spec fn step(self, event: SocketEvent) -> (SocketAction, Phase) {
        match event {
            SocketEvent::Text { text } => (SocketAction::Deliver { text }, self.phase),
            SocketEvent::Other => (SocketAction::Wait, self.phase),
            SocketEvent::Reset => (SocketAction::Reconnect { url: self.url }, Phase::Reconnecting),
            SocketEvent::Failed => (
                SocketAction::Fail { fault: SocketFault::ChannelFailed },
                Phase::Terminated,
            ),
            SocketEvent::Closed => (
                SocketAction::Fail { fault: SocketFault::EndedWithoutText },
                Phase::Terminated,
            ),
        }
    }

    /// A channel to `url` that the feed has not welcomed yet.
    pub fn connect(url: &str) -> (socket: Self)
        ensures
            socket.url@ == url@,
            socket.phase == Phase::Connecting,
    {
        EventSubSocket { url: url.to_owned(), phase: Phase::Connecting }
    }

    /// Takes what the channel yielded and says what to do next.
    pub fn next_message(&mut self, event: SocketEvent) -> (action: SocketAction)
        ensures
            (action, final(self).phase) == old(self).step(event),
            final(self).url == old(self).url,
    {
        match event {
            SocketEvent::Text { text } => SocketAction::Deliver { text },
            SocketEvent::Other => SocketAction::Wait,
            SocketEvent::Reset => {
                self.phase = Phase::Reconnecting;
                SocketAction::Reconnect { url: self.url.clone() }
            },
            SocketEvent::Failed => {
                self.phase = Phase::Terminated;
                SocketAction::Fail { fault: SocketFault::ChannelFailed }
            },
            SocketEvent::Closed => {
                self.phase = Phase::Terminated;
                SocketAction::Fail { fault: SocketFault::EndedWithoutText }
            },
        }
    }
}

/// A reset by the peer does not end the session: the channel is opened
/// anew at the endpoint it had, and a text that the new channel yields is
/// handed on as it is.
pub proof fn lemma_reset_is_recovered(socket: EventSubSocket, fresh: EventSubSocket, text: String)
    requires
        socket.phase != Phase::Terminated,
        fresh.url@ == socket.url@,
        fresh.phase == Phase::Connecting,
    ensures
        socket.step(SocketEvent::Reset).0 == (SocketAction::Reconnect { url: socket.url }),
        socket.step(SocketEvent::Reset).1 != Phase::Terminated,
        fresh.step(SocketEvent::Text { text }).0 == (SocketAction::Deliver { text }),
        fresh.step(SocketEvent::Text { text }).1 != Phase::Terminated,
{
}

/// Only a fault of the channel other than a reset, or its end, ends the
/// session at this level.
pub proof fn lemma_session_ends_on_fault_only(socket: EventSubSocket, event: SocketEvent)
    requires
        socket.phase != Phase::Terminated,
    ensures
        socket.step(event).1 == Phase::Terminated <==> (event is Failed || event is Closed),
        socket.step(event).0 is Fail <==> (event is Failed || event is Closed),
{
}

} // verus!
