//! The life of the channel to the host UI: one client at a time, lines in,
//! lines out.
//!
//! The channel decides; the caller binds, accepts, reads and writes, and
//! reports what happened.

use vstd::prelude::*;
use vstd::string::*;
use crate::event::{UserEvent, UserEventView};
use crate::socket::wire::message_line;
use crate::socket::{
    handle_message, IncomingMessage, IncomingMessageView, OutgoingMessage,
    OutgoingMessageView,
};

verus! {

/// Where the channel stands.
#[derive(Debug, Clone, Copy, PartialEq, Eq, Structural)]
pub enum ChannelPhase {
    /// Not started yet.
    Idle,
    /// Waiting for a client.
    Listening,
    /// Serving its one client.
    Connected,
    /// Shut down.
    Closed,
}

/// What the caller has to do for the channel.
#[derive(Debug)]
pub enum ChannelAction {
    /// Remove what a listening endpoint leaves in the file system.
    RemoveEndpoint,
    /// Create the listening endpoint.
    Bind,
    /// Wait for the next client.
    Accept,
    /// Close the connection that was just accepted.
    Reject,
    /// Close the connection to the client.
    Disconnect,
    /// Hand the command to the dispatcher.
    Submit(UserEvent),
    /// Write the line to the client.
    Write(String),
}

pub ghost enum ChannelActionView {
    RemoveEndpoint,
    Bind,
    Accept,
    Reject,
    Disconnect,
    Submit(UserEventView),
    Write(Seq<char>),
}

impl View for ChannelAction {
    type V = ChannelActionView;

    open spec fn view(&self) -> ChannelActionView {
        match self {
            ChannelAction::RemoveEndpoint => ChannelActionView::RemoveEndpoint,
            ChannelAction::Bind => ChannelActionView::Bind,
            ChannelAction::Accept => ChannelActionView::Accept,
            ChannelAction::Reject => ChannelActionView::Reject,
            ChannelAction::Disconnect => ChannelActionView::Disconnect,
            ChannelAction::Submit(event) => ChannelActionView::Submit(event@),
            ChannelAction::Write(line) => ChannelActionView::Write(line@),
        }
    }
}

impl DeepView for ChannelAction {
    type V = ChannelActionView;

    open spec fn deep_view(&self) -> ChannelActionView {
        self.view()
    }
}

/// Anything that can happen to the channel.
pub ghost enum ChannelEvent {
    /// The caller starts the channel.
    Start,
    /// A client was accepted.
    Accepted,
    /// Accepting a client failed.
    AcceptFailed,
    /// A line was read; `None` where it is no message: malformed JSON, an
    /// unknown type, a field missing.
    Line(Option<IncomingMessageView>),
    /// The client is gone: end of input, or reading or writing failed.
    Lost,
    /// The engine sends a message.
    Send(OutgoingMessageView),
    /// The engine shuts the channel down.
    Shutdown,
}

impl ChannelPhase {
    /// The phase after an event, and what the caller has to do.
    pub open spec fn after(self, event: ChannelEvent) -> (ChannelPhase, Seq<ChannelActionView>) {
        match event {
            ChannelEvent::Start => if self == ChannelPhase::Idle {
                (
                    ChannelPhase::Listening,
                    seq![
                        ChannelActionView::RemoveEndpoint,
                        ChannelActionView::Bind,
                        ChannelActionView::Accept,
                    ],
                )
            } else {
                (self, Seq::empty())
            },
            ChannelEvent::Accepted => if self == ChannelPhase::Listening {
                (
                    ChannelPhase::Connected,
                    seq![ChannelActionView::Submit(UserEventView::SocketConnected)],
                )
            } else {
                (self, seq![ChannelActionView::Reject])
            },
            ChannelEvent::AcceptFailed => if self == ChannelPhase::Listening {
                (self, seq![ChannelActionView::Accept])
            } else {
                (self, Seq::empty())
            },
            ChannelEvent::Line(decoded) => if self == ChannelPhase::Connected {
                match line_command(decoded) {
                    Some(command) => (self, seq![ChannelActionView::Submit(command)]),
                    None => (self, Seq::empty()),
                }
            } else {
                (self, Seq::empty())
            },
            ChannelEvent::Lost => if self == ChannelPhase::Connected {
                (
                    ChannelPhase::Listening,
                    seq![
                        ChannelActionView::Disconnect,
                        ChannelActionView::Submit(UserEventView::SocketDisconnected),
                        ChannelActionView::Accept,
                    ],
                )
            } else {
                (self, Seq::empty())
            },
            ChannelEvent::Send(message) => if self == ChannelPhase::Connected {
                (self, seq![ChannelActionView::Write(message_line(message))])
            } else {
                (self, Seq::empty())
            },
            ChannelEvent::Shutdown => match self {
                ChannelPhase::Connected => (
                    ChannelPhase::Closed,
                    seq![
                        ChannelActionView::Disconnect,
                        ChannelActionView::Submit(UserEventView::SocketDisconnected),
                        ChannelActionView::RemoveEndpoint,
                    ],
                ),
                ChannelPhase::Listening => (
                    ChannelPhase::Closed,
                    seq![ChannelActionView::RemoveEndpoint],
                ),
                _ => (ChannelPhase::Closed, Seq::empty()),
            },
        }
    }

    /// The phase after a run of events.
    pub open spec fn after_all(self, events: Seq<ChannelEvent>) -> ChannelPhase
        decreases events.len(),
    {
        if events.len() == 0 {
            self
        } else {
            self.after_all(events.drop_last()).after(events.last()).0
        }
    }

    /// Everything the caller has to do in a run of events, in order.
    pub open spec fn actions_of(self, events: Seq<ChannelEvent>) -> Seq<ChannelActionView>
        decreases events.len(),
    {
        if events.len() == 0 {
            Seq::empty()
        } else {
            self.actions_of(events.drop_last()) + self.after_all(events.drop_last()).after(
                events.last(),
            ).1
        }
    }
}

/// The view of a line that was decoded, or not.
pub open spec fn decoded_view(decoded: Option<IncomingMessage>) -> Option<IncomingMessageView> {
    match decoded {
        Some(message) => Some(message@),
        None => None,
    }
}

/// The command that a line stands for, if any.
pub open spec fn line_command(decoded: Option<IncomingMessageView>) -> Option<UserEventView> {
    match decoded {
        Some(message) => message.command(),
        None => None,
    }
}

/// The channel to the host UI.
pub struct Channel {
    phase: ChannelPhase,
}

impl View for Channel {
    type V = ChannelPhase;

    closed spec fn view(&self) -> ChannelPhase {
        self.phase
    }
}

impl Channel {
    /// A channel that has not been started.
    pub fn new() -> (channel: Self)
        ensures
            channel@ == ChannelPhase::Idle,
    {
        Channel { phase: ChannelPhase::Idle }
    }

    /// Where the channel stands.
    pub fn phase(&self) -> (phase: ChannelPhase)
        ensures
            phase == self@,
    {
        self.phase
    }

    /// Whether a client is being served.
    pub fn is_connected(&self) -> (b: bool)
        ensures
            b == (self@ == ChannelPhase::Connected),
    {
        self.phase == ChannelPhase::Connected
    }

    /// Starts the channel: what a crashed predecessor left behind is removed,
    /// the endpoint is created, and the first client is waited for.
    pub fn start(&mut self) -> (actions: Vec<ChannelAction>)
        ensures
            (final(self)@, actions.deep_view()) == old(self)@.after(ChannelEvent::Start),
    {
        let mut actions: Vec<ChannelAction> = Vec::new();
        if self.phase == ChannelPhase::Idle {
            self.phase = ChannelPhase::Listening;
            actions.push(ChannelAction::RemoveEndpoint);
            actions.push(ChannelAction::Bind);
            actions.push(ChannelAction::Accept);
        }
        assert(actions.deep_view() =~= old(self)@.after(ChannelEvent::Start).1);
        actions
    }

    /// Takes in the outcome of waiting for a client.
    pub fn on_accept(&mut self, accepted: bool) -> (actions: Vec<ChannelAction>)
        ensures
            (final(self)@, actions.deep_view()) == old(self)@.after(
                if accepted {
                    ChannelEvent::Accepted
                } else {
                    ChannelEvent::AcceptFailed
                },
            ),
    {
        let mut actions: Vec<ChannelAction> = Vec::new();
        if accepted {
            if self.phase == ChannelPhase::Listening {
                self.phase = ChannelPhase::Connected;
                actions.push(ChannelAction::Submit(UserEvent::SocketConnected));
            } else {
                actions.push(ChannelAction::Reject);
            }
            assert(actions.deep_view() =~= old(self)@.after(ChannelEvent::Accepted).1);
        } else {
            if self.phase == ChannelPhase::Listening {
                actions.push(ChannelAction::Accept);
            }
            assert(actions.deep_view() =~= old(self)@.after(ChannelEvent::AcceptFailed).1);
        }
        actions
    }

    /// Takes in one line read from the client, decoded or not. A line that
    /// is no message is dropped; the connection stays open either way.
    pub fn on_line(&mut self, decoded: Option<IncomingMessage>) -> (actions: Vec<ChannelAction>)
        ensures
            (final(self)@, actions.deep_view()) == old(self)@.after(
                ChannelEvent::Line(decoded_view(decoded)),
            ),
            final(self)@ == old(self)@,
    {
        let ghost event = ChannelEvent::Line(decoded_view(decoded));
        let mut actions: Vec<ChannelAction> = Vec::new();
        if self.phase == ChannelPhase::Connected {
            match decoded {
                Some(message) => {
                    match handle_message(message) {
                        Some(command) => {
                            actions.push(ChannelAction::Submit(command));
                        },
                        None => {},
                    }
                },
                None => {},
            }
        }
        assert(actions.deep_view() =~= old(self)@.after(event).1);
        actions
    }

    /// Takes in the loss of the client: end of input, or a failure to read or
    /// to write. The channel goes back to waiting for a client.
    pub fn on_lost(&mut self) -> (actions: Vec<ChannelAction>)
        ensures
            (final(self)@, actions.deep_view()) == old(self)@.after(ChannelEvent::Lost),
    {
        let mut actions: Vec<ChannelAction> = Vec::new();
        if self.phase == ChannelPhase::Connected {
            self.phase = ChannelPhase::Listening;
            actions.push(ChannelAction::Disconnect);
            actions.push(ChannelAction::Submit(UserEvent::SocketDisconnected));
            actions.push(ChannelAction::Accept);
        }
        assert(actions.deep_view() =~= old(self)@.after(ChannelEvent::Lost).1);
        actions
    }

    /// Sends a message: it is written to the client that is connected, and
    /// dropped where there is none.
    pub fn send(&mut self, message: &OutgoingMessage) -> (actions: Vec<ChannelAction>)
        ensures
            (final(self)@, actions.deep_view()) == old(self)@.after(ChannelEvent::Send(message@)),
            final(self)@ == old(self)@,
    {
        let mut actions: Vec<ChannelAction> = Vec::new();
        if self.phase == ChannelPhase::Connected {
            actions.push(ChannelAction::Write(message.to_line()));
        }
        assert(actions.deep_view() =~= old(self)@.after(ChannelEvent::Send(message@)).1);
        actions
    }

    /// Shuts the channel down: the client, if any, is disconnected, and the
    /// endpoint is removed.
    pub fn shutdown(&mut self) -> (actions: Vec<ChannelAction>)
        ensures
            (final(self)@, actions.deep_view()) == old(self)@.after(ChannelEvent::Shutdown),
            final(self)@ == ChannelPhase::Closed,
    {
        let mut actions: Vec<ChannelAction> = Vec::new();
        match self.phase {
            ChannelPhase::Connected => {
                actions.push(ChannelAction::Disconnect);
                actions.push(ChannelAction::Submit(UserEvent::SocketDisconnected));
                actions.push(ChannelAction::RemoveEndpoint);
            },
            ChannelPhase::Listening => {
                actions.push(ChannelAction::RemoveEndpoint);
            },
            _ => {},
        }
        self.phase = ChannelPhase::Closed;
        assert(actions.deep_view() =~= old(self)@.after(ChannelEvent::Shutdown).1);
        actions
    }
}

/// The commands that a run of lines stands for, in order; a line that is no
/// message, or a message that asks for nothing, adds nothing.
pub open spec fn commands_of(lines: Seq<Option<IncomingMessageView>>) -> Seq<ChannelActionView>
    decreases lines.len(),
{
    if lines.len() == 0 {
        Seq::empty()
    } else {
        match line_command(lines.last()) {
            Some(command) => commands_of(lines.drop_last()).push(
                ChannelActionView::Submit(command),
            ),
            None => commands_of(lines.drop_last()),
        }
    }
}

/// The events of a run of lines.
pub open spec fn line_events(lines: Seq<Option<IncomingMessageView>>) -> Seq<ChannelEvent> {
    Seq::new(lines.len(), |i: int| ChannelEvent::Line(lines[i]))
}

/// The lines of a run of messages.
pub open spec fn send_events(messages: Seq<OutgoingMessageView>) -> Seq<ChannelEvent> {
    Seq::new(messages.len(), |i: int| ChannelEvent::Send(messages[i]))
}

/// Whatever lines a client sends, the connection stays open, and every line
/// that is a message has its command submitted, in the order of the lines: a
/// malformed line costs nothing but itself.
pub proof fn lemma_lines_never_close(lines: Seq<Option<IncomingMessageView>>)
    ensures
        ChannelPhase::Connected.after_all(line_events(lines)) == ChannelPhase::Connected,
        ChannelPhase::Connected.actions_of(line_events(lines)) == commands_of(lines),
    decreases lines.len(),
{
    let events = line_events(lines);
    if lines.len() > 0 {
        lemma_lines_never_close(lines.drop_last());
        assert(events.drop_last() =~= line_events(lines.drop_last()));
        assert(events.last() == ChannelEvent::Line(lines.last()));
        match line_command(lines.last()) {
            Some(command) => {
                assert(ChannelPhase::Connected.actions_of(events) =~= commands_of(lines));
            },
            None => {
                assert(ChannelPhase::Connected.actions_of(events) =~= commands_of(lines));
            },
        }
    }
}

/// Messages sent to a connected client are written in the order in which
/// they were sent, each as its line.
pub proof fn lemma_sends_keep_order(messages: Seq<OutgoingMessageView>)
    ensures
        ChannelPhase::Connected.after_all(send_events(messages)) == ChannelPhase::Connected,
        ChannelPhase::Connected.actions_of(send_events(messages)) == Seq::new(
            messages.len(),
            |i: int| ChannelActionView::Write(message_line(messages[i])),
        ),
    decreases messages.len(),
{
    let events = send_events(messages);
    if messages.len() > 0 {
        let front = messages.drop_last();
        lemma_sends_keep_order(front);
        assert(events.drop_last() =~= send_events(front));
        assert(events.last() == ChannelEvent::Send(messages.last()));
        assert(ChannelPhase::Connected.actions_of(events) =~= Seq::new(
            messages.len(),
            |i: int| ChannelActionView::Write(message_line(messages[i])),
        ));
    } else {
        assert(ChannelPhase::Connected.actions_of(events) =~= Seq::new(
            messages.len(),
            |i: int| ChannelActionView::Write(message_line(messages[i])),
        ));
    }
}

/// While no client is connected, nothing is written and nothing is kept:
/// a message sent then is lost, whoever connects later.
pub proof fn lemma_no_client_no_delivery(phase: ChannelPhase, messages: Seq<OutgoingMessageView>)
    requires
        phase != ChannelPhase::Connected,
    ensures
        phase.after_all(send_events(messages)) == phase,
        phase.actions_of(send_events(messages)) == Seq::<ChannelActionView>::empty(),
    decreases messages.len(),
{
    let events = send_events(messages);
    if messages.len() > 0 {
        lemma_no_client_no_delivery(phase, messages.drop_last());
        assert(events.drop_last() =~= send_events(messages.drop_last()));
        assert(events.last() == ChannelEvent::Send(messages.last()));
    }
}

/// A channel that was shut down stays shut: no event asks the caller for
/// anything but to close a connection accepted too late.
pub proof fn lemma_closed_stays_closed(events: Seq<ChannelEvent>)
    ensures
        ChannelPhase::Closed.after_all(events) == ChannelPhase::Closed,
        forall|i: int|
            0 <= i < ChannelPhase::Closed.actions_of(events).len() ==> (
            #[trigger] ChannelPhase::Closed.actions_of(events)[i]) == ChannelActionView::Reject,
    decreases events.len(),
{
    if events.len() > 0 {
        lemma_closed_stays_closed(events.drop_last());
    }
}

} // verus!
