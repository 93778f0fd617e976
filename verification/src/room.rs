//! The room as the dispatcher sees it: what the media transport reports,
//! turned into commands.

use vstd::prelude::*;
use vstd::string::*;
use crate::capture::{CaptureError, CaptureErrorView, CaptureStart};
use crate::event::{UserEvent, UserEventView};
use crate::model::{ConnectionState, ParticipantData, ParticipantDataView, ParticipantRole};

verus! {

/// Time that an attempt to connect to a room may take, in seconds.
pub const CONNECT_TIMEOUT_SECS: u64 = 45;

/// What the media transport reports about the room, as far as the engine
/// acts on it.
#[derive(Debug)]
pub enum RoomEvent {
    ParticipantConnected { identity: String, name: String },
    ParticipantDisconnected { identity: String, name: String },
    /// Data arrived; `participant` is the identity of the sender, where the
    /// transport knows it.
    DataReceived { payload: Vec<u8>, participant: Option<String> },
    Disconnected,
    /// Anything else: tracks coming and going, reconnecting, and the like.
    Other,
}

pub ghost enum RoomEventView {
    ParticipantConnected { identity: Seq<char>, name: Seq<char> },
    ParticipantDisconnected { identity: Seq<char>, name: Seq<char> },
    DataReceived { payload: Seq<u8>, participant: Option<Seq<char>> },
    Disconnected,
    Other,
}

impl View for RoomEvent {
    type V = RoomEventView;

    open spec fn view(&self) -> RoomEventView {
        match self {
            RoomEvent::ParticipantConnected { identity, name } => {
                RoomEventView::ParticipantConnected { identity: identity@, name: name@ }
            },
            RoomEvent::ParticipantDisconnected { identity, name } => {
                RoomEventView::ParticipantDisconnected { identity: identity@, name: name@ }
            },
            RoomEvent::DataReceived { payload, participant } => RoomEventView::DataReceived {
                payload: payload@,
                participant: crate::model::text_option(*participant),
            },
            RoomEvent::Disconnected => RoomEventView::Disconnected,
            RoomEvent::Other => RoomEventView::Other,
        }
    }
}

/// A participant of the room who is not the local one.
pub open spec fn remote_participant(identity: Seq<char>, name: Seq<char>) -> ParticipantDataView {
    ParticipantDataView { id: identity, name, is_local: false, role: ParticipantRole::Participant }
}

impl RoomEventView {
    /// The command that the report stands for; `None` for a report that
    /// asks for nothing, and for data without a sender.
    pub open spec fn command(self) -> Option<UserEventView> {
        match self {
            RoomEventView::ParticipantConnected { identity, name } => Some(
                UserEventView::ParticipantConnected(remote_participant(identity, name)),
            ),
            RoomEventView::ParticipantDisconnected { identity, name } => Some(
                UserEventView::ParticipantDisconnected(remote_participant(identity, name)),
            ),
            RoomEventView::DataReceived { payload, participant } => match participant {
                Some(sender) => Some(
                    UserEventView::DataReceived { participant_id: sender, payload },
                ),
                None => None,
            },
            RoomEventView::Disconnected => Some(UserEventView::RoomDisconnected),
            RoomEventView::Other => None,
        }
    }
}

/// Turns a report of the media transport into the command it stands for.
pub fn handle_room_event(event: RoomEvent) -> (command: Option<UserEvent>)
    ensures
        crate::socket::command_view(command) == event@.command(),
{
    match event {
        RoomEvent::ParticipantConnected { identity, name } => Some(
            UserEvent::ParticipantConnected(
                ParticipantData {
                    id: identity,
                    name,
                    is_local: false,
                    role: ParticipantRole::Participant,
                },
            ),
        ),
        RoomEvent::ParticipantDisconnected { identity, name } => Some(
            UserEvent::ParticipantDisconnected(
                ParticipantData {
                    id: identity,
                    name,
                    is_local: false,
                    role: ParticipantRole::Participant,
                },
            ),
        ),
        RoomEvent::DataReceived { payload, participant } => match participant {
            Some(sender) => Some(UserEvent::DataReceived { participant_id: sender, payload }),
            None => None,
        },
        RoomEvent::Disconnected => Some(UserEvent::RoomDisconnected),
        RoomEvent::Other => None,
    }
}

/// How an attempt to join a room ended.
#[derive(Debug)]
pub enum JoinOutcome {
    Connected { room_name: String },
    /// The transport refused, with its reason.
    ConnectFailed(String),
    /// No answer within `CONNECT_TIMEOUT_SECS`.
    TimedOut,
    /// The transport could not be set up, with the reason.
    ServiceFailed(String),
}

pub ghost enum JoinOutcomeView {
    Connected { room_name: Seq<char> },
    ConnectFailed(Seq<char>),
    TimedOut,
    ServiceFailed(Seq<char>),
}

impl View for JoinOutcome {
    type V = JoinOutcomeView;

    open spec fn view(&self) -> JoinOutcomeView {
        match self {
            JoinOutcome::Connected { room_name } => JoinOutcomeView::Connected {
                room_name: room_name@,
            },
            JoinOutcome::ConnectFailed(reason) => JoinOutcomeView::ConnectFailed(reason@),
            JoinOutcome::TimedOut => JoinOutcomeView::TimedOut,
            JoinOutcome::ServiceFailed(reason) => JoinOutcomeView::ServiceFailed(reason@),
        }
    }
}

impl JoinOutcomeView {
    /// The commands that report the outcome, in order. A failure is reported
    /// as an error, and the connection is declared down.
    pub open spec fn commands(self) -> Seq<UserEventView> {
        match self {
            JoinOutcomeView::Connected { room_name } => seq![
                UserEventView::RoomConnected { room_name },
                UserEventView::ConnectionStateChanged(ConnectionState::Connected),
            ],
            JoinOutcomeView::ConnectFailed(reason) => seq![
                UserEventView::Error { code: "room_join_failed"@, message: reason },
                UserEventView::ConnectionStateChanged(ConnectionState::Disconnected),
            ],
            JoinOutcomeView::TimedOut => seq![
                UserEventView::Error {
                    code: "room_join_failed"@,
                    message: "Connection timed out after 45s"@,
                },
                UserEventView::ConnectionStateChanged(ConnectionState::Disconnected),
            ],
            JoinOutcomeView::ServiceFailed(reason) => seq![
                UserEventView::Error { code: "room_service_failed"@, message: reason },
                UserEventView::ConnectionStateChanged(ConnectionState::Disconnected),
            ],
        }
    }
}

/// The commands that report how an attempt to join a room ended.
pub fn join_outcome(outcome: JoinOutcome) -> (commands: Vec<UserEvent>)
    ensures
        commands.deep_view() == outcome@.commands(),
{
    let ghost view = outcome@;
    let mut commands: Vec<UserEvent> = Vec::new();
    match outcome {
        JoinOutcome::Connected { room_name } => {
            commands.push(UserEvent::RoomConnected { room_name });
            commands.push(UserEvent::ConnectionStateChanged(ConnectionState::Connected));
        },
        JoinOutcome::ConnectFailed(reason) => {
            commands.push(
                UserEvent::Error { code: "room_join_failed".to_owned(), message: reason },
            );
            commands.push(UserEvent::ConnectionStateChanged(ConnectionState::Disconnected));
        },
        JoinOutcome::TimedOut => {
            commands.push(
                UserEvent::Error {
                    code: "room_join_failed".to_owned(),
                    message: "Connection timed out after 45s".to_owned(),
                },
            );
            commands.push(UserEvent::ConnectionStateChanged(ConnectionState::Disconnected));
        },
        JoinOutcome::ServiceFailed(reason) => {
            commands.push(
                UserEvent::Error { code: "room_service_failed".to_owned(), message: reason },
            );
            commands.push(UserEvent::ConnectionStateChanged(ConnectionState::Disconnected));
        },
    }
    assert(commands.deep_view() =~= view.commands());
    commands
}

/// How the attempt to publish the screen share track ended.
#[derive(Debug)]
pub enum PublishOutcome {
    /// No room is joined: the capture runs without a track.
    NotConnected,
    Published,
    /// The transport refused, with its reason.
    Failed(String),
}

/// The command that reports a failure to publish; `None` where the capture
/// is to start.
pub fn publish_failure(outcome: PublishOutcome) -> (command: Option<UserEvent>)
    ensures
        match outcome {
            PublishOutcome::Failed(reason) => {
                &&& command matches Some(event)
                &&& event@ == (UserEventView::Error {
                    code: "publish_failed"@,
                    message: reason@,
                })
            },
            _ => command is None,
        },
{
    match outcome {
        PublishOutcome::Failed(reason) => Some(
            UserEvent::Error { code: "publish_failed".to_owned(), message: reason },
        ),
        _ => None,
    }
}

/// The view of an answer to a request to start a capture.
pub open spec fn start_view(start: Result<CaptureStart, CaptureError>) -> Result<
    CaptureStart,
    CaptureErrorView,
> {
    match start {
        Ok(session) => Ok(session),
        Err(error) => Err(error@),
    }
}

/// The command that reports how the start of a capture went.
pub open spec fn capture_start_command(
    source_id: Seq<char>,
    start: Result<CaptureStart, CaptureErrorView>,
) -> UserEventView {
    match start {
        Ok(_) => UserEventView::ScreenShareStateChanged {
            is_sharing: true,
            source_id: Some(source_id),
        },
        Err(error) => UserEventView::Error { code: "capture_failed"@, message: error.message() },
    }
}

/// The command that reports how the start of a capture went: the share has
/// begun, or why it has not.
pub fn capture_start_event(source_id: String, start: &Result<CaptureStart, CaptureError>) -> (event:
    UserEvent)
    ensures
        event@ == capture_start_command(source_id@, start_view(*start)),
{
    match start {
        Ok(_) => UserEvent::ScreenShareStateChanged {
            is_sharing: true,
            source_id: Some(source_id),
        },
        Err(error) => UserEvent::Error {
            code: "capture_failed".to_owned(),
            message: error.message(),
        },
    }
}

} // verus!
