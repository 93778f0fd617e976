//! The channel to the host UI: its messages, and what each of them means.
//!
//! A message travels as one line of JSON whose `"type"` field selects its
//! shape. Inbound messages become commands; outbound messages are written by
//! `wire`. The life of a connection is decided in `connection`.

use vstd::prelude::*;
use vstd::string::*;
use crate::event::{UserEvent, UserEventView};
use crate::model::{
    AnnotationTool, CaptureConfig, Color, ConnectionState, FrameFormat,
    ParticipantData, ParticipantDataView, Point, Scalar, ScreenInfo, ScreenInfoView,
    ScreenShareMessage, ScreenShareMessageView, SourceType,
};
use crate::permissions::PermissionState;

pub mod connection;
pub mod endpoint;
pub mod kind;
pub mod lines;
pub mod wire;

verus! {

/// Messages from the host UI to the engine.
#[derive(Debug)]
#[allow(inconsistent_fields)]
pub enum IncomingMessage {
    JoinRoom { server_url: String, token: String },
    LeaveRoom,
    GetAvailableContent,
    StartScreenShare { source_id: String, source_type: SourceType, config: Option<CaptureConfig> },
    StopScreenShare,
    /// A stroke drawn by the local user.
    SendAnnotation { stroke_id: String, tool: AnnotationTool, color: Color, points: Vec<Point> },
    DeleteAnnotation { stroke_id: String },
    ClearAnnotations,
    /// The local user's cursor, for the others to see.
    CursorMove { x: Scalar, y: Scalar },
    CursorHide,
    SetMicMuted { muted: bool },
    SetCameraEnabled { enabled: bool },
    SetAudioInputDevice { device_id: String },
    SetVideoInputDevice { device_id: String },
    CheckPermissions,
    RequestScreenRecordingPermission,
    Ping,
    Shutdown,
}

#[allow(inconsistent_fields)]
pub ghost enum IncomingMessageView {
    JoinRoom { server_url: Seq<char>, token: Seq<char> },
    LeaveRoom,
    GetAvailableContent,
    StartScreenShare {
        source_id: Seq<char>,
        source_type: SourceType,
        config: Option<CaptureConfig>,
    },
    StopScreenShare,
    SendAnnotation {
        stroke_id: Seq<char>,
        tool: AnnotationTool,
        color: Color,
        points: Seq<Point>,
    },
    DeleteAnnotation { stroke_id: Seq<char> },
    ClearAnnotations,
    CursorMove { x: Scalar, y: Scalar },
    CursorHide,
    SetMicMuted { muted: bool },
    SetCameraEnabled { enabled: bool },
    SetAudioInputDevice { device_id: Seq<char> },
    SetVideoInputDevice { device_id: Seq<char> },
    CheckPermissions,
    RequestScreenRecordingPermission,
    Ping,
    Shutdown,
}

impl View for IncomingMessage {
    type V = IncomingMessageView;

    open spec fn view(&self) -> IncomingMessageView {
        match self {
            IncomingMessage::JoinRoom { server_url, token } => IncomingMessageView::JoinRoom {
                server_url: server_url@,
                token: token@,
            },
            IncomingMessage::LeaveRoom => IncomingMessageView::LeaveRoom,
            IncomingMessage::GetAvailableContent => IncomingMessageView::GetAvailableContent,
            IncomingMessage::StartScreenShare { source_id, source_type, config } => {
                IncomingMessageView::StartScreenShare {
                    source_id: source_id@,
                    source_type: *source_type,
                    config: *config,
                }
            },
            IncomingMessage::StopScreenShare => IncomingMessageView::StopScreenShare,
            IncomingMessage::SendAnnotation { stroke_id, tool, color, points } => {
                IncomingMessageView::SendAnnotation {
                    stroke_id: stroke_id@,
                    tool: *tool,
                    color: *color,
                    points: points@,
                }
            },
            IncomingMessage::DeleteAnnotation { stroke_id } => {
                IncomingMessageView::DeleteAnnotation { stroke_id: stroke_id@ }
            },
            IncomingMessage::ClearAnnotations => IncomingMessageView::ClearAnnotations,
            IncomingMessage::CursorMove { x, y } => IncomingMessageView::CursorMove {
                x: *x,
                y: *y,
            },
            IncomingMessage::CursorHide => IncomingMessageView::CursorHide,
            IncomingMessage::SetMicMuted { muted } => IncomingMessageView::SetMicMuted {
                muted: *muted,
            },
            IncomingMessage::SetCameraEnabled { enabled } => {
                IncomingMessageView::SetCameraEnabled { enabled: *enabled }
            },
            IncomingMessage::SetAudioInputDevice { device_id } => {
                IncomingMessageView::SetAudioInputDevice { device_id: device_id@ }
            },
            IncomingMessage::SetVideoInputDevice { device_id } => {
                IncomingMessageView::SetVideoInputDevice { device_id: device_id@ }
            },
            IncomingMessage::CheckPermissions => IncomingMessageView::CheckPermissions,
            IncomingMessage::RequestScreenRecordingPermission => {
                IncomingMessageView::RequestScreenRecordingPermission
            },
            IncomingMessage::Ping => IncomingMessageView::Ping,
            IncomingMessage::Shutdown => IncomingMessageView::Shutdown,
        }
    }
}

/// The author under which the local user's strokes and cursor are filed.
pub open spec fn local_author() -> Seq<char> {
    "local"@
}

impl IncomingMessageView {
    /// The value of the `"type"` field that selects this message.
    pub open spec fn type_tag(self) -> Seq<char> {
        match self {
            IncomingMessageView::JoinRoom { .. } => "join_room"@,
            IncomingMessageView::LeaveRoom => "leave_room"@,
            IncomingMessageView::GetAvailableContent => "get_available_content"@,
            IncomingMessageView::StartScreenShare { .. } => "start_screen_share"@,
            IncomingMessageView::StopScreenShare => "stop_screen_share"@,
            IncomingMessageView::SendAnnotation { .. } => "send_annotation"@,
            IncomingMessageView::DeleteAnnotation { .. } => "delete_annotation"@,
            IncomingMessageView::ClearAnnotations => "clear_annotations"@,
            IncomingMessageView::CursorMove { .. } => "cursor_move"@,
            IncomingMessageView::CursorHide => "cursor_hide"@,
            IncomingMessageView::SetMicMuted { .. } => "set_mic_muted"@,
            IncomingMessageView::SetCameraEnabled { .. } => "set_camera_enabled"@,
            IncomingMessageView::SetAudioInputDevice { .. } => "set_audio_input_device"@,
            IncomingMessageView::SetVideoInputDevice { .. } => "set_video_input_device"@,
            IncomingMessageView::CheckPermissions => "check_permissions"@,
            IncomingMessageView::RequestScreenRecordingPermission => {
                "request_screen_recording_permission"@
            },
            IncomingMessageView::Ping => "ping"@,
            IncomingMessageView::Shutdown => "shutdown"@,
        }
    }

    /// The command that this message stands for; `None` for a message that
    /// asks for nothing: a ping, or an annotation without a point.
    pub open spec fn command(self) -> Option<UserEventView> {
        match self {
            IncomingMessageView::JoinRoom { server_url, token } => Some(
                UserEventView::JoinRoom { server_url, token },
            ),
            IncomingMessageView::LeaveRoom => Some(UserEventView::LeaveRoom),
            IncomingMessageView::GetAvailableContent => Some(UserEventView::GetAvailableContent),
            IncomingMessageView::StartScreenShare { source_id, source_type, config } => Some(
                UserEventView::StartScreenShare(
                    ScreenShareMessageView {
                        source_id,
                        source_type,
                        config: match config {
                            Some(c) => c,
                            None => CaptureConfig::spec_default(),
                        },
                    },
                ),
            ),
            IncomingMessageView::StopScreenShare => Some(UserEventView::StopScreenShare),
            IncomingMessageView::SendAnnotation { stroke_id, tool, color, points } => {
                if points.len() > 0 {
                    Some(
                        UserEventView::StrokeStart {
                            stroke_id,
                            participant_id: local_author(),
                            tool,
                            color,
                            start_point: points[0],
                        },
                    )
                } else {
                    None
                }
            },
            IncomingMessageView::DeleteAnnotation { stroke_id } => Some(
                UserEventView::StrokeDelete { stroke_id },
            ),
            IncomingMessageView::ClearAnnotations => Some(UserEventView::ClearAllAnnotations),
            IncomingMessageView::CursorMove { x, y } => Some(
                UserEventView::RemoteCursorPosition {
                    participant_id: local_author(),
                    x,
                    y,
                    visible: true,
                },
            ),
            IncomingMessageView::CursorHide => Some(
                UserEventView::RemoteCursorPosition {
                    participant_id: local_author(),
                    x: Scalar { bits: 0 },
                    y: Scalar { bits: 0 },
                    visible: false,
                },
            ),
            IncomingMessageView::SetMicMuted { muted } => Some(
                UserEventView::SetMicrophoneMuted(muted),
            ),
            IncomingMessageView::SetCameraEnabled { enabled } => Some(
                UserEventView::SetCameraEnabled(enabled),
            ),
            IncomingMessageView::SetAudioInputDevice { device_id } => Some(
                UserEventView::SetAudioInputDevice(device_id),
            ),
            IncomingMessageView::SetVideoInputDevice { device_id } => Some(
                UserEventView::SetVideoInputDevice(device_id),
            ),
            IncomingMessageView::CheckPermissions => Some(UserEventView::CheckPermissions),
            IncomingMessageView::RequestScreenRecordingPermission => Some(
                UserEventView::RequestScreenRecordingPermission,
            ),
            IncomingMessageView::Ping => None,
            IncomingMessageView::Shutdown => Some(UserEventView::Terminate),
        }
    }
}

/// The view of a command that may be absent.
pub open spec fn command_view(command: Option<UserEvent>) -> Option<UserEventView> {
    match command {
        Some(event) => Some(event@),
        None => None,
    }
}

impl IncomingMessage {
    /// The value of the `"type"` field that selects this message.
    pub fn type_tag(&self) -> (name: &'static str)
        ensures
            name@ == self@.type_tag(),
    {
        match self {
            IncomingMessage::JoinRoom { .. } => "join_room",
            IncomingMessage::LeaveRoom => "leave_room",
            IncomingMessage::GetAvailableContent => "get_available_content",
            IncomingMessage::StartScreenShare { .. } => "start_screen_share",
            IncomingMessage::StopScreenShare => "stop_screen_share",
            IncomingMessage::SendAnnotation { .. } => "send_annotation",
            IncomingMessage::DeleteAnnotation { .. } => "delete_annotation",
            IncomingMessage::ClearAnnotations => "clear_annotations",
            IncomingMessage::CursorMove { .. } => "cursor_move",
            IncomingMessage::CursorHide => "cursor_hide",
            IncomingMessage::SetMicMuted { .. } => "set_mic_muted",
            IncomingMessage::SetCameraEnabled { .. } => "set_camera_enabled",
            IncomingMessage::SetAudioInputDevice { .. } => "set_audio_input_device",
            IncomingMessage::SetVideoInputDevice { .. } => "set_video_input_device",
            IncomingMessage::CheckPermissions => "check_permissions",
            IncomingMessage::RequestScreenRecordingPermission => {
                "request_screen_recording_permission"
            },
            IncomingMessage::Ping => "ping",
            IncomingMessage::Shutdown => "shutdown",
        }
    }
}

/// Turns a message of the host UI into the command it stands for.
pub fn handle_message(message: IncomingMessage) -> (command: Option<UserEvent>)
    ensures
        command_view(command) == message@.command(),
{
    match message {
        IncomingMessage::JoinRoom { server_url, token } => Some(
            UserEvent::JoinRoom { server_url, token },
        ),
        IncomingMessage::LeaveRoom => Some(UserEvent::LeaveRoom),
        IncomingMessage::GetAvailableContent => Some(UserEvent::GetAvailableContent),
        IncomingMessage::StartScreenShare { source_id, source_type, config } => {
            let config: CaptureConfig = match config {
                Some(c) => c,
                None => CaptureConfig::default(),
            };
            Some(UserEvent::StartScreenShare(ScreenShareMessage { source_id, source_type, config }))
        },
        IncomingMessage::StopScreenShare => Some(UserEvent::StopScreenShare),
        IncomingMessage::SendAnnotation { stroke_id, tool, color, points } => {
            if points.len() > 0 {
                Some(
                    UserEvent::StrokeStart {
                        stroke_id,
                        participant_id: "local".to_owned(),
                        tool,
                        color,
                        start_point: points[0],
                    },
                )
            } else {
                None
            }
        },
        IncomingMessage::DeleteAnnotation { stroke_id } => Some(
            UserEvent::StrokeDelete { stroke_id },
        ),
        IncomingMessage::ClearAnnotations => Some(UserEvent::ClearAllAnnotations),
        IncomingMessage::CursorMove { x, y } => Some(
            UserEvent::RemoteCursorPosition {
                participant_id: "local".to_owned(),
                x,
                y,
                visible: true,
            },
        ),
        IncomingMessage::CursorHide => Some(
            UserEvent::RemoteCursorPosition {
                participant_id: "local".to_owned(),
                x: Scalar::zero(),
                y: Scalar::zero(),
                visible: false,
            },
        ),
        IncomingMessage::SetMicMuted { muted } => Some(UserEvent::SetMicrophoneMuted(muted)),
        IncomingMessage::SetCameraEnabled { enabled } => Some(UserEvent::SetCameraEnabled(enabled)),
        IncomingMessage::SetAudioInputDevice { device_id } => Some(
            UserEvent::SetAudioInputDevice(device_id),
        ),
        IncomingMessage::SetVideoInputDevice { device_id } => Some(
            UserEvent::SetVideoInputDevice(device_id),
        ),
        IncomingMessage::CheckPermissions => Some(UserEvent::CheckPermissions),
        IncomingMessage::RequestScreenRecordingPermission => Some(
            UserEvent::RequestScreenRecordingPermission,
        ),
        IncomingMessage::Ping => None,
        IncomingMessage::Shutdown => Some(UserEvent::Terminate),
    }
}

/// Messages that participants send each other to keep annotations in step.
#[derive(Debug)]
#[allow(inconsistent_fields)]
pub enum DataTrackMessage {
    StrokeStart { stroke_id: String, tool: AnnotationTool, color: Color, point: Point },
    StrokeUpdate { stroke_id: String, points: Vec<Point> },
    StrokeComplete { stroke_id: String },
    StrokeDelete { stroke_id: String },
    ClearAll,
    CursorMove { x: Scalar, y: Scalar, visible: bool },
}

#[allow(inconsistent_fields)]
pub ghost enum DataTrackMessageView {
    StrokeStart { stroke_id: Seq<char>, tool: AnnotationTool, color: Color, point: Point },
    StrokeUpdate { stroke_id: Seq<char>, points: Seq<Point> },
    StrokeComplete { stroke_id: Seq<char> },
    StrokeDelete { stroke_id: Seq<char> },
    ClearAll,
    CursorMove { x: Scalar, y: Scalar, visible: bool },
}

impl View for DataTrackMessage {
    type V = DataTrackMessageView;

    open spec fn view(&self) -> DataTrackMessageView {
        match self {
            DataTrackMessage::StrokeStart { stroke_id, tool, color, point } => {
                DataTrackMessageView::StrokeStart {
                    stroke_id: stroke_id@,
                    tool: *tool,
                    color: *color,
                    point: *point,
                }
            },
            DataTrackMessage::StrokeUpdate { stroke_id, points } => {
                DataTrackMessageView::StrokeUpdate { stroke_id: stroke_id@, points: points@ }
            },
            DataTrackMessage::StrokeComplete { stroke_id } => {
                DataTrackMessageView::StrokeComplete { stroke_id: stroke_id@ }
            },
            DataTrackMessage::StrokeDelete { stroke_id } => DataTrackMessageView::StrokeDelete {
                stroke_id: stroke_id@,
            },
            DataTrackMessage::ClearAll => DataTrackMessageView::ClearAll,
            DataTrackMessage::CursorMove { x, y, visible } => DataTrackMessageView::CursorMove {
                x: *x,
                y: *y,
                visible: *visible,
            },
        }
    }
}

impl DataTrackMessageView {
    /// The value of the `"type"` field that selects this message.
    pub open spec fn type_tag(self) -> Seq<char> {
        match self {
            DataTrackMessageView::StrokeStart { .. } => "stroke_start"@,
            DataTrackMessageView::StrokeUpdate { .. } => "stroke_update"@,
            DataTrackMessageView::StrokeComplete { .. } => "stroke_complete"@,
            DataTrackMessageView::StrokeDelete { .. } => "stroke_delete"@,
            DataTrackMessageView::ClearAll => "clear_all"@,
            DataTrackMessageView::CursorMove { .. } => "cursor_move"@,
        }
    }

    /// The command that this message of `sender` stands for.
    pub open spec fn command(self, sender: Seq<char>) -> UserEventView {
        match self {
            DataTrackMessageView::StrokeStart { stroke_id, tool, color, point } => {
                UserEventView::StrokeStart {
                    stroke_id,
                    participant_id: sender,
                    tool,
                    color,
                    start_point: point,
                }
            },
            DataTrackMessageView::StrokeUpdate { stroke_id, points } => {
                UserEventView::StrokeUpdate { stroke_id, points }
            },
            DataTrackMessageView::StrokeComplete { stroke_id } => UserEventView::StrokeComplete {
                stroke_id,
            },
            DataTrackMessageView::StrokeDelete { stroke_id } => UserEventView::StrokeDelete {
                stroke_id,
            },
            DataTrackMessageView::ClearAll => UserEventView::ClearAllAnnotations,
            DataTrackMessageView::CursorMove { x, y, visible } => {
                UserEventView::RemoteCursorPosition { participant_id: sender, x, y, visible }
            },
        }
    }
}

impl DataTrackMessage {
    /// The value of the `"type"` field that selects this message.
    pub fn type_tag(&self) -> (name: &'static str)
        ensures
            name@ == self@.type_tag(),
    {
        match self {
            DataTrackMessage::StrokeStart { .. } => "stroke_start",
            DataTrackMessage::StrokeUpdate { .. } => "stroke_update",
            DataTrackMessage::StrokeComplete { .. } => "stroke_complete",
            DataTrackMessage::StrokeDelete { .. } => "stroke_delete",
            DataTrackMessage::ClearAll => "clear_all",
            DataTrackMessage::CursorMove { .. } => "cursor_move",
        }
    }

    /// Turns a message received from `sender` into the command it stands for.
    pub fn into_command(self, sender: &str) -> (command: UserEvent)
        ensures
            command@ == self@.command(sender@),
    {
        match self {
            DataTrackMessage::StrokeStart { stroke_id, tool, color, point } => {
                UserEvent::StrokeStart {
                    stroke_id,
                    participant_id: sender.to_owned(),
                    tool,
                    color,
                    start_point: point,
                }
            },
            DataTrackMessage::StrokeUpdate { stroke_id, points } => UserEvent::StrokeUpdate {
                stroke_id,
                points,
            },
            DataTrackMessage::StrokeComplete { stroke_id } => UserEvent::StrokeComplete {
                stroke_id,
            },
            DataTrackMessage::StrokeDelete { stroke_id } => UserEvent::StrokeDelete { stroke_id },
            DataTrackMessage::ClearAll => UserEvent::ClearAllAnnotations,
            DataTrackMessage::CursorMove { x, y, visible } => UserEvent::RemoteCursorPosition {
                participant_id: sender.to_owned(),
                x,
                y,
                visible,
            },
        }
    }
}

/// Messages from the engine to the host UI.
#[derive(Debug)]
#[allow(inconsistent_fields)]
pub enum OutgoingMessage {
    AvailableContent { screens: Vec<ScreenInfo> },
    ParticipantJoined { participant: ParticipantData },
    ParticipantLeft { participant_id: String },
    ConnectionStateChanged { state: ConnectionState },
    ScreenShareStarted { sharer_id: String },
    ScreenShareStopped,
    VideoFrame {
        participant_id: String,
        track_id: String,
        width: u32,
        height: u32,
        timestamp: u64,
        format: FrameFormat,
        frame_data: Vec<u8>,
    },
    PermissionState { state: PermissionState },
    Pong,
    Error { code: String, message: String },
}

#[allow(inconsistent_fields)]
pub ghost enum OutgoingMessageView {
    AvailableContent { screens: Seq<ScreenInfoView> },
    ParticipantJoined { participant: ParticipantDataView },
    ParticipantLeft { participant_id: Seq<char> },
    ConnectionStateChanged { state: ConnectionState },
    ScreenShareStarted { sharer_id: Seq<char> },
    ScreenShareStopped,
    VideoFrame {
        participant_id: Seq<char>,
        track_id: Seq<char>,
        width: u32,
        height: u32,
        timestamp: u64,
        format: FrameFormat,
        frame_data: Seq<u8>,
    },
    PermissionState { state: PermissionState },
    Pong,
    Error { code: Seq<char>, message: Seq<char> },
}

impl View for OutgoingMessage {
    type V = OutgoingMessageView;

    open spec fn view(&self) -> OutgoingMessageView {
        match self {
            OutgoingMessage::AvailableContent { screens } => OutgoingMessageView::AvailableContent {
                screens: screens.deep_view(),
            },
            OutgoingMessage::ParticipantJoined { participant } => {
                OutgoingMessageView::ParticipantJoined { participant: participant@ }
            },
            OutgoingMessage::ParticipantLeft { participant_id } => {
                OutgoingMessageView::ParticipantLeft { participant_id: participant_id@ }
            },
            OutgoingMessage::ConnectionStateChanged { state } => {
                OutgoingMessageView::ConnectionStateChanged { state: *state }
            },
            OutgoingMessage::ScreenShareStarted { sharer_id } => {
                OutgoingMessageView::ScreenShareStarted { sharer_id: sharer_id@ }
            },
            OutgoingMessage::ScreenShareStopped => OutgoingMessageView::ScreenShareStopped,
            OutgoingMessage::VideoFrame {
                participant_id,
                track_id,
                width,
                height,
                timestamp,
                format,
                frame_data,
            } => OutgoingMessageView::VideoFrame {
                participant_id: participant_id@,
                track_id: track_id@,
                width: *width,
                height: *height,
                timestamp: *timestamp,
                format: *format,
                frame_data: frame_data@,
            },
            OutgoingMessage::PermissionState { state } => OutgoingMessageView::PermissionState {
                state: *state,
            },
            OutgoingMessage::Pong => OutgoingMessageView::Pong,
            OutgoingMessage::Error { code, message } => OutgoingMessageView::Error {
                code: code@,
                message: message@,
            },
        }
    }
}

impl DeepView for OutgoingMessage {
    type V = OutgoingMessageView;

    open spec fn deep_view(&self) -> OutgoingMessageView {
        self.view()
    }
}

impl OutgoingMessageView {
    /// The value of the `"type"` field under which this message is sent.
    pub open spec fn type_tag(self) -> Seq<char> {
        match self {
            OutgoingMessageView::AvailableContent { .. } => "available_content"@,
            OutgoingMessageView::ParticipantJoined { .. } => "participant_joined"@,
            OutgoingMessageView::ParticipantLeft { .. } => "participant_left"@,
            OutgoingMessageView::ConnectionStateChanged { .. } => "connection_state_changed"@,
            OutgoingMessageView::ScreenShareStarted { .. } => "screen_share_started"@,
            OutgoingMessageView::ScreenShareStopped => "screen_share_stopped"@,
            OutgoingMessageView::VideoFrame { .. } => "video_frame"@,
            OutgoingMessageView::PermissionState { .. } => "permission_state"@,
            OutgoingMessageView::Pong => "pong"@,
            OutgoingMessageView::Error { .. } => "error"@,
        }
    }
}

impl OutgoingMessage {
    /// The value of the `"type"` field under which this message is sent.
    pub fn type_tag(&self) -> (name: &'static str)
        ensures
            name@ == self@.type_tag(),
    {
        match self {
            OutgoingMessage::AvailableContent { .. } => "available_content",
            OutgoingMessage::ParticipantJoined { .. } => "participant_joined",
            OutgoingMessage::ParticipantLeft { .. } => "participant_left",
            OutgoingMessage::ConnectionStateChanged { .. } => "connection_state_changed",
            OutgoingMessage::ScreenShareStarted { .. } => "screen_share_started",
            OutgoingMessage::ScreenShareStopped => "screen_share_stopped",
            OutgoingMessage::VideoFrame { .. } => "video_frame",
            OutgoingMessage::PermissionState { .. } => "permission_state",
            OutgoingMessage::Pong => "pong",
            OutgoingMessage::Error { .. } => "error",
        }
    }
}

} // verus!
