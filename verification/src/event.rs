//! The commands of the engine: everything that can change its state.

use vstd::prelude::*;
use crate::model::{
    AnnotationTool, Color, ConnectionState, CursorStyle, FrameFormat, ParticipantData,
    ParticipantDataView, Point, Scalar, ScreenInfo, ScreenInfoView, ScreenShareMessage,
    ScreenShareMessageView,
};
use crate::permissions::PermissionState;

verus! {

/// Every event that can be dispatched. Events come from the host UI, from the
/// capture session, from the media transport, and from the dispatcher itself.
#[derive(Debug)]
#[allow(inconsistent_fields)]
pub enum UserEvent {
    /// Request the list of capturable screens.
    GetAvailableContent,
    /// Start sharing the given source.
    StartScreenShare(ScreenShareMessage),
    /// Stop the current screen share.
    StopScreenShare,
    /// The screen share started or stopped.
    ScreenShareStateChanged { is_sharing: bool, source_id: Option<String> },
    /// The capturable screens have been listed.
    AvailableContentReady { screens: Vec<ScreenInfo> },
    /// A participant started drawing a stroke.
    StrokeStart {
        stroke_id: String,
        participant_id: String,
        tool: AnnotationTool,
        color: Color,
        start_point: Point,
    },
    /// A participant added points to a stroke.
    StrokeUpdate { stroke_id: String, points: Vec<Point> },
    /// A participant completed a stroke.
    StrokeComplete { stroke_id: String },
    /// Delete one stroke.
    StrokeDelete { stroke_id: String },
    /// Clear all annotations.
    ClearAllAnnotations,
    /// Annotations were switched on or off.
    AnnotationPermissionChanged { enabled: bool },
    /// A participant moved their cursor on the shared screen.
    RemoteCursorPosition { participant_id: String, x: Scalar, y: Scalar, visible: bool },
    /// A participant's cursor changed its style.
    RemoteCursorStyle { participant_id: String, style: CursorStyle },
    /// Connect to a room.
    JoinRoom { server_url: String, token: String },
    /// Leave the current room.
    LeaveRoom,
    /// The room was connected.
    RoomConnected { room_name: String },
    /// The room was disconnected.
    RoomDisconnected,
    /// A participant joined the room.
    ParticipantConnected(ParticipantData),
    /// A participant left the room.
    ParticipantDisconnected(ParticipantData),
    /// The connection state changed.
    ConnectionStateChanged(ConnectionState),
    /// A data message arrived from a participant.
    DataReceived { participant_id: String, payload: Vec<u8> },
    /// The screen share track was published.
    ScreenSharePublished,
    /// The screen share track was unpublished.
    ScreenShareUnpublished,
    /// Mute or unmute the microphone.
    SetMicrophoneMuted(bool),
    /// Switch the camera on or off.
    SetCameraEnabled(bool),
    /// Change the audio input device.
    SetAudioInputDevice(String),
    /// Change the video input device.
    SetVideoInputDevice(String),
    /// A video frame is ready to be relayed to the host UI.
    VideoFrameReady {
        participant_id: String,
        track_id: String,
        frame_data: Vec<u8>,
        width: u32,
        height: u32,
        format: FrameFormat,
    },
    /// Redraw the overlay.
    RequestRedraw,
    /// Show or hide the overlay.
    SetOverlayVisible(bool),
    /// Move the overlay over the shared screen.
    UpdateOverlayBounds { x: i32, y: i32, width: u32, height: u32 },
    /// Create the overlay.
    CreateOverlay,
    /// Destroy the overlay.
    DestroyOverlay,
    /// A client connected to the socket.
    SocketConnected,
    /// The client disconnected from the socket.
    SocketDisconnected,
    /// Something failed.
    Error { code: String, message: String },
    /// Check the permissions.
    CheckPermissions,
    /// Ask for the permission to record the screen.
    RequestScreenRecordingPermission,
    /// The permissions were determined.
    PermissionStateChanged(PermissionState),
    /// Shut down.
    Terminate,
}

#[allow(inconsistent_fields)]
pub ghost enum UserEventView {
    GetAvailableContent,
    StartScreenShare(ScreenShareMessageView),
    StopScreenShare,
    ScreenShareStateChanged { is_sharing: bool, source_id: Option<Seq<char>> },
    AvailableContentReady { screens: Seq<ScreenInfoView> },
    StrokeStart {
        stroke_id: Seq<char>,
        participant_id: Seq<char>,
        tool: AnnotationTool,
        color: Color,
        start_point: Point,
    },
    StrokeUpdate { stroke_id: Seq<char>, points: Seq<Point> },
    StrokeComplete { stroke_id: Seq<char> },
    StrokeDelete { stroke_id: Seq<char> },
    ClearAllAnnotations,
    AnnotationPermissionChanged { enabled: bool },
    RemoteCursorPosition { participant_id: Seq<char>, x: Scalar, y: Scalar, visible: bool },
    RemoteCursorStyle { participant_id: Seq<char>, style: CursorStyle },
    JoinRoom { server_url: Seq<char>, token: Seq<char> },
    LeaveRoom,
    RoomConnected { room_name: Seq<char> },
    RoomDisconnected,
    ParticipantConnected(ParticipantDataView),
    ParticipantDisconnected(ParticipantDataView),
    ConnectionStateChanged(ConnectionState),
    DataReceived { participant_id: Seq<char>, payload: Seq<u8> },
    ScreenSharePublished,
    ScreenShareUnpublished,
    SetMicrophoneMuted(bool),
    SetCameraEnabled(bool),
    SetAudioInputDevice(Seq<char>),
    SetVideoInputDevice(Seq<char>),
    VideoFrameReady {
        participant_id: Seq<char>,
        track_id: Seq<char>,
        frame_data: Seq<u8>,
        width: u32,
        height: u32,
        format: FrameFormat,
    },
    RequestRedraw,
    SetOverlayVisible(bool),
    UpdateOverlayBounds { x: i32, y: i32, width: u32, height: u32 },
    CreateOverlay,
    DestroyOverlay,
    SocketConnected,
    SocketDisconnected,
    Error { code: Seq<char>, message: Seq<char> },
    CheckPermissions,
    RequestScreenRecordingPermission,
    PermissionStateChanged(PermissionState),
    Terminate,
}

impl View for UserEvent {
    type V = UserEventView;

    open spec fn view(&self) -> UserEventView {
        match self {
            UserEvent::GetAvailableContent => UserEventView::GetAvailableContent,
            UserEvent::StartScreenShare(message) => UserEventView::StartScreenShare(message@),
            UserEvent::StopScreenShare => UserEventView::StopScreenShare,
            UserEvent::ScreenShareStateChanged { is_sharing, source_id } => {
                UserEventView::ScreenShareStateChanged {
                    is_sharing: *is_sharing,
                    source_id: crate::model::text_option(*source_id),
                }
            },
            UserEvent::AvailableContentReady { screens } => UserEventView::AvailableContentReady {
                screens: screens.deep_view(),
            },
            UserEvent::StrokeStart { stroke_id, participant_id, tool, color, start_point } => {
                UserEventView::StrokeStart {
                    stroke_id: stroke_id@,
                    participant_id: participant_id@,
                    tool: *tool,
                    color: *color,
                    start_point: *start_point,
                }
            },
            UserEvent::StrokeUpdate { stroke_id, points } => UserEventView::StrokeUpdate {
                stroke_id: stroke_id@,
                points: points@,
            },
            UserEvent::StrokeComplete { stroke_id } => UserEventView::StrokeComplete {
                stroke_id: stroke_id@,
            },
            UserEvent::StrokeDelete { stroke_id } => UserEventView::StrokeDelete {
                stroke_id: stroke_id@,
            },
            UserEvent::ClearAllAnnotations => UserEventView::ClearAllAnnotations,
            UserEvent::AnnotationPermissionChanged { enabled } => {
                UserEventView::AnnotationPermissionChanged { enabled: *enabled }
            },
            UserEvent::RemoteCursorPosition { participant_id, x, y, visible } => {
                UserEventView::RemoteCursorPosition {
                    participant_id: participant_id@,
                    x: *x,
                    y: *y,
                    visible: *visible,
                }
            },
            UserEvent::RemoteCursorStyle { participant_id, style } => {
                UserEventView::RemoteCursorStyle { participant_id: participant_id@, style: *style }
            },
            UserEvent::JoinRoom { server_url, token } => UserEventView::JoinRoom {
                server_url: server_url@,
                token: token@,
            },
            UserEvent::LeaveRoom => UserEventView::LeaveRoom,
            UserEvent::RoomConnected { room_name } => UserEventView::RoomConnected {
                room_name: room_name@,
            },
            UserEvent::RoomDisconnected => UserEventView::RoomDisconnected,
            UserEvent::ParticipantConnected(data) => UserEventView::ParticipantConnected(data@),
            UserEvent::ParticipantDisconnected(data) => UserEventView::ParticipantDisconnected(
                data@,
            ),
            UserEvent::ConnectionStateChanged(state) => UserEventView::ConnectionStateChanged(
                *state,
            ),
            UserEvent::DataReceived { participant_id, payload } => UserEventView::DataReceived {
                participant_id: participant_id@,
                payload: payload@,
            },
            UserEvent::ScreenSharePublished => UserEventView::ScreenSharePublished,
            UserEvent::ScreenShareUnpublished => UserEventView::ScreenShareUnpublished,
            UserEvent::SetMicrophoneMuted(muted) => UserEventView::SetMicrophoneMuted(*muted),
            UserEvent::SetCameraEnabled(enabled) => UserEventView::SetCameraEnabled(*enabled),
            UserEvent::SetAudioInputDevice(device) => UserEventView::SetAudioInputDevice(device@),
            UserEvent::SetVideoInputDevice(device) => UserEventView::SetVideoInputDevice(device@),
            UserEvent::VideoFrameReady {
                participant_id,
                track_id,
                frame_data,
                width,
                height,
                format,
            } => UserEventView::VideoFrameReady {
                participant_id: participant_id@,
                track_id: track_id@,
                frame_data: frame_data@,
                width: *width,
                height: *height,
                format: *format,
            },
            UserEvent::RequestRedraw => UserEventView::RequestRedraw,
            UserEvent::SetOverlayVisible(visible) => UserEventView::SetOverlayVisible(*visible),
            UserEvent::UpdateOverlayBounds { x, y, width, height } => {
                UserEventView::UpdateOverlayBounds { x: *x, y: *y, width: *width, height: *height }
            },
            UserEvent::CreateOverlay => UserEventView::CreateOverlay,
            UserEvent::DestroyOverlay => UserEventView::DestroyOverlay,
            UserEvent::SocketConnected => UserEventView::SocketConnected,
            UserEvent::SocketDisconnected => UserEventView::SocketDisconnected,
            UserEvent::Error { code, message } => UserEventView::Error {
                code: code@,
                message: message@,
            },
            UserEvent::CheckPermissions => UserEventView::CheckPermissions,
            UserEvent::RequestScreenRecordingPermission => {
                UserEventView::RequestScreenRecordingPermission
            },
            UserEvent::PermissionStateChanged(state) => UserEventView::PermissionStateChanged(
                *state,
            ),
            UserEvent::Terminate => UserEventView::Terminate,
        }
    }
}

impl DeepView for UserEvent {
    type V = UserEventView;

    open spec fn deep_view(&self) -> UserEventView {
        self.view()
    }
}

} // verus!
