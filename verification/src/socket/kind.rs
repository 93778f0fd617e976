//! Which shape an inbound line has: the `"type"` field decides.

use vstd::prelude::*;
use vstd::string::*;
use crate::socket::{
    DataTrackMessage, DataTrackMessageView, IncomingMessage, IncomingMessageView,
};

verus! {

/// The shapes of inbound messages.
#[derive(Debug, Clone, Copy, PartialEq, Eq, Structural)]
pub enum IncomingKind {
    JoinRoom,
    LeaveRoom,
    GetAvailableContent,
    StartScreenShare,
    StopScreenShare,
    SendAnnotation,
    DeleteAnnotation,
    ClearAnnotations,
    CursorMove,
    CursorHide,
    SetMicMuted,
    SetCameraEnabled,
    SetAudioInputDevice,
    SetVideoInputDevice,
    CheckPermissions,
    RequestScreenRecordingPermission,
    Ping,
    Shutdown,
}

impl IncomingKind {
    /// The value of the `"type"` field that selects this shape.
    pub open spec fn tag(self) -> Seq<char> {
        match self {
            IncomingKind::JoinRoom => "join_room"@,
            IncomingKind::LeaveRoom => "leave_room"@,
            IncomingKind::GetAvailableContent => "get_available_content"@,
            IncomingKind::StartScreenShare => "start_screen_share"@,
            IncomingKind::StopScreenShare => "stop_screen_share"@,
            IncomingKind::SendAnnotation => "send_annotation"@,
            IncomingKind::DeleteAnnotation => "delete_annotation"@,
            IncomingKind::ClearAnnotations => "clear_annotations"@,
            IncomingKind::CursorMove => "cursor_move"@,
            IncomingKind::CursorHide => "cursor_hide"@,
            IncomingKind::SetMicMuted => "set_mic_muted"@,
            IncomingKind::SetCameraEnabled => "set_camera_enabled"@,
            IncomingKind::SetAudioInputDevice => "set_audio_input_device"@,
            IncomingKind::SetVideoInputDevice => "set_video_input_device"@,
            IncomingKind::CheckPermissions => "check_permissions"@,
            IncomingKind::RequestScreenRecordingPermission => "request_screen_recording_permission"@,
            IncomingKind::Ping => "ping"@,
            IncomingKind::Shutdown => "shutdown"@,
        }
    }

    /// The shape that a value of the `"type"` field selects, if any.
    pub open spec fn of_tag(tag: Seq<char>) -> Option<IncomingKind> {
        if exists|kind: IncomingKind| kind.tag() == tag {
            Some(choose|kind: IncomingKind| kind.tag() == tag)
        } else {
            None
        }
    }

    /// The value of the `"type"` field that selects this shape.
    pub fn tag_str(self) -> (name: &'static str)
        ensures
            name@ == self.tag(),
    {
        match self {
            IncomingKind::JoinRoom => "join_room",
            IncomingKind::LeaveRoom => "leave_room",
            IncomingKind::GetAvailableContent => "get_available_content",
            IncomingKind::StartScreenShare => "start_screen_share",
            IncomingKind::StopScreenShare => "stop_screen_share",
            IncomingKind::SendAnnotation => "send_annotation",
            IncomingKind::DeleteAnnotation => "delete_annotation",
            IncomingKind::ClearAnnotations => "clear_annotations",
            IncomingKind::CursorMove => "cursor_move",
            IncomingKind::CursorHide => "cursor_hide",
            IncomingKind::SetMicMuted => "set_mic_muted",
            IncomingKind::SetCameraEnabled => "set_camera_enabled",
            IncomingKind::SetAudioInputDevice => "set_audio_input_device",
            IncomingKind::SetVideoInputDevice => "set_video_input_device",
            IncomingKind::CheckPermissions => "check_permissions",
            IncomingKind::RequestScreenRecordingPermission => "request_screen_recording_permission",
            IncomingKind::Ping => "ping",
            IncomingKind::Shutdown => "shutdown",
        }
    }

    /// The shape that a value of the `"type"` field selects; `None` for a
    /// value that no message has.
    pub fn from_tag(tag: &str) -> (kind: Option<IncomingKind>)
        ensures
            kind == IncomingKind::of_tag(tag@),
    {
        let tag: String = tag.to_owned();
        proof {
            lemma_tags_differ();
        }
        if tag == "join_room".to_owned() {
            assert(IncomingKind::JoinRoom.tag() == tag@);
            return Some(IncomingKind::JoinRoom);
        }
        if tag == "leave_room".to_owned() {
            assert(IncomingKind::LeaveRoom.tag() == tag@);
            return Some(IncomingKind::LeaveRoom);
        }
        if tag == "get_available_content".to_owned() {
            assert(IncomingKind::GetAvailableContent.tag() == tag@);
            return Some(IncomingKind::GetAvailableContent);
        }
        if tag == "start_screen_share".to_owned() {
            assert(IncomingKind::StartScreenShare.tag() == tag@);
            return Some(IncomingKind::StartScreenShare);
        }
        if tag == "stop_screen_share".to_owned() {
            assert(IncomingKind::StopScreenShare.tag() == tag@);
            return Some(IncomingKind::StopScreenShare);
        }
        if tag == "send_annotation".to_owned() {
            assert(IncomingKind::SendAnnotation.tag() == tag@);
            return Some(IncomingKind::SendAnnotation);
        }
        if tag == "delete_annotation".to_owned() {
            assert(IncomingKind::DeleteAnnotation.tag() == tag@);
            return Some(IncomingKind::DeleteAnnotation);
        }
        if tag == "clear_annotations".to_owned() {
            assert(IncomingKind::ClearAnnotations.tag() == tag@);
            return Some(IncomingKind::ClearAnnotations);
        }
        if tag == "cursor_move".to_owned() {
            assert(IncomingKind::CursorMove.tag() == tag@);
            return Some(IncomingKind::CursorMove);
        }
        if tag == "cursor_hide".to_owned() {
            assert(IncomingKind::CursorHide.tag() == tag@);
            return Some(IncomingKind::CursorHide);
        }
        if tag == "set_mic_muted".to_owned() {
            assert(IncomingKind::SetMicMuted.tag() == tag@);
            return Some(IncomingKind::SetMicMuted);
        }
        if tag == "set_camera_enabled".to_owned() {
            assert(IncomingKind::SetCameraEnabled.tag() == tag@);
            return Some(IncomingKind::SetCameraEnabled);
        }
        if tag == "set_audio_input_device".to_owned() {
            assert(IncomingKind::SetAudioInputDevice.tag() == tag@);
            return Some(IncomingKind::SetAudioInputDevice);
        }
        if tag == "set_video_input_device".to_owned() {
            assert(IncomingKind::SetVideoInputDevice.tag() == tag@);
            return Some(IncomingKind::SetVideoInputDevice);
        }
        if tag == "check_permissions".to_owned() {
            assert(IncomingKind::CheckPermissions.tag() == tag@);
            return Some(IncomingKind::CheckPermissions);
        }
        if tag == "request_screen_recording_permission".to_owned() {
            assert(IncomingKind::RequestScreenRecordingPermission.tag() == tag@);
            return Some(IncomingKind::RequestScreenRecordingPermission);
        }
        if tag == "ping".to_owned() {
            assert(IncomingKind::Ping.tag() == tag@);
            return Some(IncomingKind::Ping);
        }
        if tag == "shutdown".to_owned() {
            assert(IncomingKind::Shutdown.tag() == tag@);
            return Some(IncomingKind::Shutdown);
        }
        assert forall|kind: IncomingKind| kind.tag() != tag@ by {
            match kind {
                _ => {},
            }
        }
        None
    }
}

impl IncomingMessageView {
    /// The shape of this message.
    pub open spec fn kind(self) -> IncomingKind {
        match self {
            IncomingMessageView::JoinRoom { .. } => IncomingKind::JoinRoom,
            IncomingMessageView::LeaveRoom => IncomingKind::LeaveRoom,
            IncomingMessageView::GetAvailableContent => IncomingKind::GetAvailableContent,
            IncomingMessageView::StartScreenShare { .. } => IncomingKind::StartScreenShare,
            IncomingMessageView::StopScreenShare => IncomingKind::StopScreenShare,
            IncomingMessageView::SendAnnotation { .. } => IncomingKind::SendAnnotation,
            IncomingMessageView::DeleteAnnotation { .. } => IncomingKind::DeleteAnnotation,
            IncomingMessageView::ClearAnnotations => IncomingKind::ClearAnnotations,
            IncomingMessageView::CursorMove { .. } => IncomingKind::CursorMove,
            IncomingMessageView::CursorHide => IncomingKind::CursorHide,
            IncomingMessageView::SetMicMuted { .. } => IncomingKind::SetMicMuted,
            IncomingMessageView::SetCameraEnabled { .. } => IncomingKind::SetCameraEnabled,
            IncomingMessageView::SetAudioInputDevice { .. } => IncomingKind::SetAudioInputDevice,
            IncomingMessageView::SetVideoInputDevice { .. } => IncomingKind::SetVideoInputDevice,
            IncomingMessageView::CheckPermissions => IncomingKind::CheckPermissions,
            IncomingMessageView::RequestScreenRecordingPermission => IncomingKind::RequestScreenRecordingPermission,
            IncomingMessageView::Ping => IncomingKind::Ping,
            IncomingMessageView::Shutdown => IncomingKind::Shutdown,
        }
    }
}

impl IncomingMessage {
    /// The shape of this message.
    pub fn kind(&self) -> (kind: IncomingKind)
        ensures
            kind == self@.kind(),
    {
        match self {
            IncomingMessage::JoinRoom { .. } => IncomingKind::JoinRoom,
            IncomingMessage::LeaveRoom => IncomingKind::LeaveRoom,
            IncomingMessage::GetAvailableContent => IncomingKind::GetAvailableContent,
            IncomingMessage::StartScreenShare { .. } => IncomingKind::StartScreenShare,
            IncomingMessage::StopScreenShare => IncomingKind::StopScreenShare,
            IncomingMessage::SendAnnotation { .. } => IncomingKind::SendAnnotation,
            IncomingMessage::DeleteAnnotation { .. } => IncomingKind::DeleteAnnotation,
            IncomingMessage::ClearAnnotations => IncomingKind::ClearAnnotations,
            IncomingMessage::CursorMove { .. } => IncomingKind::CursorMove,
            IncomingMessage::CursorHide => IncomingKind::CursorHide,
            IncomingMessage::SetMicMuted { .. } => IncomingKind::SetMicMuted,
            IncomingMessage::SetCameraEnabled { .. } => IncomingKind::SetCameraEnabled,
            IncomingMessage::SetAudioInputDevice { .. } => IncomingKind::SetAudioInputDevice,
            IncomingMessage::SetVideoInputDevice { .. } => IncomingKind::SetVideoInputDevice,
            IncomingMessage::CheckPermissions => IncomingKind::CheckPermissions,
            IncomingMessage::RequestScreenRecordingPermission => IncomingKind::RequestScreenRecordingPermission,
            IncomingMessage::Ping => IncomingKind::Ping,
            IncomingMessage::Shutdown => IncomingKind::Shutdown,
        }
    }
}

/// No two shapes share a tag.
pub proof fn lemma_tags_differ()
    ensures
        forall|a: IncomingKind, b: IncomingKind| a.tag() == b.tag() ==> a == b,
{
    reveal_strlit("join_room");
    reveal_strlit("leave_room");
    reveal_strlit("get_available_content");
    reveal_strlit("start_screen_share");
    reveal_strlit("stop_screen_share");
    reveal_strlit("send_annotation");
    reveal_strlit("delete_annotation");
    reveal_strlit("clear_annotations");
    reveal_strlit("cursor_move");
    reveal_strlit("cursor_hide");
    reveal_strlit("set_mic_muted");
    reveal_strlit("set_camera_enabled");
    reveal_strlit("set_audio_input_device");
    reveal_strlit("set_video_input_device");
    reveal_strlit("check_permissions");
    reveal_strlit("request_screen_recording_permission");
    reveal_strlit("ping");
    reveal_strlit("shutdown");
    assert forall|a: IncomingKind, b: IncomingKind| a.tag() == b.tag() implies a == b by {
        let ta = a.tag();
        let tb = b.tag();
        assert(ta.len() == tb.len());
        assert(ta[0] == tb[0]);
        assert(ta[4] == tb[4]);
        assert(ta[7] == tb[7]);
    }
}

/// The tag of a shape selects that shape and no other.
pub proof fn lemma_tag_selects_kind(kind: IncomingKind)
    ensures
        IncomingKind::of_tag(kind.tag()) == Some(kind),
{
    lemma_tags_differ();
    assert(kind.tag() == kind.tag());
}

/// A tag selects a shape only where it is the tag of that shape.
pub proof fn lemma_known_tag(tag: Seq<char>)
    ensures
        IncomingKind::of_tag(tag) matches Some(kind) ==> kind.tag() == tag,
{
}

/// Every message is sent under the tag of its shape.
pub proof fn lemma_message_tag(message: IncomingMessageView)
    ensures
        message.type_tag() == message.kind().tag(),
        IncomingKind::of_tag(message.type_tag()) == Some(message.kind()),
{
    lemma_tag_selects_kind(message.kind());
}

} // verus!

verus! {

/// The shapes of the messages that participants send each other.
#[derive(Debug, Clone, Copy, PartialEq, Eq, Structural)]
pub enum DataTrackKind {
    StrokeStart,
    StrokeUpdate,
    StrokeComplete,
    StrokeDelete,
    ClearAll,
    CursorMove,
}

impl DataTrackKind {
    /// The value of the `"type"` field that selects this shape.
    pub open spec fn tag(self) -> Seq<char> {
        match self {
            DataTrackKind::StrokeStart => "stroke_start"@,
            DataTrackKind::StrokeUpdate => "stroke_update"@,
            DataTrackKind::StrokeComplete => "stroke_complete"@,
            DataTrackKind::StrokeDelete => "stroke_delete"@,
            DataTrackKind::ClearAll => "clear_all"@,
            DataTrackKind::CursorMove => "cursor_move"@,
        }
    }

    /// The shape that a value of the `"type"` field selects, if any.
    pub open spec fn of_tag(tag: Seq<char>) -> Option<DataTrackKind> {
        if exists|kind: DataTrackKind| kind.tag() == tag {
            Some(choose|kind: DataTrackKind| kind.tag() == tag)
        } else {
            None
        }
    }

    /// The value of the `"type"` field that selects this shape.
    pub fn tag_str(self) -> (name: &'static str)
        ensures
            name@ == self.tag(),
    {
        match self {
            DataTrackKind::StrokeStart => "stroke_start",
            DataTrackKind::StrokeUpdate => "stroke_update",
            DataTrackKind::StrokeComplete => "stroke_complete",
            DataTrackKind::StrokeDelete => "stroke_delete",
            DataTrackKind::ClearAll => "clear_all",
            DataTrackKind::CursorMove => "cursor_move",
        }
    }

    /// The shape that a value of the `"type"` field selects; `None` for a
    /// value that no message has.
    pub fn from_tag(tag: &str) -> (kind: Option<DataTrackKind>)
        ensures
            kind == DataTrackKind::of_tag(tag@),
    {
        let tag: String = tag.to_owned();
        proof {
            lemma_data_tags_differ();
        }
        if tag == "stroke_start".to_owned() {
            assert(DataTrackKind::StrokeStart.tag() == tag@);
            return Some(DataTrackKind::StrokeStart);
        }
        if tag == "stroke_update".to_owned() {
            assert(DataTrackKind::StrokeUpdate.tag() == tag@);
            return Some(DataTrackKind::StrokeUpdate);
        }
        if tag == "stroke_complete".to_owned() {
            assert(DataTrackKind::StrokeComplete.tag() == tag@);
            return Some(DataTrackKind::StrokeComplete);
        }
        if tag == "stroke_delete".to_owned() {
            assert(DataTrackKind::StrokeDelete.tag() == tag@);
            return Some(DataTrackKind::StrokeDelete);
        }
        if tag == "clear_all".to_owned() {
            assert(DataTrackKind::ClearAll.tag() == tag@);
            return Some(DataTrackKind::ClearAll);
        }
        if tag == "cursor_move".to_owned() {
            assert(DataTrackKind::CursorMove.tag() == tag@);
            return Some(DataTrackKind::CursorMove);
        }
        assert forall|kind: DataTrackKind| kind.tag() != tag@ by {
            match kind {
                _ => {},
            }
        }
        None
    }
}

impl DataTrackMessageView {
    /// The shape of this message.
    pub open spec fn kind(self) -> DataTrackKind {
        match self {
            DataTrackMessageView::StrokeStart { .. } => DataTrackKind::StrokeStart,
            DataTrackMessageView::StrokeUpdate { .. } => DataTrackKind::StrokeUpdate,
            DataTrackMessageView::StrokeComplete { .. } => DataTrackKind::StrokeComplete,
            DataTrackMessageView::StrokeDelete { .. } => DataTrackKind::StrokeDelete,
            DataTrackMessageView::ClearAll => DataTrackKind::ClearAll,
            DataTrackMessageView::CursorMove { .. } => DataTrackKind::CursorMove,
        }
    }
}

impl DataTrackMessage {
    /// The shape of this message.
    pub fn kind(&self) -> (kind: DataTrackKind)
        ensures
            kind == self@.kind(),
    {
        match self {
            DataTrackMessage::StrokeStart { .. } => DataTrackKind::StrokeStart,
            DataTrackMessage::StrokeUpdate { .. } => DataTrackKind::StrokeUpdate,
            DataTrackMessage::StrokeComplete { .. } => DataTrackKind::StrokeComplete,
            DataTrackMessage::StrokeDelete { .. } => DataTrackKind::StrokeDelete,
            DataTrackMessage::ClearAll => DataTrackKind::ClearAll,
            DataTrackMessage::CursorMove { .. } => DataTrackKind::CursorMove,
        }
    }
}

/// No two shapes of data messages share a tag.
pub proof fn lemma_data_tags_differ()
    ensures
        forall|a: DataTrackKind, b: DataTrackKind| a.tag() == b.tag() ==> a == b,
{
    reveal_strlit("stroke_start");
    reveal_strlit("stroke_update");
    reveal_strlit("stroke_complete");
    reveal_strlit("stroke_delete");
    reveal_strlit("clear_all");
    reveal_strlit("cursor_move");
    assert forall|a: DataTrackKind, b: DataTrackKind| a.tag() == b.tag() implies a == b by {
        let ta = a.tag();
        let tb = b.tag();
        assert(ta.len() == tb.len());
        assert(ta[7] == tb[7]);
    }
}

/// Every data message is sent under the tag of its shape, and that tag
/// selects its shape and no other.
pub proof fn lemma_data_message_tag(message: DataTrackMessageView)
    ensures
        message.type_tag() == message.kind().tag(),
        DataTrackKind::of_tag(message.type_tag()) == Some(message.kind()),
{
    lemma_data_tags_differ();
    let kind = message.kind();
    assert(kind.tag() == message.type_tag());
}

} // verus!
