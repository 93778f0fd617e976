//! The dispatcher: the one place where the engine's state changes.
//!
//! Every command is handled to the end before the next is looked at. Handling
//! a command changes the state and yields effects: messages for the host UI,
//! commands to take up later, and work for the capture pipeline, the media
//! transport and the overlay. The caller carries the effects out in order.

use vstd::prelude::*;
use vstd::string::*;
use crate::annotation::{AnnotationStore, StoreView, StrokeView};
use crate::annotation_laws::{lemma_op_keeps_wf, StoreOp};
use crate::event::{UserEvent, UserEventView};
use crate::model::{
    text_option, Color, ConnectionState, CursorStyle, ParticipantData, ParticipantDataView,
    RemoteCursor, RemoteCursorView, Scalar, ScreenShareMessage, ScreenShareMessageView,
};
use crate::socket::{OutgoingMessage, OutgoingMessageView};

verus! {

/// What the caller has to do after a command was handled.
#[derive(Debug)]
#[allow(inconsistent_fields)]
pub enum Effect {
    /// Send the message to the host UI; it is lost where no client is
    /// connected.
    Notify(OutgoingMessage),
    /// Put the command at the end of the queue.
    Submit(UserEvent),
    /// List the capturable screens with their thumbnails, off the dispatch
    /// loop, and submit `AvailableContentReady`.
    EnumerateSources,
    /// Publish a track where a room is joined, start the capture, and submit
    /// what `share_outcome` says.
    StartScreenShare(ScreenShareMessage),
    /// Stop the capture session and wait for its worker to end.
    StopCapture,
    /// Take the screen share track back, where one is published.
    UnpublishScreenShare,
    /// Connect to the room, off the dispatch loop, and submit what
    /// `join_outcome` says.
    ConnectRoom { server_url: String, token: String },
    /// Leave the room, where one is joined.
    DisconnectRoom,
    /// Decode the data message and submit its command.
    DecodeData { participant_id: String, payload: Vec<u8> },
    SetMicrophoneMuted(bool),
    SetCameraEnabled(bool),
    SetAudioInputDevice(String),
    SetVideoInputDevice(String),
    /// Redraw the overlay.
    RedrawOverlay,
    SetOverlayVisible(bool),
    SetOverlayBounds { x: i32, y: i32, width: u32, height: u32 },
    /// Create the overlay and report by `overlay_created`.
    CreateOverlay,
    DestroyOverlay,
    /// Observe the platform and submit `PermissionStateChanged`.
    CheckPermissions,
    /// Ask the user for the permission to record the screen, off the
    /// dispatch loop, and submit `PermissionStateChanged`.
    RequestScreenRecordingPermission,
    /// Shut the channel to the host UI down.
    CloseSocket,
    /// Leave the dispatch loop.
    Exit,
}

#[allow(inconsistent_fields)]
pub ghost enum EffectView {
    Notify(OutgoingMessageView),
    Submit(UserEventView),
    EnumerateSources,
    StartScreenShare(ScreenShareMessageView),
    StopCapture,
    UnpublishScreenShare,
    ConnectRoom { server_url: Seq<char>, token: Seq<char> },
    DisconnectRoom,
    DecodeData { participant_id: Seq<char>, payload: Seq<u8> },
    SetMicrophoneMuted(bool),
    SetCameraEnabled(bool),
    SetAudioInputDevice(Seq<char>),
    SetVideoInputDevice(Seq<char>),
    RedrawOverlay,
    SetOverlayVisible(bool),
    SetOverlayBounds { x: i32, y: i32, width: u32, height: u32 },
    CreateOverlay,
    DestroyOverlay,
    CheckPermissions,
    RequestScreenRecordingPermission,
    CloseSocket,
    Exit,
}

impl View for Effect {
    type V = EffectView;

    open spec fn view(&self) -> EffectView {
        match self {
            Effect::Notify(message) => EffectView::Notify(message@),
            Effect::Submit(event) => EffectView::Submit(event@),
            Effect::EnumerateSources => EffectView::EnumerateSources,
            Effect::StartScreenShare(message) => EffectView::StartScreenShare(message@),
            Effect::StopCapture => EffectView::StopCapture,
            Effect::UnpublishScreenShare => EffectView::UnpublishScreenShare,
            Effect::ConnectRoom { server_url, token } => EffectView::ConnectRoom {
                server_url: server_url@,
                token: token@,
            },
            Effect::DisconnectRoom => EffectView::DisconnectRoom,
            Effect::DecodeData { participant_id, payload } => EffectView::DecodeData {
                participant_id: participant_id@,
                payload: payload@,
            },
            Effect::SetMicrophoneMuted(muted) => EffectView::SetMicrophoneMuted(*muted),
            Effect::SetCameraEnabled(enabled) => EffectView::SetCameraEnabled(*enabled),
            Effect::SetAudioInputDevice(device) => EffectView::SetAudioInputDevice(device@),
            Effect::SetVideoInputDevice(device) => EffectView::SetVideoInputDevice(device@),
            Effect::RedrawOverlay => EffectView::RedrawOverlay,
            Effect::SetOverlayVisible(visible) => EffectView::SetOverlayVisible(*visible),
            Effect::SetOverlayBounds { x, y, width, height } => EffectView::SetOverlayBounds {
                x: *x,
                y: *y,
                width: *width,
                height: *height,
            },
            Effect::CreateOverlay => EffectView::CreateOverlay,
            Effect::DestroyOverlay => EffectView::DestroyOverlay,
            Effect::CheckPermissions => EffectView::CheckPermissions,
            Effect::RequestScreenRecordingPermission => EffectView::RequestScreenRecordingPermission,
            Effect::CloseSocket => EffectView::CloseSocket,
            Effect::Exit => EffectView::Exit,
        }
    }
}

impl DeepView for Effect {
    type V = EffectView;

    open spec fn deep_view(&self) -> EffectView {
        self.view()
    }
}

/// Where the first cursor of `id` at or after `from` stands.
pub open spec fn cursor_place(cursors: Seq<RemoteCursorView>, id: Seq<char>, from: int) -> Option<
    int,
>
    decreases cursors.len() - from,
{
    if from < 0 || from >= cursors.len() {
        None
    } else if cursors[from].participant_id == id {
        Some(from)
    } else {
        cursor_place(cursors, id, from + 1)
    }
}

/// Where the first participant of `id` at or after `from` stands.
pub open spec fn participant_place(
    participants: Seq<ParticipantDataView>,
    id: Seq<char>,
    from: int,
) -> Option<int>
    decreases participants.len() - from,
{
    if from < 0 || from >= participants.len() {
        None
    } else if participants[from].id == id {
        Some(from)
    } else {
        participant_place(participants, id, from + 1)
    }
}

/// The view of a participant that may be absent.
pub open spec fn participant_option(participant: Option<ParticipantData>) -> Option<
    ParticipantDataView,
> {
    match participant {
        Some(data) => Some(data@),
        None => None,
    }
}

/// No two participants share an id.
pub open spec fn distinct_participants(participants: Seq<ParticipantDataView>) -> bool {
    forall|i: int, j: int|
        0 <= i < j < participants.len() ==> (#[trigger] participants[i]).id != (
        #[trigger] participants[j]).id
}

/// No two cursors belong to the same participant.
pub open spec fn distinct_cursors(cursors: Seq<RemoteCursorView>) -> bool {
    forall|i: int, j: int|
        0 <= i < j < cursors.len() ==> (#[trigger] cursors[i]).participant_id != (
        #[trigger] cursors[j]).participant_id
}

/// The state of the engine.
pub ghost struct AppView {
    pub store: StoreView,
    /// The cursors of remote participants, in the order of their appearance.
    pub cursors: Seq<RemoteCursorView>,
    pub is_sharing: bool,
    pub shared_source_id: Option<Seq<char>>,
    pub local_participant: Option<ParticipantDataView>,
    /// The participants of the room, in the order of their arrival.
    pub participants: Seq<ParticipantDataView>,
    pub connection_state: ConnectionState,
    pub annotations_enabled: bool,
    /// The overlay exists.
    pub overlay: bool,
    /// No `Terminate` has been handled yet.
    pub running: bool,
}

impl AppView {
    /// The annotation store is well formed, and each participant has one
    /// entry and at most one cursor.
    pub open spec fn wf(self) -> bool {
        &&& self.store.wf()
        &&& distinct_participants(self.participants)
        &&& distinct_cursors(self.cursors)
    }

    /// The state in which the engine starts.
    pub open spec fn initial() -> AppView {
        AppView {
            store: StoreView::empty(),
            cursors: Seq::empty(),
            is_sharing: false,
            shared_source_id: None,
            local_participant: None,
            participants: Seq::empty(),
            connection_state: ConnectionState::Disconnected,
            annotations_enabled: true,
            overlay: false,
            running: true,
        }
    }

    /// The id under which the local participant shares; empty while the
    /// local participant is unknown.
    pub open spec fn sharer_id(self) -> Seq<char> {
        match self.local_participant {
            Some(participant) => participant.id,
            None => Seq::empty(),
        }
    }

    /// The colour for the cursor of a participant: by their place among the
    /// participants, the first colour for a stranger.
    pub open spec fn cursor_color(self, id: Seq<char>) -> Color {
        match participant_place(self.participants, id, 0) {
            Some(i) => Color::palette()[i % 6],
            None => Color::palette()[0],
        }
    }

    /// The state after a participant's cursor moved.
    pub open spec fn with_cursor_position(
        self,
        id: Seq<char>,
        x: Scalar,
        y: Scalar,
        visible: bool,
    ) -> AppView {
        match cursor_place(self.cursors, id, 0) {
            Some(i) => AppView {
                cursors: self.cursors.update(
                    i,
                    RemoteCursorView { x, y, visible, ..self.cursors[i] },
                ),
                ..self
            },
            None => AppView {
                cursors: self.cursors.push(
                    RemoteCursorView {
                        participant_id: id,
                        x,
                        y,
                        visible,
                        style: CursorStyle::Default,
                        color: self.cursor_color(id),
                    },
                ),
                ..self
            },
        }
    }

    /// The state after a participant's cursor changed its style.
    pub open spec fn with_cursor_style(self, id: Seq<char>, style: CursorStyle) -> AppView {
        match cursor_place(self.cursors, id, 0) {
            Some(i) => AppView {
                cursors: self.cursors.update(i, RemoteCursorView { style, ..self.cursors[i] }),
                ..self
            },
            None => self,
        }
    }

    /// The state after a participant joined: a participant of that id is
    /// replaced, a new one comes last.
    pub open spec fn with_participant(self, participant: ParticipantDataView) -> AppView {
        match participant_place(self.participants, participant.id, 0) {
            Some(i) => AppView { participants: self.participants.update(i, participant), ..self },
            None => AppView { participants: self.participants.push(participant), ..self },
        }
    }

    /// The state after a participant left: they and their cursor are gone.
    pub open spec fn without_participant(self, id: Seq<char>) -> AppView {
        AppView {
            participants: match participant_place(self.participants, id, 0) {
                Some(i) => self.participants.remove(i),
                None => self.participants,
            },
            cursors: match cursor_place(self.cursors, id, 0) {
                Some(i) => self.cursors.remove(i),
                None => self.cursors,
            },
            ..self
        }
    }

    /// The state after a command that concerns the annotations or the
    /// cursors, if `event` is one.
    pub open spec fn after_drawing(self, event: UserEventView) -> AppView {
        match event {
            UserEventView::StrokeStart { stroke_id, participant_id, tool, color, start_point } => {
                AppView {
                    store: self.store.started(
                        StrokeView::begun(stroke_id, participant_id, tool, color, start_point),
                    ),
                    ..self
                }
            },
            UserEventView::StrokeUpdate { stroke_id, points } => AppView {
                store: self.store.updated(stroke_id, points),
                ..self
            },
            UserEventView::StrokeComplete { stroke_id } => AppView {
                store: self.store.completed(stroke_id),
                ..self
            },
            UserEventView::StrokeDelete { stroke_id } => AppView {
                store: self.store.deleted(stroke_id),
                ..self
            },
            UserEventView::ClearAllAnnotations => AppView { store: StoreView::empty(), ..self },
            UserEventView::AnnotationPermissionChanged { enabled } => AppView {
                annotations_enabled: enabled,
                ..self
            },
            UserEventView::RemoteCursorPosition { participant_id, x, y, visible } => {
                self.with_cursor_position(participant_id, x, y, visible)
            },
            UserEventView::RemoteCursorStyle { participant_id, style } => self.with_cursor_style(
                participant_id,
                style,
            ),
            _ => self,
        }
    }

    /// The state after a command was handled.
    pub open spec fn after(self, event: UserEventView) -> AppView {
        if !self.running {
            self
        } else {
            match event {
                UserEventView::ScreenShareStateChanged { is_sharing, source_id } => AppView {
                    is_sharing,
                    shared_source_id: source_id,
                    ..self
                },
                UserEventView::LeaveRoom => AppView {
                    participants: Seq::empty(),
                    cursors: Seq::empty(),
                    connection_state: ConnectionState::Disconnected,
                    ..self
                },
                UserEventView::ParticipantConnected(data) => self.with_participant(data),
                UserEventView::ParticipantDisconnected(data) => self.without_participant(data.id),
                UserEventView::ConnectionStateChanged(state) => AppView {
                    connection_state: state,
                    ..self
                },
                UserEventView::RoomConnected { .. } => AppView {
                    connection_state: ConnectionState::Connected,
                    ..self
                },
                UserEventView::DestroyOverlay => AppView { overlay: false, ..self },
                UserEventView::Terminate => AppView { running: false, ..self },
                _ => self.after_drawing(event),
            }
        }
    }

    /// The effects of a command on the capture pipeline and the room.
    pub open spec fn media_effects(self, event: UserEventView, now_ms: u64) -> Seq<EffectView> {
        match event {
            UserEventView::GetAvailableContent => seq![EffectView::EnumerateSources],
            UserEventView::StartScreenShare(message) => seq![EffectView::StartScreenShare(message)],
            UserEventView::StopScreenShare => seq![
                EffectView::StopCapture,
                EffectView::UnpublishScreenShare,
                EffectView::Submit(
                    UserEventView::ScreenShareStateChanged { is_sharing: false, source_id: None },
                ),
            ],
            UserEventView::ScreenShareStateChanged { is_sharing, source_id } => if is_sharing {
                seq![
                    EffectView::Notify(
                        OutgoingMessageView::ScreenShareStarted { sharer_id: self.sharer_id() },
                    ),
                    EffectView::Submit(UserEventView::CreateOverlay),
                ]
            } else {
                seq![
                    EffectView::Notify(OutgoingMessageView::ScreenShareStopped),
                    EffectView::Submit(UserEventView::DestroyOverlay),
                ]
            },
            UserEventView::AvailableContentReady { screens } => seq![
                EffectView::Notify(OutgoingMessageView::AvailableContent { screens }),
            ],
            UserEventView::JoinRoom { server_url, token } => seq![
                EffectView::Submit(
                    UserEventView::ConnectionStateChanged(ConnectionState::Connecting),
                ),
                EffectView::ConnectRoom { server_url, token },
            ],
            UserEventView::LeaveRoom => seq![
                EffectView::DisconnectRoom,
                EffectView::Submit(
                    UserEventView::ConnectionStateChanged(ConnectionState::Disconnected),
                ),
            ],
            UserEventView::ParticipantConnected(data) => seq![
                EffectView::Notify(OutgoingMessageView::ParticipantJoined { participant: data }),
            ],
            UserEventView::ParticipantDisconnected(data) => seq![
                EffectView::Notify(
                    OutgoingMessageView::ParticipantLeft { participant_id: data.id },
                ),
                EffectView::Submit(UserEventView::RequestRedraw),
            ],
            UserEventView::ConnectionStateChanged(state) => seq![
                EffectView::Notify(OutgoingMessageView::ConnectionStateChanged { state }),
            ],
            UserEventView::RoomConnected { .. } => seq![
                EffectView::Notify(
                    OutgoingMessageView::ConnectionStateChanged {
                        state: ConnectionState::Connected,
                    },
                ),
            ],
            UserEventView::DataReceived { participant_id, payload } => seq![
                EffectView::DecodeData { participant_id, payload },
            ],
            UserEventView::SetMicrophoneMuted(muted) => seq![EffectView::SetMicrophoneMuted(muted)],
            UserEventView::SetCameraEnabled(enabled) => seq![EffectView::SetCameraEnabled(enabled)],
            UserEventView::SetAudioInputDevice(device) => seq![
                EffectView::SetAudioInputDevice(device),
            ],
            UserEventView::SetVideoInputDevice(device) => seq![
                EffectView::SetVideoInputDevice(device),
            ],
            UserEventView::VideoFrameReady {
                participant_id,
                track_id,
                frame_data,
                width,
                height,
                format,
            } => seq![
                EffectView::Notify(
                    OutgoingMessageView::VideoFrame {
                        participant_id,
                        track_id,
                        width,
                        height,
                        timestamp: now_ms,
                        format,
                        frame_data,
                    },
                ),
            ],
            _ => Seq::empty(),
        }
    }

    /// The effects of a command on the overlay, the host UI and the process.
    pub open spec fn other_effects(self, event: UserEventView) -> Seq<EffectView> {
        match event {
            UserEventView::StrokeStart { .. } => seq![
                EffectView::Submit(UserEventView::RequestRedraw),
            ],
            UserEventView::StrokeUpdate { .. } => seq![
                EffectView::Submit(UserEventView::RequestRedraw),
            ],
            UserEventView::StrokeComplete { .. } => seq![
                EffectView::Submit(UserEventView::RequestRedraw),
            ],
            UserEventView::StrokeDelete { .. } => seq![
                EffectView::Submit(UserEventView::RequestRedraw),
            ],
            UserEventView::ClearAllAnnotations => seq![
                EffectView::Submit(UserEventView::RequestRedraw),
            ],
            UserEventView::RemoteCursorPosition { .. } => seq![
                EffectView::Submit(UserEventView::RequestRedraw),
            ],
            UserEventView::RemoteCursorStyle { participant_id, .. } => if cursor_place(
                self.cursors,
                participant_id,
                0,
            ) is Some {
                seq![EffectView::Submit(UserEventView::RequestRedraw)]
            } else {
                Seq::empty()
            },
            UserEventView::RequestRedraw => if self.overlay {
                seq![EffectView::RedrawOverlay]
            } else {
                Seq::empty()
            },
            UserEventView::SetOverlayVisible(visible) => if self.overlay {
                seq![EffectView::SetOverlayVisible(visible)]
            } else {
                Seq::empty()
            },
            UserEventView::UpdateOverlayBounds { x, y, width, height } => if self.overlay {
                seq![EffectView::SetOverlayBounds { x, y, width, height }]
            } else {
                Seq::empty()
            },
            UserEventView::CreateOverlay => if self.overlay {
                Seq::empty()
            } else {
                seq![EffectView::CreateOverlay]
            },
            UserEventView::DestroyOverlay => seq![EffectView::DestroyOverlay],
            UserEventView::Error { code, message } => seq![
                EffectView::Notify(OutgoingMessageView::Error { code, message }),
            ],
            UserEventView::CheckPermissions => seq![EffectView::CheckPermissions],
            UserEventView::RequestScreenRecordingPermission => seq![
                EffectView::RequestScreenRecordingPermission,
            ],
            UserEventView::PermissionStateChanged(state) => seq![
                EffectView::Notify(OutgoingMessageView::PermissionState { state }),
            ],
            UserEventView::Terminate => seq![
                EffectView::StopCapture,
                EffectView::DisconnectRoom,
                EffectView::CloseSocket,
                EffectView::Exit,
            ],
            _ => Seq::empty(),
        }
    }

    /// What the caller has to do after a command was handled, in order.
    /// Nothing once `Terminate` has been handled.
    pub open spec fn effects(self, event: UserEventView, now_ms: u64) -> Seq<EffectView> {
        if !self.running {
            Seq::empty()
        } else {
            self.media_effects(event, now_ms) + self.other_effects(event)
        }
    }
}

/// Whether a command concerns the annotations, the cursors, the overlay, the
/// permissions, or reports an error.
pub open spec fn concerns_drawing(event: UserEventView) -> bool {
    ||| event is StrokeStart
    ||| event is StrokeUpdate
    ||| event is StrokeComplete
    ||| event is StrokeDelete
    ||| event is ClearAllAnnotations
    ||| event is AnnotationPermissionChanged
    ||| event is RemoteCursorPosition
    ||| event is RemoteCursorStyle
    ||| event is RequestRedraw
    ||| event is SetOverlayVisible
    ||| event is UpdateOverlayBounds
    ||| event is CreateOverlay
    ||| event is Error
    ||| event is CheckPermissions
    ||| event is RequestScreenRecordingPermission
    ||| event is PermissionStateChanged
}

/// Whether a command changes who is in the room, or how the engine is
/// connected and what it shares.
pub open spec fn concerns_room(event: UserEventView) -> bool {
    ||| event is ScreenShareStateChanged
    ||| event is LeaveRoom
    ||| event is ParticipantConnected
    ||| event is ParticipantDisconnected
    ||| event is ConnectionStateChanged
    ||| event is RoomConnected
}

proof fn lemma_participant_place(participants: Seq<ParticipantDataView>, id: Seq<char>, from: int)
    requires
        0 <= from <= participants.len(),
    ensures
        match participant_place(participants, id, from) {
            Some(i) => from <= i < participants.len() && participants[i].id == id,
            None => forall|k: int| from <= k < participants.len() ==> (
            #[trigger] participants[k]).id != id,
        },
    decreases participants.len() - from,
{
    if from < participants.len() && participants[from].id != id {
        lemma_participant_place(participants, id, from + 1);
    }
}

proof fn lemma_cursor_place(cursors: Seq<RemoteCursorView>, id: Seq<char>, from: int)
    requires
        0 <= from <= cursors.len(),
    ensures
        match cursor_place(cursors, id, from) {
            Some(i) => from <= i < cursors.len() && cursors[i].participant_id == id,
            None => forall|k: int| from <= k < cursors.len() ==> (
            #[trigger] cursors[k]).participant_id != id,
        },
    decreases cursors.len() - from,
{
    if from < cursors.len() && cursors[from].participant_id != id {
        lemma_cursor_place(cursors, id, from + 1);
    }
}

proof fn lemma_participants_stay_distinct(state: AppView, participant: ParticipantDataView)
    requires
        distinct_participants(state.participants),
    ensures
        distinct_participants(state.with_participant(participant).participants),
        distinct_participants(state.without_participant(participant.id).participants),
        forall|k: int|
            0 <= k < state.without_participant(participant.id).participants.len() ==> (
            #[trigger] state.without_participant(participant.id).participants[k]).id
                != participant.id,
{
    let before = state.participants;
    lemma_participant_place(before, participant.id, 0);
    let added = state.with_participant(participant).participants;
    assert forall|i: int, j: int| 0 <= i < j < added.len() implies (#[trigger] added[i]).id != (
    #[trigger] added[j]).id by {
        match participant_place(before, participant.id, 0) {
            Some(at) => {
                assert(before[i].id != before[j].id);
                assert(added[i].id == before[i].id);
                assert(added[j].id == before[j].id);
            },
            None => {
                if j < before.len() {
                    assert(before[i].id != before[j].id);
                } else {
                    assert(before[i].id != participant.id);
                }
            },
        }
    }
    let left = state.without_participant(participant.id).participants;
    match participant_place(before, participant.id, 0) {
        Some(at) => {
            assert forall|k: int| 0 <= k < left.len() implies left[k] == before[if k < at {
                k
            } else {
                k + 1
            }] by {}
            assert forall|i: int, j: int| 0 <= i < j < left.len() implies (#[trigger] left[i]).id
                != (#[trigger] left[j]).id by {
                let i0 = if i < at {
                    i
                } else {
                    i + 1
                };
                let j0 = if j < at {
                    j
                } else {
                    j + 1
                };
                assert(before[i0].id != before[j0].id);
            }
            assert forall|k: int| 0 <= k < left.len() implies (#[trigger] left[k]).id
                != participant.id by {
                let k0 = if k < at {
                    k
                } else {
                    k + 1
                };
                if k0 < at {
                    assert(before[k0].id != before[at].id);
                } else {
                    assert(before[at].id != before[k0].id);
                }
            }
        },
        None => {},
    }
}

proof fn lemma_cursors_stay_distinct(
    state: AppView,
    id: Seq<char>,
    x: Scalar,
    y: Scalar,
    visible: bool,
    style: CursorStyle,
)
    requires
        distinct_cursors(state.cursors),
    ensures
        distinct_cursors(state.with_cursor_position(id, x, y, visible).cursors),
        distinct_cursors(state.with_cursor_style(id, style).cursors),
        distinct_cursors(state.without_participant(id).cursors),
        forall|k: int|
            0 <= k < state.without_participant(id).cursors.len() ==> (
            #[trigger] state.without_participant(id).cursors[k]).participant_id != id,
{
    let before = state.cursors;
    lemma_cursor_place(before, id, 0);
    let moved = state.with_cursor_position(id, x, y, visible).cursors;
    assert forall|i: int, j: int| 0 <= i < j < moved.len() implies (
    #[trigger] moved[i]).participant_id != (#[trigger] moved[j]).participant_id by {
        match cursor_place(before, id, 0) {
            Some(at) => {
                assert(before[i].participant_id != before[j].participant_id);
                assert(moved[i].participant_id == before[i].participant_id);
                assert(moved[j].participant_id == before[j].participant_id);
            },
            None => {
                if j < before.len() {
                    assert(before[i].participant_id != before[j].participant_id);
                } else {
                    assert(before[i].participant_id != id);
                }
            },
        }
    }
    let styled = state.with_cursor_style(id, style).cursors;
    assert forall|i: int, j: int| 0 <= i < j < styled.len() implies (
    #[trigger] styled[i]).participant_id != (#[trigger] styled[j]).participant_id by {
        assert(before[i].participant_id != before[j].participant_id);
        assert(styled[i].participant_id == before[i].participant_id);
        assert(styled[j].participant_id == before[j].participant_id);
    }
    let left = state.without_participant(id).cursors;
    match cursor_place(before, id, 0) {
        Some(at) => {
            assert forall|k: int| 0 <= k < left.len() implies left[k] == before[if k < at {
                k
            } else {
                k + 1
            }] by {}
            assert forall|i: int, j: int| 0 <= i < j < left.len() implies (
            #[trigger] left[i]).participant_id != (#[trigger] left[j]).participant_id by {
                let i0 = if i < at {
                    i
                } else {
                    i + 1
                };
                let j0 = if j < at {
                    j
                } else {
                    j + 1
                };
                assert(before[i0].participant_id != before[j0].participant_id);
            }
            assert forall|k: int| 0 <= k < left.len() implies (#[trigger] left[k]).participant_id
                != id by {
                let k0 = if k < at {
                    k
                } else {
                    k + 1
                };
                if k0 < at {
                    assert(before[k0].participant_id != before[at].participant_id);
                } else {
                    assert(before[at].participant_id != before[k0].participant_id);
                }
            }
        },
        None => {},
    }
}

/// Whatever the command, a well-formed state stays well formed: the
/// annotation store keeps its ids in step, and no participant comes to have
/// two entries or two cursors.
pub proof fn lemma_after_keeps_wf(state: AppView, event: UserEventView)
    requires
        state.wf(),
    ensures
        state.after(event).wf(),
{
    if state.running {
        match event {
            UserEventView::StrokeStart { stroke_id, participant_id, tool, color, start_point } => {
                lemma_op_keeps_wf(
                    state.store,
                    StoreOp::Start { id: stroke_id, participant_id, tool, color, start_point },
                );
            },
            UserEventView::StrokeUpdate { stroke_id, points } => {
                lemma_op_keeps_wf(state.store, StoreOp::Update { id: stroke_id, points });
            },
            UserEventView::StrokeComplete { stroke_id } => {
                lemma_op_keeps_wf(state.store, StoreOp::Complete { id: stroke_id });
            },
            UserEventView::StrokeDelete { stroke_id } => {
                lemma_op_keeps_wf(state.store, StoreOp::Delete { id: stroke_id });
            },
            UserEventView::ClearAllAnnotations => {
                lemma_op_keeps_wf(state.store, StoreOp::ClearAll);
            },
            UserEventView::RemoteCursorPosition { participant_id, x, y, visible } => {
                lemma_cursors_stay_distinct(
                    state,
                    participant_id,
                    x,
                    y,
                    visible,
                    CursorStyle::Default,
                );
            },
            UserEventView::RemoteCursorStyle { participant_id, style } => {
                lemma_cursors_stay_distinct(
                    state,
                    participant_id,
                    Scalar { bits: 0 },
                    Scalar { bits: 0 },
                    false,
                    style,
                );
            },
            UserEventView::ParticipantConnected(data) => {
                lemma_participants_stay_distinct(state, data);
            },
            UserEventView::ParticipantDisconnected(data) => {
                lemma_participants_stay_distinct(state, data);
                lemma_cursors_stay_distinct(
                    state,
                    data.id,
                    Scalar { bits: 0 },
                    Scalar { bits: 0 },
                    false,
                    CursorStyle::Default,
                );
            },
            _ => {},
        }
    }
}

/// A participant who left is gone: after `ParticipantDisconnected`, no
/// participant and no cursor has their id.
pub proof fn lemma_departed_is_gone(state: AppView, departed: ParticipantDataView)
    requires
        state.wf(),
        state.running,
    ensures
        forall|k: int|
            0 <= k < state.after(
                UserEventView::ParticipantDisconnected(departed),
            ).participants.len() ==> (#[trigger] state.after(
                UserEventView::ParticipantDisconnected(departed),
            ).participants[k]).id != departed.id,
        forall|k: int|
            0 <= k < state.after(UserEventView::ParticipantDisconnected(departed)).cursors.len()
                ==> (#[trigger] state.after(
                UserEventView::ParticipantDisconnected(departed),
            ).cursors[k]).participant_id != departed.id,
{
    lemma_participants_stay_distinct(state, departed);
    lemma_cursors_stay_distinct(
        state,
        departed.id,
        Scalar { bits: 0 },
        Scalar { bits: 0 },
        false,
        CursorStyle::Default,
    );
}

/// The engine's state, behind its dispatcher.
pub struct Application {
    annotation_store: AnnotationStore,
    remote_cursors: Vec<RemoteCursor>,
    is_sharing: bool,
    shared_source_id: Option<String>,
    local_participant: Option<ParticipantData>,
    participants: Vec<ParticipantData>,
    connection_state: ConnectionState,
    annotations_enabled: bool,
    overlay: bool,
    running: bool,
}

impl View for Application {
    type V = AppView;

    closed spec fn view(&self) -> AppView {
        AppView {
            store: self.annotation_store@,
            cursors: self.remote_cursors.deep_view(),
            is_sharing: self.is_sharing,
            shared_source_id: text_option(self.shared_source_id),
            local_participant: participant_option(self.local_participant),
            participants: self.participants.deep_view(),
            connection_state: self.connection_state,
            annotations_enabled: self.annotations_enabled,
            overlay: self.overlay,
            running: self.running,
        }
    }
}

fn cursor_index(cursors: &Vec<RemoteCursor>, id: &String) -> (place: Option<usize>)
    ensures
        match place {
            Some(i) => i < cursors.len() && cursor_place(cursors.deep_view(), id@, 0) == Some(
                i as int,
            ),
            None => cursor_place(cursors.deep_view(), id@, 0) is None,
        },
{
    let mut i: usize = 0;
    let ghost views = cursors.deep_view();
    while i < cursors.len()
        invariant
            i <= cursors.len(),
            views == cursors.deep_view(),
            cursor_place(views, id@, 0) == cursor_place(views, id@, i as int),
        decreases cursors.len() - i,
    {
        assert(views[i as int] == cursors[i as int]@);
        if cursors[i].participant_id == *id {
            return Some(i);
        }
        i = i + 1;
    }
    None
}

fn participant_index(participants: &Vec<ParticipantData>, id: &String) -> (place: Option<usize>)
    ensures
        match place {
            Some(i) => i < participants.len() && participant_place(
                participants.deep_view(),
                id@,
                0,
            ) == Some(i as int),
            None => participant_place(participants.deep_view(), id@, 0) is None,
        },
{
    let mut i: usize = 0;
    let ghost views = participants.deep_view();
    while i < participants.len()
        invariant
            i <= participants.len(),
            views == participants.deep_view(),
            participant_place(views, id@, 0) == participant_place(views, id@, i as int),
        decreases participants.len() - i,
    {
        assert(views[i as int] == participants[i as int]@);
        if participants[i].id == *id {
            return Some(i);
        }
        i = i + 1;
    }
    None
}

impl Application {
    /// The annotation store is consistent.
    spec fn inv(&self) -> bool {
        self.annotation_store.wf()
    }

    /// The annotation store is consistent, and each participant has one
    /// entry and at most one cursor.
    pub closed spec fn wf(&self) -> bool {
        self.inv() && self@.wf()
    }

    /// The engine as it starts.
    pub fn new() -> (app: Self)
        ensures
            app.wf(),
            app@.wf(),
            app@ == AppView::initial(),
    {
        let app = Application {
            annotation_store: AnnotationStore::new(),
            remote_cursors: Vec::new(),
            is_sharing: false,
            shared_source_id: None,
            local_participant: None,
            participants: Vec::new(),
            connection_state: ConnectionState::Disconnected,
            annotations_enabled: true,
            overlay: false,
            running: true,
        };
        proof {
            assert(app.remote_cursors.deep_view() =~= Seq::empty());
            assert(app.participants.deep_view() =~= Seq::empty());
        }
        app
    }

    /// Makes the local participant known.
    pub fn set_local_participant(&mut self, participant: ParticipantData)
        requires
            old(self).wf(),
        ensures
            final(self).wf(),
            final(self)@ == (AppView { local_participant: Some(participant@), ..old(self)@ }),
    {
        self.local_participant = Some(participant);
    }

    /// Takes in whether the overlay could be created.
    pub fn overlay_created(&mut self, created: bool)
        requires
            old(self).wf(),
        ensures
            final(self).wf(),
            final(self)@ == (AppView { overlay: old(self)@.overlay || created, ..old(self)@ }),
    {
        if created {
            self.overlay = true;
        }
    }

    pub fn annotation_store(&self) -> (store: &AnnotationStore)
        requires
            self.wf(),
        ensures
            store.wf(),
            store@ == self@.store,
    {
        &self.annotation_store
    }

    pub fn remote_cursors(&self) -> (cursors: &Vec<RemoteCursor>)
        ensures
            cursors.deep_view() == self@.cursors,
    {
        &self.remote_cursors
    }

    pub fn participants(&self) -> (participants: &Vec<ParticipantData>)
        ensures
            participants.deep_view() == self@.participants,
    {
        &self.participants
    }

    pub fn is_sharing(&self) -> (b: bool)
        ensures
            b == self@.is_sharing,
    {
        self.is_sharing
    }

    pub fn connection_state(&self) -> (state: ConnectionState)
        ensures
            state == self@.connection_state,
    {
        self.connection_state
    }

    pub fn annotations_enabled(&self) -> (b: bool)
        ensures
            b == self@.annotations_enabled,
    {
        self.annotations_enabled
    }

    pub fn has_overlay(&self) -> (b: bool)
        ensures
            b == self@.overlay,
    {
        self.overlay
    }

    /// Whether commands are still handled: no `Terminate` has been yet.
    pub fn is_running(&self) -> (b: bool)
        ensures
            b == self@.running,
    {
        self.running
    }

    fn sharer_id(&self) -> (id: String)
        ensures
            id@ == self@.sharer_id(),
    {
        match &self.local_participant {
            Some(participant) => participant.id.clone(),
            None => String::new(),
        }
    }

    fn cursor_color(&self, id: &String) -> (color: Color)
        ensures
            color == self@.cursor_color(id@),
    {
        match participant_index(&self.participants, id) {
            Some(i) => Color::for_index(i),
            None => Color::for_index(0),
        }
    }

    fn move_cursor(&mut self, participant_id: String, x: Scalar, y: Scalar, visible: bool)
        requires
            old(self).inv(),
        ensures
            final(self).inv(),
            final(self)@ == old(self)@.with_cursor_position(participant_id@, x, y, visible),
    {
        let ghost before = self.remote_cursors.deep_view();
        match cursor_index(&self.remote_cursors, &participant_id) {
            Some(i) => {
                let mut cursor = self.remote_cursors.remove(i);
                cursor.x = x;
                cursor.y = y;
                cursor.visible = visible;
                let ghost moved = cursor@;
                self.remote_cursors.insert(i, cursor);
                assert(self.remote_cursors.deep_view() =~= before.update(i as int, moved));
            },
            None => {
                let color = self.cursor_color(&participant_id);
                let cursor = RemoteCursor {
                    participant_id,
                    x,
                    y,
                    visible,
                    style: CursorStyle::Default,
                    color,
                };
                let ghost added = cursor@;
                self.remote_cursors.push(cursor);
                assert(self.remote_cursors.deep_view() =~= before.push(added));
            },
        }
    }

    fn style_cursor(&mut self, participant_id: &String, style: CursorStyle) -> (found: bool)
        requires
            old(self).inv(),
        ensures
            final(self).inv(),
            final(self)@ == old(self)@.with_cursor_style(participant_id@, style),
            found == (cursor_place(old(self)@.cursors, participant_id@, 0) is Some),
    {
        let ghost before = self.remote_cursors.deep_view();
        match cursor_index(&self.remote_cursors, participant_id) {
            Some(i) => {
                let mut cursor = self.remote_cursors.remove(i);
                cursor.style = style;
                let ghost styled = cursor@;
                self.remote_cursors.insert(i, cursor);
                assert(self.remote_cursors.deep_view() =~= before.update(i as int, styled));
                true
            },
            None => false,
        }
    }

    fn admit_participant(&mut self, participant: ParticipantData)
        requires
            old(self).inv(),
        ensures
            final(self).inv(),
            final(self)@ == old(self)@.with_participant(participant@),
    {
        let ghost before = self.participants.deep_view();
        let ghost view = participant@;
        match participant_index(&self.participants, &participant.id) {
            Some(i) => {
                let _replaced = self.participants.remove(i);
                self.participants.insert(i, participant);
                assert(self.participants.deep_view() =~= before.update(i as int, view));
            },
            None => {
                self.participants.push(participant);
                assert(self.participants.deep_view() =~= before.push(view));
            },
        }
    }

    fn dismiss_participant(&mut self, id: &String)
        requires
            old(self).inv(),
        ensures
            final(self).inv(),
            final(self)@ == old(self)@.without_participant(id@),
    {
        let ghost participants_before = self.participants.deep_view();
        let ghost cursors_before = self.remote_cursors.deep_view();
        match participant_index(&self.participants, id) {
            Some(i) => {
                let _gone = self.participants.remove(i);
                assert(self.participants.deep_view() =~= participants_before.remove(i as int));
            },
            None => {},
        }
        match cursor_index(&self.remote_cursors, id) {
            Some(i) => {
                let _gone = self.remote_cursors.remove(i);
                assert(self.remote_cursors.deep_view() =~= cursors_before.remove(i as int));
            },
            None => {},
        }
    }

    /// Handles a command that concerns the annotations or the cursors.
    fn handle_drawing(&mut self, event: UserEvent) -> (effects: Vec<Effect>)
        requires
            old(self).inv(),
            old(self)@.running,
            concerns_drawing(event@),
        ensures
            final(self).inv(),
            final(self)@ == old(self)@.after_drawing(event@),
            effects.deep_view() == old(self)@.other_effects(event@),
    {
        let mut effects: Vec<Effect> = Vec::new();
        let ghost ev = event@;
        match event {
            UserEvent::StrokeStart { stroke_id, participant_id, tool, color, start_point } => {
                self.annotation_store.start_stroke(
                    stroke_id.as_str(),
                    participant_id.as_str(),
                    tool,
                    color,
                    start_point,
                );
                effects.push(Effect::Submit(UserEvent::RequestRedraw));
            },
            UserEvent::StrokeUpdate { stroke_id, points } => {
                self.annotation_store.update_stroke(stroke_id.as_str(), points.as_slice());
                effects.push(Effect::Submit(UserEvent::RequestRedraw));
            },
            UserEvent::StrokeComplete { stroke_id } => {
                self.annotation_store.complete_stroke(stroke_id.as_str());
                effects.push(Effect::Submit(UserEvent::RequestRedraw));
            },
            UserEvent::StrokeDelete { stroke_id } => {
                self.annotation_store.delete_stroke(stroke_id.as_str());
                effects.push(Effect::Submit(UserEvent::RequestRedraw));
            },
            UserEvent::ClearAllAnnotations => {
                self.annotation_store.clear_all();
                effects.push(Effect::Submit(UserEvent::RequestRedraw));
            },
            UserEvent::AnnotationPermissionChanged { enabled } => {
                self.annotations_enabled = enabled;
            },
            UserEvent::RemoteCursorPosition { participant_id, x, y, visible } => {
                self.move_cursor(participant_id, x, y, visible);
                effects.push(Effect::Submit(UserEvent::RequestRedraw));
            },
            UserEvent::RemoteCursorStyle { participant_id, style } => {
                if self.style_cursor(&participant_id, style) {
                    effects.push(Effect::Submit(UserEvent::RequestRedraw));
                }
            },
            UserEvent::RequestRedraw => {
                if self.overlay {
                    effects.push(Effect::RedrawOverlay);
                }
            },
            UserEvent::SetOverlayVisible(visible) => {
                if self.overlay {
                    effects.push(Effect::SetOverlayVisible(visible));
                }
            },
            UserEvent::UpdateOverlayBounds { x, y, width, height } => {
                if self.overlay {
                    effects.push(Effect::SetOverlayBounds { x, y, width, height });
                }
            },
            UserEvent::CreateOverlay => {
                if !self.overlay {
                    effects.push(Effect::CreateOverlay);
                }
            },
            UserEvent::Error { code, message } => {
                effects.push(Effect::Notify(OutgoingMessage::Error { code, message }));
            },
            UserEvent::CheckPermissions => {
                effects.push(Effect::CheckPermissions);
            },
            UserEvent::RequestScreenRecordingPermission => {
                effects.push(Effect::RequestScreenRecordingPermission);
            },
            UserEvent::PermissionStateChanged(state) => {
                effects.push(Effect::Notify(OutgoingMessage::PermissionState { state }));
            },
            _ => {},
        }
        assert(effects.deep_view() =~= old(self)@.other_effects(ev));
        effects
    }

    /// Handles a command that changes who is in the room, or how the engine
    /// is connected and what it shares.
    fn handle_room(&mut self, event: UserEvent) -> (effects: Vec<Effect>)
        requires
            old(self).inv(),
            old(self)@.running,
            concerns_room(event@),
        ensures
            final(self).inv(),
            final(self)@ == old(self)@.after(event@),
            effects.deep_view() == old(self)@.media_effects(event@, 0),
    {
        let mut effects: Vec<Effect> = Vec::new();
        let ghost ev = event@;
        match event {
            UserEvent::ScreenShareStateChanged { is_sharing, source_id } => {
                self.is_sharing = is_sharing;
                self.shared_source_id = source_id;
                if is_sharing {
                    let sharer_id = self.sharer_id();
                    effects.push(Effect::Notify(OutgoingMessage::ScreenShareStarted { sharer_id }));
                    effects.push(Effect::Submit(UserEvent::CreateOverlay));
                } else {
                    effects.push(Effect::Notify(OutgoingMessage::ScreenShareStopped));
                    effects.push(Effect::Submit(UserEvent::DestroyOverlay));
                }
            },
            UserEvent::LeaveRoom => {
                self.participants.clear();
                self.remote_cursors.clear();
                self.connection_state = ConnectionState::Disconnected;
                effects.push(Effect::DisconnectRoom);
                effects.push(
                    Effect::Submit(
                        UserEvent::ConnectionStateChanged(ConnectionState::Disconnected),
                    ),
                );
                proof {
                    assert(self.participants.deep_view() =~= Seq::empty());
                    assert(self.remote_cursors.deep_view() =~= Seq::empty());
                }
            },
            UserEvent::ParticipantConnected(data) => {
                let copy = data.clone();
                self.admit_participant(copy);
                effects.push(Effect::Notify(OutgoingMessage::ParticipantJoined { participant: data }));
            },
            UserEvent::ParticipantDisconnected(data) => {
                self.dismiss_participant(&data.id);
                effects.push(
                    Effect::Notify(OutgoingMessage::ParticipantLeft { participant_id: data.id }),
                );
                effects.push(Effect::Submit(UserEvent::RequestRedraw));
            },
            UserEvent::ConnectionStateChanged(state) => {
                self.connection_state = state;
                effects.push(Effect::Notify(OutgoingMessage::ConnectionStateChanged { state }));
            },
            UserEvent::RoomConnected { room_name } => {
                self.connection_state = ConnectionState::Connected;
                effects.push(
                    Effect::Notify(
                        OutgoingMessage::ConnectionStateChanged {
                            state: ConnectionState::Connected,
                        },
                    ),
                );
            },
            _ => {},
        }
        assert(effects.deep_view() =~= old(self)@.media_effects(ev, 0));
        effects
    }

    /// The effects of a command that leaves the state as it is.
    fn relay(&self, event: UserEvent, now_ms: u64) -> (effects: Vec<Effect>)
        requires
            !concerns_room(event@),
        ensures
            effects.deep_view() == self@.media_effects(event@, now_ms),
    {
        let mut effects: Vec<Effect> = Vec::new();
        let ghost ev = event@;
        match event {
            UserEvent::GetAvailableContent => {
                effects.push(Effect::EnumerateSources);
            },
            UserEvent::StartScreenShare(message) => {
                effects.push(Effect::StartScreenShare(message));
            },
            UserEvent::StopScreenShare => {
                effects.push(Effect::StopCapture);
                effects.push(Effect::UnpublishScreenShare);
                effects.push(
                    Effect::Submit(
                        UserEvent::ScreenShareStateChanged { is_sharing: false, source_id: None },
                    ),
                );
            },
            UserEvent::AvailableContentReady { screens } => {
                effects.push(Effect::Notify(OutgoingMessage::AvailableContent { screens }));
            },
            UserEvent::JoinRoom { server_url, token } => {
                effects.push(
                    Effect::Submit(UserEvent::ConnectionStateChanged(ConnectionState::Connecting)),
                );
                effects.push(Effect::ConnectRoom { server_url, token });
            },
            UserEvent::DataReceived { participant_id, payload } => {
                effects.push(Effect::DecodeData { participant_id, payload });
            },
            UserEvent::SetMicrophoneMuted(muted) => {
                effects.push(Effect::SetMicrophoneMuted(muted));
            },
            UserEvent::SetCameraEnabled(enabled) => {
                effects.push(Effect::SetCameraEnabled(enabled));
            },
            UserEvent::SetAudioInputDevice(device) => {
                effects.push(Effect::SetAudioInputDevice(device));
            },
            UserEvent::SetVideoInputDevice(device) => {
                effects.push(Effect::SetVideoInputDevice(device));
            },
            UserEvent::VideoFrameReady {
                participant_id,
                track_id,
                frame_data,
                width,
                height,
                format,
            } => {
                effects.push(
                    Effect::Notify(
                        OutgoingMessage::VideoFrame {
                            participant_id,
                            track_id,
                            width,
                            height,
                            timestamp: now_ms,
                            format,
                            frame_data,
                        },
                    ),
                );
            },
            _ => {},
        }
        assert(effects.deep_view() =~= self@.media_effects(ev, now_ms));
        effects
    }

    /// Handles one command: the state changes as the command says, and the
    /// effects are what the caller has to carry out, in order. `now_ms` is the
    /// time of handling, in milliseconds since the epoch; it stamps relayed
    /// frames. Once `Terminate` has been handled, commands change nothing and
    /// have no effect.
    pub fn handle_user_event(&mut self, event: UserEvent, now_ms: u64) -> (effects: Vec<Effect>)
        requires
            old(self).wf(),
        ensures
            final(self).wf(),
            final(self)@.wf(),
            final(self)@ == old(self)@.after(event@),
            effects.deep_view() == old(self)@.effects(event@, now_ms),
    {
        proof {
            lemma_after_keeps_wf(old(self)@, event@);
        }
        if !self.running {
            let effects: Vec<Effect> = Vec::new();
            assert(effects.deep_view() =~= Seq::empty());
            return effects;
        }
        let ghost ev = event@;
        match event {
            UserEvent::StrokeStart { .. }
            | UserEvent::StrokeUpdate { .. }
            | UserEvent::StrokeComplete { .. }
            | UserEvent::StrokeDelete { .. }
            | UserEvent::ClearAllAnnotations
            | UserEvent::AnnotationPermissionChanged { .. }
            | UserEvent::RemoteCursorPosition { .. }
            | UserEvent::RemoteCursorStyle { .. }
            | UserEvent::RequestRedraw
            | UserEvent::SetOverlayVisible(_)
            | UserEvent::UpdateOverlayBounds { .. }
            | UserEvent::CreateOverlay
            | UserEvent::Error { .. }
            | UserEvent::CheckPermissions
            | UserEvent::RequestScreenRecordingPermission
            | UserEvent::PermissionStateChanged(_) => {
                let effects = self.handle_drawing(event);
                assert(effects.deep_view() =~= old(self)@.effects(ev, now_ms));
                effects
            },
            UserEvent::DestroyOverlay => {
                self.overlay = false;
                let mut effects: Vec<Effect> = Vec::new();
                effects.push(Effect::DestroyOverlay);
                assert(effects.deep_view() =~= old(self)@.effects(ev, now_ms));
                effects
            },
            UserEvent::Terminate => {
                self.running = false;
                let mut effects: Vec<Effect> = Vec::new();
                effects.push(Effect::StopCapture);
                effects.push(Effect::DisconnectRoom);
                effects.push(Effect::CloseSocket);
                effects.push(Effect::Exit);
                assert(effects.deep_view() =~= old(self)@.effects(ev, now_ms));
                effects
            },
            UserEvent::ScreenShareStateChanged { .. }
            | UserEvent::LeaveRoom
            | UserEvent::ParticipantConnected(_)
            | UserEvent::ParticipantDisconnected(_)
            | UserEvent::ConnectionStateChanged(_)
            | UserEvent::RoomConnected { .. } => {
                let effects = self.handle_room(event);
                assert(effects.deep_view() =~= old(self)@.effects(ev, now_ms));
                effects
            },
            other => {
                let effects = self.relay(other, now_ms);
                assert(effects.deep_view() =~= old(self)@.effects(ev, now_ms));
                effects
            },
        }
    }
}

/// Only `Terminate` ends the handling of commands: every other command,
/// whatever it reports, leaves the engine running.
pub proof fn lemma_only_terminate_stops(state: AppView, event: UserEventView, now_ms: u64)
    requires
        state.running,
    ensures
        state.after(event).running <==> !(event is Terminate),
        event is Terminate ==> state.effects(event, now_ms).last() == EffectView::Exit,
        !(event is Terminate) ==> forall|i: int|
            0 <= i < state.effects(event, now_ms).len() ==> (#[trigger] state.effects(
                event,
                now_ms,
            )[i]) != EffectView::Exit,
{
}

/// Once `Terminate` has been handled, no command changes the state or has
/// an effect.
pub proof fn lemma_terminated_is_inert(state: AppView, event: UserEventView, now_ms: u64)
    requires
        !state.running,
    ensures
        state.after(event) == state,
        state.effects(event, now_ms) == Seq::<EffectView>::empty(),
{
}

/// What the host UI is to know, it is told: a change of the connection, of
/// the share, or of who is in the room goes out as a message, and so does
/// every error.
pub proof fn lemma_changes_are_mirrored(state: AppView, event: UserEventView, now_ms: u64)
    requires
        state.running,
    ensures
        event matches UserEventView::ConnectionStateChanged(connection) ==> state.effects(
            event,
            now_ms,
        )[0] == EffectView::Notify(
            OutgoingMessageView::ConnectionStateChanged { state: connection },
        ),
        event matches UserEventView::ScreenShareStateChanged { is_sharing, .. } ==> state.effects(
            event,
            now_ms,
        )[0] == EffectView::Notify(
            if is_sharing {
                OutgoingMessageView::ScreenShareStarted { sharer_id: state.sharer_id() }
            } else {
                OutgoingMessageView::ScreenShareStopped
            },
        ),
        event matches UserEventView::ParticipantConnected(data) ==> state.effects(event, now_ms)[0]
            == EffectView::Notify(OutgoingMessageView::ParticipantJoined { participant: data }),
        event matches UserEventView::ParticipantDisconnected(data) ==> state.effects(
            event,
            now_ms,
        )[0] == EffectView::Notify(
            OutgoingMessageView::ParticipantLeft { participant_id: data.id },
        ),
        event matches UserEventView::Error { code, message } ==> state.effects(event, now_ms)
            == seq![EffectView::Notify(OutgoingMessageView::Error { code, message })],
{
    match event {
        UserEventView::Error { code, message } => {
            assert(state.effects(event, now_ms) =~= seq![
                EffectView::Notify(OutgoingMessageView::Error { code, message }),
            ]);
        },
        _ => {},
    }
}

impl Default for Application {
    fn default() -> (app: Self)
        ensures
            app.wf(),
            app@ == AppView::initial(),
    {
        Application::new()
    }
}

} // verus!
