//! Tests for the socket protocol: how messages are written, and what
//! inbound messages mean.

use base64::Engine;
use nameless_core::socket::connection::{Channel, ChannelAction, ChannelPhase};
use nameless_core::socket::kind::{DataTrackKind, IncomingKind};
use nameless_core::text::decimal;
use nameless_core::socket::{handle_message, DataTrackMessage, IncomingMessage, OutgoingMessage};
use nameless_core::{
    AnnotationTool, CaptureConfig, Color, ConnectionState, FrameFormat, ParticipantData,
    ParticipantRole, PermissionState, PermissionStatus, Point, Scalar, ScreenInfo, SourceType,
    UserEvent,
};

fn scalar(v: f32) -> Scalar {
    Scalar { bits: v.to_bits() }
}

// ============================================================================
// OutgoingMessage Tests (Core -> WebView)
// ============================================================================

#[test]
fn test_serialize_available_content() {
    let msg = OutgoingMessage::AvailableContent {
        screens: vec![ScreenInfo {
            id: "screen-0".to_string(),
            name: "Primary Display".to_string(),
            x: 0,
            y: 0,
            width: 1920,
            height: 1080,
            is_primary: true,
            thumbnail: None,
        }],
    };

    let json = msg.to_json();
    assert!(json.contains("\"type\":\"available_content\""));
    assert!(json.contains("\"screens\""));
    assert!(json.contains("\"is_primary\":true"));
}

#[test]
fn test_serialize_participant_joined() {
    let msg = OutgoingMessage::ParticipantJoined {
        participant: ParticipantData {
            id: "participant-123".to_string(),
            name: "Alice".to_string(),
            is_local: false,
            role: ParticipantRole::Participant,
        },
    };

    let json = msg.to_json();
    assert!(json.contains("\"type\":\"participant_joined\""));
    assert!(json.contains("\"id\":\"participant-123\""));
    assert!(json.contains("\"name\":\"Alice\""));
}

#[test]
fn test_serialize_participant_left() {
    let msg = OutgoingMessage::ParticipantLeft { participant_id: "participant-456".to_string() };

    let json = msg.to_json();
    assert!(json.contains("\"type\":\"participant_left\""));
    assert!(json.contains("\"participant_id\":\"participant-456\""));
}

#[test]
fn test_serialize_connection_state_changed() {
    let msg = OutgoingMessage::ConnectionStateChanged { state: ConnectionState::Connected };

    let json = msg.to_json();
    assert!(json.contains("\"type\":\"connection_state_changed\""));
    assert!(json.contains("\"state\":\"connected\""));
}

#[test]
fn test_serialize_screen_share_started() {
    let msg = OutgoingMessage::ScreenShareStarted { sharer_id: "participant-123".to_string() };

    let json = msg.to_json();
    assert!(json.contains("\"type\":\"screen_share_started\""));
    assert!(json.contains("\"sharer_id\":\"participant-123\""));
}

#[test]
fn test_serialize_screen_share_stopped() {
    let msg = OutgoingMessage::ScreenShareStopped;

    let json = msg.to_json();
    assert!(json.contains("\"type\":\"screen_share_stopped\""));
}

#[test]
fn test_serialize_video_frame() {
    let msg = OutgoingMessage::VideoFrame {
        participant_id: "participant-123".to_string(),
        track_id: "track-456".to_string(),
        width: 1920,
        height: 1080,
        timestamp: 1234567890,
        format: FrameFormat::Jpeg,
        frame_data: vec![0xFF, 0xD8, 0xFF], // JPEG header
    };

    let json = msg.to_json();
    assert!(json.contains("\"type\":\"video_frame\""));
    assert!(json.contains("\"width\":1920"));
    assert!(json.contains("\"height\":1080"));
    assert!(json.contains("\"format\":\"jpeg\""));
    // frame_data should be base64 encoded
    assert!(json.contains("\"frame_data\":"));
}

#[test]
fn test_serialize_permission_state() {
    let msg = OutgoingMessage::PermissionState {
        state: PermissionState {
            screen_recording: PermissionStatus::Granted,
            microphone: PermissionStatus::Granted,
            camera: PermissionStatus::NotDetermined,
            accessibility: PermissionStatus::NotApplicable,
        },
    };

    let json = msg.to_json();
    assert!(json.contains("\"type\":\"permission_state\""));
    assert!(json.contains("\"screen_recording\":\"granted\""));
    assert!(json.contains("\"camera\":\"not_determined\""));
}

#[test]
fn test_serialize_pong() {
    let msg = OutgoingMessage::Pong;

    let json = msg.to_json();
    assert!(json.contains("\"type\":\"pong\""));
}

#[test]
fn test_serialize_error() {
    let msg = OutgoingMessage::Error {
        code: "ROOM_CONNECTION_FAILED".to_string(),
        message: "Failed to connect to room: timeout".to_string(),
    };

    let json = msg.to_json();
    assert!(json.contains("\"type\":\"error\""));
    assert!(json.contains("\"code\":\"ROOM_CONNECTION_FAILED\""));
    assert!(json.contains("\"message\":\"Failed to connect to room: timeout\""));
}

// ============================================================================
// The wire format, exactly
// ============================================================================

fn all_outgoing() -> Vec<(OutgoingMessage, &'static str)> {
    vec![
        (OutgoingMessage::AvailableContent { screens: vec![] }, "available_content"),
        (
            OutgoingMessage::ParticipantJoined {
                participant: ParticipantData {
                    id: "a".to_string(),
                    name: "b".to_string(),
                    is_local: true,
                    role: ParticipantRole::Host,
                },
            },
            "participant_joined",
        ),
        (OutgoingMessage::ParticipantLeft { participant_id: "a".to_string() }, "participant_left"),
        (
            OutgoingMessage::ConnectionStateChanged { state: ConnectionState::Reconnecting },
            "connection_state_changed",
        ),
        (OutgoingMessage::ScreenShareStarted { sharer_id: String::new() }, "screen_share_started"),
        (OutgoingMessage::ScreenShareStopped, "screen_share_stopped"),
        (
            OutgoingMessage::VideoFrame {
                participant_id: "p".to_string(),
                track_id: "t".to_string(),
                width: 2,
                height: 1,
                timestamp: 0,
                format: FrameFormat::Nv12,
                frame_data: vec![],
            },
            "video_frame",
        ),
        (
            OutgoingMessage::PermissionState {
                state: PermissionState {
                    screen_recording: PermissionStatus::Denied,
                    microphone: PermissionStatus::Restricted,
                    camera: PermissionStatus::NotApplicable,
                    accessibility: PermissionStatus::Granted,
                },
            },
            "permission_state",
        ),
        (OutgoingMessage::Pong, "pong"),
        (OutgoingMessage::Error { code: "c".to_string(), message: "m".to_string() }, "error"),
    ]
}

#[test]
fn every_outgoing_message_leads_with_its_type() {
    for (message, tag) in all_outgoing() {
        assert_eq!(message.type_tag(), tag);
        let json = message.to_json();
        assert!(json.starts_with(&format!("{{\"type\":\"{}\"", tag)), "{}", json);
        let value: serde_json::Value = serde_json::from_str(&json).unwrap();
        assert_eq!(value["type"].as_str(), Some(tag));
        let line = message.to_line();
        assert_eq!(line, format!("{}\n", json));
        assert_eq!(line.matches('\n').count(), 1);
    }
}

#[test]
fn outgoing_messages_are_written_exactly() {
    assert_eq!(OutgoingMessage::Pong.to_json(), "{\"type\":\"pong\"}");
    assert_eq!(
        OutgoingMessage::ScreenShareStopped.to_line(),
        "{\"type\":\"screen_share_stopped\"}\n"
    );
    assert_eq!(
        OutgoingMessage::AvailableContent { screens: vec![] }.to_json(),
        "{\"type\":\"available_content\",\"screens\":[]}"
    );
    let two = OutgoingMessage::AvailableContent {
        screens: vec![
            ScreenInfo {
                id: "screen:1".to_string(),
                name: "One".to_string(),
                x: 0,
                y: 0,
                width: 10,
                height: 20,
                is_primary: true,
                thumbnail: None,
            },
            ScreenInfo {
                id: "screen:2".to_string(),
                name: "Two".to_string(),
                x: -10,
                y: 5,
                width: 30,
                height: 40,
                is_primary: false,
                thumbnail: Some("eA==".to_string()),
            },
        ],
    };
    assert_eq!(
        two.to_json(),
        "{\"type\":\"available_content\",\"screens\":[{\"id\":\"screen:1\",\"name\":\"One\",\"x\":0,\"y\":0,\"width\":10,\"height\":20,\"is_primary\":true},{\"id\":\"screen:2\",\"name\":\"Two\",\"x\":-10,\"y\":5,\"width\":30,\"height\":40,\"is_primary\":false,\"thumbnail\":\"eA==\"}]}"
    );
    let joined = OutgoingMessage::ParticipantJoined {
        participant: ParticipantData {
            id: "p-1".to_string(),
            name: "Alice".to_string(),
            is_local: false,
            role: ParticipantRole::Participant,
        },
    };
    assert_eq!(
        joined.to_json(),
        "{\"type\":\"participant_joined\",\"participant\":{\"id\":\"p-1\",\"name\":\"Alice\",\"is_local\":false,\"role\":\"participant\"}}"
    );
    let frame = OutgoingMessage::VideoFrame {
        participant_id: "p".to_string(),
        track_id: "t".to_string(),
        width: 1920,
        height: 1080,
        timestamp: 1234567890,
        format: FrameFormat::Jpeg,
        frame_data: vec![0xFF, 0xD8, 0xFF],
    };
    assert_eq!(
        frame.to_json(),
        "{\"type\":\"video_frame\",\"participant_id\":\"p\",\"track_id\":\"t\",\"width\":1920,\"height\":1080,\"timestamp\":1234567890,\"format\":\"jpeg\",\"frame_data\":\"/9j/\"}"
    );
    let state = OutgoingMessage::PermissionState {
        state: PermissionState {
            screen_recording: PermissionStatus::Granted,
            microphone: PermissionStatus::Denied,
            camera: PermissionStatus::NotDetermined,
            accessibility: PermissionStatus::NotApplicable,
        },
    };
    assert_eq!(
        state.to_json(),
        "{\"type\":\"permission_state\",\"state\":{\"screen_recording\":\"granted\",\"microphone\":\"denied\",\"camera\":\"not_determined\",\"accessibility\":\"not_applicable\"}}"
    );
}

#[test]
fn strings_are_escaped_as_json() {
    let msg = OutgoingMessage::Error {
        code: "odd".to_string(),
        message: "say \"hi\"\\\n\tnow \u{1} caf\u{e9}".to_string(),
    };
    let json = msg.to_json();
    assert_eq!(
        json,
        "{\"type\":\"error\",\"code\":\"odd\",\"message\":\"say \\\"hi\\\"\\\\\\n\\tnow \\u0001 caf\u{e9}\"}"
    );
    let value: serde_json::Value = serde_json::from_str(&json).unwrap();
    assert_eq!(value["message"].as_str(), Some("say \"hi\"\\\n\tnow \u{1} caf\u{e9}"));
    assert!(!json.contains('\n'));
}

#[test]
fn numbers_are_written_in_decimal() {
    assert_eq!(decimal(0), "0");
    assert_eq!(decimal(7), "7");
    assert_eq!(decimal(10), "10");
    assert_eq!(decimal(1234567890), "1234567890");
    assert_eq!(decimal(u64::MAX), "18446744073709551615");
    let screen = ScreenInfo {
        id: String::new(),
        name: String::new(),
        x: i32::MIN,
        y: i32::MAX,
        width: u32::MAX,
        height: 0,
        is_primary: false,
        thumbnail: None,
    };
    let json = screen.to_json();
    assert!(json.contains("\"x\":-2147483648,\"y\":2147483647,\"width\":4294967295,\"height\":0"));
}

#[test]
fn frame_data_matches_the_base64_crate() {
    let mut data: Vec<u8> = Vec::new();
    for i in 0..300u32 {
        data.push((i * 7 % 256) as u8);
        let expected = base64::engine::general_purpose::STANDARD.encode(&data);
        assert_eq!(nameless_core::base64::base64_encode(&data), expected);
        assert_eq!(nameless_core::base64::encode(&data), expected);
        let msg = OutgoingMessage::VideoFrame {
            participant_id: String::new(),
            track_id: String::new(),
            width: 0,
            height: 0,
            timestamp: 0,
            format: FrameFormat::Rgba,
            frame_data: data.clone(),
        };
        let json = msg.to_json();
        assert!(json.ends_with(&format!("\"frame_data\":\"{}\"}}", expected)));
    }
    assert_eq!(nameless_core::base64::base64_encode(b""), "");
    assert_eq!(nameless_core::base64::base64_encode(b"f"), "Zg==");
    assert_eq!(nameless_core::base64::base64_encode(b"fo"), "Zm8=");
    assert_eq!(nameless_core::base64::base64_encode(b"foo"), "Zm9v");
    assert_eq!(nameless_core::base64::base64_encode(b"foobar"), "Zm9vYmFy");
    assert_eq!(nameless_core::base64::encode(&[0xfb, 0xff]), "+/8=");
}

// ============================================================================
// Inbound messages
// ============================================================================

fn all_kinds() -> Vec<(IncomingKind, &'static str)> {
    vec![
        (IncomingKind::JoinRoom, "join_room"),
        (IncomingKind::LeaveRoom, "leave_room"),
        (IncomingKind::GetAvailableContent, "get_available_content"),
        (IncomingKind::StartScreenShare, "start_screen_share"),
        (IncomingKind::StopScreenShare, "stop_screen_share"),
        (IncomingKind::SendAnnotation, "send_annotation"),
        (IncomingKind::DeleteAnnotation, "delete_annotation"),
        (IncomingKind::ClearAnnotations, "clear_annotations"),
        (IncomingKind::CursorMove, "cursor_move"),
        (IncomingKind::CursorHide, "cursor_hide"),
        (IncomingKind::SetMicMuted, "set_mic_muted"),
        (IncomingKind::SetCameraEnabled, "set_camera_enabled"),
        (IncomingKind::SetAudioInputDevice, "set_audio_input_device"),
        (IncomingKind::SetVideoInputDevice, "set_video_input_device"),
        (IncomingKind::CheckPermissions, "check_permissions"),
        (IncomingKind::RequestScreenRecordingPermission, "request_screen_recording_permission"),
        (IncomingKind::Ping, "ping"),
        (IncomingKind::Shutdown, "shutdown"),
    ]
}

#[test]
fn every_inbound_type_selects_its_shape() {
    for (kind, tag) in all_kinds() {
        assert_eq!(IncomingKind::from_tag(tag), Some(kind));
        assert_eq!(kind.tag_str(), tag);
    }
    assert_eq!(IncomingKind::from_tag("invalid_type"), None);
    assert_eq!(IncomingKind::from_tag(""), None);
    assert_eq!(IncomingKind::from_tag("Ping"), None);
    assert_eq!(IncomingKind::from_tag("ping "), None);
    assert_eq!(IncomingMessage::Ping.kind(), IncomingKind::Ping);
    assert_eq!(IncomingMessage::Ping.type_tag(), "ping");
    assert_eq!(
        IncomingMessage::CursorMove { x: scalar(0.5), y: scalar(0.75) }.type_tag(),
        "cursor_move"
    );
    assert_eq!(DataTrackMessage::ClearAll.type_tag(), "clear_all");
}

#[test]
fn every_data_message_type_selects_its_shape() {
    let kinds = [
        (DataTrackKind::StrokeStart, "stroke_start"),
        (DataTrackKind::StrokeUpdate, "stroke_update"),
        (DataTrackKind::StrokeComplete, "stroke_complete"),
        (DataTrackKind::StrokeDelete, "stroke_delete"),
        (DataTrackKind::ClearAll, "clear_all"),
        (DataTrackKind::CursorMove, "cursor_move"),
    ];
    for (kind, tag) in kinds {
        assert_eq!(DataTrackKind::from_tag(tag), Some(kind));
        assert_eq!(kind.tag_str(), tag);
    }
    assert_eq!(DataTrackKind::from_tag("ping"), None);
    assert_eq!(DataTrackKind::from_tag("stroke"), None);
    assert_eq!(DataTrackMessage::ClearAll.kind(), DataTrackKind::ClearAll);
    assert_eq!(
        DataTrackMessage::StrokeDelete { stroke_id: String::new() }.type_tag(),
        "stroke_delete"
    );
}

#[test]
fn inbound_messages_become_their_commands() {
    match handle_message(IncomingMessage::JoinRoom {
        server_url: "wss://livekit.example.com".to_string(),
        token: "eyJ...".to_string(),
    }) {
        Some(UserEvent::JoinRoom { server_url, token }) => {
            assert_eq!(server_url, "wss://livekit.example.com");
            assert_eq!(token, "eyJ...");
        }
        other => panic!("Expected JoinRoom, got {:?}", other),
    }
    assert!(matches!(handle_message(IncomingMessage::LeaveRoom), Some(UserEvent::LeaveRoom)));
    assert!(matches!(
        handle_message(IncomingMessage::GetAvailableContent),
        Some(UserEvent::GetAvailableContent)
    ));
    assert!(matches!(
        handle_message(IncomingMessage::StopScreenShare),
        Some(UserEvent::StopScreenShare)
    ));
    assert!(matches!(
        handle_message(IncomingMessage::ClearAnnotations),
        Some(UserEvent::ClearAllAnnotations)
    ));
    assert!(matches!(
        handle_message(IncomingMessage::SetMicMuted { muted: true }),
        Some(UserEvent::SetMicrophoneMuted(true))
    ));
    assert!(matches!(
        handle_message(IncomingMessage::SetCameraEnabled { enabled: false }),
        Some(UserEvent::SetCameraEnabled(false))
    ));
    assert!(matches!(
        handle_message(IncomingMessage::CheckPermissions),
        Some(UserEvent::CheckPermissions)
    ));
    assert!(matches!(
        handle_message(IncomingMessage::RequestScreenRecordingPermission),
        Some(UserEvent::RequestScreenRecordingPermission)
    ));
    assert!(matches!(handle_message(IncomingMessage::Shutdown), Some(UserEvent::Terminate)));
    assert!(handle_message(IncomingMessage::Ping).is_none());
    match handle_message(IncomingMessage::DeleteAnnotation { stroke_id: "stroke-123".to_string() })
    {
        Some(UserEvent::StrokeDelete { stroke_id }) => assert_eq!(stroke_id, "stroke-123"),
        other => panic!("Expected StrokeDelete, got {:?}", other),
    }
    match handle_message(IncomingMessage::SetAudioInputDevice { device_id: "mic".to_string() }) {
        Some(UserEvent::SetAudioInputDevice(device)) => assert_eq!(device, "mic"),
        other => panic!("Expected SetAudioInputDevice, got {:?}", other),
    }
    match handle_message(IncomingMessage::SetVideoInputDevice { device_id: "cam".to_string() }) {
        Some(UserEvent::SetVideoInputDevice(device)) => assert_eq!(device, "cam"),
        other => panic!("Expected SetVideoInputDevice, got {:?}", other),
    }
}

#[test]
fn start_screen_share_takes_the_default_config() {
    match handle_message(IncomingMessage::StartScreenShare {
        source_id: "window-123".to_string(),
        source_type: SourceType::Window,
        config: None,
    }) {
        Some(UserEvent::StartScreenShare(message)) => {
            assert_eq!(message.source_id, "window-123");
            assert_eq!(message.source_type, SourceType::Window);
            assert_eq!(message.config, CaptureConfig::default());
        }
        other => panic!("Expected StartScreenShare, got {:?}", other),
    }
    let config = CaptureConfig { width: 1280, height: 720, framerate: 30, bitrate: 1 };
    match handle_message(IncomingMessage::StartScreenShare {
        source_id: "screen-0".to_string(),
        source_type: SourceType::Screen,
        config: Some(config),
    }) {
        Some(UserEvent::StartScreenShare(message)) => assert_eq!(message.config, config),
        other => panic!("Expected StartScreenShare, got {:?}", other),
    }
}

#[test]
fn annotations_and_cursors_of_the_local_user() {
    let first = Point { x: scalar(0.1), y: scalar(0.2), pressure: scalar(0.5) };
    let second = Point { x: scalar(0.3), y: scalar(0.4), pressure: Scalar::one() };
    match handle_message(IncomingMessage::SendAnnotation {
        stroke_id: "stroke-123".to_string(),
        tool: AnnotationTool::Pen,
        color: Color { r: 255, g: 0, b: 0, a: 255 },
        points: vec![first, second],
    }) {
        Some(UserEvent::StrokeStart { stroke_id, participant_id, tool, color, start_point }) => {
            assert_eq!(stroke_id, "stroke-123");
            assert_eq!(participant_id, "local");
            assert_eq!(tool, AnnotationTool::Pen);
            assert_eq!(color.r, 255);
            assert_eq!(start_point, first);
        }
        other => panic!("Expected StrokeStart, got {:?}", other),
    }
    assert!(handle_message(IncomingMessage::SendAnnotation {
        stroke_id: "empty".to_string(),
        tool: AnnotationTool::Pen,
        color: Color::red(),
        points: vec![],
    })
    .is_none());
    match handle_message(IncomingMessage::CursorMove { x: scalar(0.5), y: scalar(0.75) }) {
        Some(UserEvent::RemoteCursorPosition { participant_id, x, y, visible }) => {
            assert_eq!(participant_id, "local");
            assert_eq!(f32::from_bits(x.bits), 0.5);
            assert_eq!(f32::from_bits(y.bits), 0.75);
            assert!(visible);
        }
        other => panic!("Expected RemoteCursorPosition, got {:?}", other),
    }
    match handle_message(IncomingMessage::CursorHide) {
        Some(UserEvent::RemoteCursorPosition { participant_id, x, y, visible }) => {
            assert_eq!(participant_id, "local");
            assert_eq!(f32::from_bits(x.bits), 0.0);
            assert_eq!(f32::from_bits(y.bits), 0.0);
            assert!(!visible);
        }
        other => panic!("Expected RemoteCursorPosition, got {:?}", other),
    }
    assert_eq!(f32::from_bits(Scalar::one().bits), 1.0);
    assert_eq!(Scalar::ONE_BITS, 1.0f32.to_bits());
    assert_eq!(Scalar::ZERO_BITS, 0.0f32.to_bits());
}

#[test]
fn data_track_messages_carry_their_sender() {
    let p = Point { x: scalar(0.1), y: scalar(0.2), pressure: Scalar::one() };
    match (DataTrackMessage::StrokeStart {
        stroke_id: "s".to_string(),
        tool: AnnotationTool::Eraser,
        color: Color::green(),
        point: p,
    })
    .into_command("remote-7")
    {
        UserEvent::StrokeStart { stroke_id, participant_id, tool, color, start_point } => {
            assert_eq!(stroke_id, "s");
            assert_eq!(participant_id, "remote-7");
            assert_eq!(tool, AnnotationTool::Eraser);
            assert_eq!(color, Color::green());
            assert_eq!(start_point, p);
        }
        other => panic!("Expected StrokeStart, got {:?}", other),
    }
    match (DataTrackMessage::StrokeUpdate { stroke_id: "s".to_string(), points: vec![p, p] })
        .into_command("x")
    {
        UserEvent::StrokeUpdate { stroke_id, points } => {
            assert_eq!(stroke_id, "s");
            assert_eq!(points.len(), 2);
        }
        other => panic!("Expected StrokeUpdate, got {:?}", other),
    }
    assert!(matches!(
        DataTrackMessage::StrokeComplete { stroke_id: "s".to_string() }.into_command("x"),
        UserEvent::StrokeComplete { .. }
    ));
    assert!(matches!(
        DataTrackMessage::StrokeDelete { stroke_id: "s".to_string() }.into_command("x"),
        UserEvent::StrokeDelete { .. }
    ));
    assert!(matches!(
        DataTrackMessage::ClearAll.into_command("x"),
        UserEvent::ClearAllAnnotations
    ));
    match (DataTrackMessage::CursorMove { x: scalar(0.25), y: scalar(0.5), visible: false })
        .into_command("remote-9")
    {
        UserEvent::RemoteCursorPosition { participant_id, x, visible, .. } => {
            assert_eq!(participant_id, "remote-9");
            assert_eq!(x, scalar(0.25));
            assert!(!visible);
        }
        other => panic!("Expected RemoteCursorPosition, got {:?}", other),
    }
}

// ============================================================================
// The life of a connection
// ============================================================================

#[test]
fn channel_starts_by_clearing_the_endpoint() {
    let mut channel = Channel::new();
    assert_eq!(channel.phase(), ChannelPhase::Idle);
    let actions = channel.start();
    assert_eq!(actions.len(), 3);
    assert!(matches!(actions[0], ChannelAction::RemoveEndpoint));
    assert!(matches!(actions[1], ChannelAction::Bind));
    assert!(matches!(actions[2], ChannelAction::Accept));
    assert_eq!(channel.phase(), ChannelPhase::Listening);
    assert!(channel.start().is_empty());
}

#[test]
fn malformed_lines_are_dropped_and_later_lines_are_handled() {
    let mut channel = Channel::new();
    channel.start();
    let actions = channel.on_accept(true);
    assert_eq!(actions.len(), 1);
    assert!(matches!(actions[0], ChannelAction::Submit(UserEvent::SocketConnected)));
    assert!(channel.is_connected());

    // A line that is no message.
    assert!(channel.on_line(None).is_empty());
    assert!(channel.is_connected());
    // A message that asks for nothing.
    assert!(channel.on_line(Some(IncomingMessage::Ping)).is_empty());
    assert!(channel.is_connected());
    // And a valid line after both.
    let actions = channel.on_line(Some(IncomingMessage::StopScreenShare));
    assert_eq!(actions.len(), 1);
    assert!(matches!(actions[0], ChannelAction::Submit(UserEvent::StopScreenShare)));
    assert!(channel.is_connected());
    assert!(channel.on_line(None).is_empty());
    let actions = channel.on_line(Some(IncomingMessage::Shutdown));
    assert!(matches!(actions[0], ChannelAction::Submit(UserEvent::Terminate)));
    assert_eq!(channel.phase(), ChannelPhase::Connected);
}

#[test]
fn messages_reach_only_a_connected_client() {
    let mut channel = Channel::new();
    assert!(channel.send(&OutgoingMessage::Pong).is_empty());
    channel.start();
    assert!(channel.send(&OutgoingMessage::Pong).is_empty());
    channel.on_accept(true);
    let actions = channel.send(&OutgoingMessage::Pong);
    assert_eq!(actions.len(), 1);
    match &actions[0] {
        ChannelAction::Write(line) => assert_eq!(line, "{\"type\":\"pong\"}\n"),
        other => panic!("Expected Write, got {:?}", other),
    }
    let actions = channel.send(&OutgoingMessage::ScreenShareStopped);
    match &actions[0] {
        ChannelAction::Write(line) => assert_eq!(line, "{\"type\":\"screen_share_stopped\"}\n"),
        other => panic!("Expected Write, got {:?}", other),
    }
    // The client goes away: back to waiting, nothing is kept for the next.
    let actions = channel.on_lost();
    assert_eq!(actions.len(), 3);
    assert!(matches!(actions[0], ChannelAction::Disconnect));
    assert!(matches!(actions[1], ChannelAction::Submit(UserEvent::SocketDisconnected)));
    assert!(matches!(actions[2], ChannelAction::Accept));
    assert_eq!(channel.phase(), ChannelPhase::Listening);
    assert!(channel.send(&OutgoingMessage::Pong).is_empty());
    assert!(channel.on_line(Some(IncomingMessage::Ping)).is_empty());
    assert!(channel.on_lost().is_empty());
    let actions = channel.on_accept(true);
    assert!(matches!(actions[0], ChannelAction::Submit(UserEvent::SocketConnected)));
    // A second client while one is served is turned away.
    let actions = channel.on_accept(true);
    assert!(matches!(actions[0], ChannelAction::Reject));
    assert!(channel.is_connected());
}

#[test]
fn channel_shuts_down_for_good() {
    let mut channel = Channel::new();
    channel.start();
    let actions = channel.on_accept(false);
    assert!(matches!(actions[0], ChannelAction::Accept));
    assert_eq!(channel.phase(), ChannelPhase::Listening);
    channel.on_accept(true);
    let actions = channel.shutdown();
    assert_eq!(actions.len(), 3);
    assert!(matches!(actions[0], ChannelAction::Disconnect));
    assert!(matches!(actions[1], ChannelAction::Submit(UserEvent::SocketDisconnected)));
    assert!(matches!(actions[2], ChannelAction::RemoveEndpoint));
    assert_eq!(channel.phase(), ChannelPhase::Closed);
    assert!(channel.shutdown().is_empty());
    assert!(channel.start().is_empty());
    assert!(channel.send(&OutgoingMessage::Pong).is_empty());
    assert!(channel.on_accept(false).is_empty());
    assert!(matches!(channel.on_accept(true)[0], ChannelAction::Reject));
    assert_eq!(channel.phase(), ChannelPhase::Closed);

    let mut listening = Channel::new();
    listening.start();
    let actions = listening.shutdown();
    assert_eq!(actions.len(), 1);
    assert!(matches!(actions[0], ChannelAction::RemoveEndpoint));
    let mut idle = Channel::new();
    assert!(idle.shutdown().is_empty());
    assert_eq!(idle.phase(), ChannelPhase::Closed);
}

#[test]
fn every_short_character_is_escaped_as_serde_json_does() {
    for code in 0u32..0x250 {
        let Some(c) = char::from_u32(code) else { continue };
        let text = format!("a{c}b");
        let msg = OutgoingMessage::Error { code: text.clone(), message: String::new() };
        let json = msg.to_json();
        let quoted = serde_json::to_string(&text).unwrap();
        assert_eq!(json, format!("{{\"type\":\"error\",\"code\":{quoted},\"message\":\"\"}}"));
        assert!(!json.contains('\n'));
        assert!(!json.contains('\r'));
        let value: serde_json::Value = serde_json::from_str(&json).unwrap();
        assert_eq!(value["code"].as_str(), Some(text.as_str()));
    }
    let msg = OutgoingMessage::Error {
        code: "\u{8}\u{c}\u{7f}\u{1f}\u{0}".to_string(),
        message: "\u{2028}\u{1F600}/".to_string(),
    };
    assert_eq!(
        msg.to_json(),
        "{\"type\":\"error\",\"code\":\"\\b\\f\u{7f}\\u001f\\u0000\",\"message\":\"\u{2028}\u{1F600}/\"}"
    );
}

#[test]
fn every_message_is_one_line() {
    let msg = OutgoingMessage::Error {
        code: "\n\n".to_string(),
        message: "one\ntwo\r\nthree".to_string(),
    };
    let line = msg.to_line();
    assert_eq!(line.matches('\n').count(), 1);
    assert!(line.ends_with('\n'));
    assert_eq!(line, format!("{}\n", msg.to_json()));
}
