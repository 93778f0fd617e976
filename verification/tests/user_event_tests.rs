//! Tests for the command vocabulary and its supporting types

use nameless_core::{
    AnnotationTool, CaptureConfig, Color, ConnectionState, CursorStyle, FrameFormat,
    ParticipantRole, PermissionStatus, ScreenInfo, ScreenShareMessage, SourceType, UserEvent,
};

#[test]
fn test_user_event_screen_share_message_default_config() {
    let default = CaptureConfig::default();

    assert_eq!(default.width, 1920);
    assert_eq!(default.height, 1080);
    assert_eq!(default.framerate, 60);
    assert_eq!(default.bitrate, 6_000_000); // 6 Mbps
}

#[test]
fn test_user_event_source_types() {
    let screen = SourceType::Screen;
    let window = SourceType::Window;

    assert_eq!(screen, SourceType::Screen);
    assert_eq!(window, SourceType::Window);
    assert_ne!(screen, window);
}

#[test]
fn test_user_event_annotation_tools() {
    let pen = AnnotationTool::Pen;
    let highlighter = AnnotationTool::Highlighter;
    let eraser = AnnotationTool::Eraser;

    assert_eq!(pen, AnnotationTool::Pen);
    assert_eq!(highlighter, AnnotationTool::Highlighter);
    assert_eq!(eraser, AnnotationTool::Eraser);

    assert_ne!(pen, highlighter);
    assert_ne!(pen, eraser);
    assert_ne!(highlighter, eraser);
}

#[test]
fn test_user_event_color_constants() {
    assert_eq!(Color::red().a, 255);
    assert_eq!(Color::blue().a, 255);
    assert_eq!(Color::green().a, 255);

    // Palette has 6 colors
    assert_eq!(Color::all().len(), 6);
}

fn match_event(event: &UserEvent) -> &'static str {
    match event {
        UserEvent::GetAvailableContent => "get_content",
        UserEvent::StartScreenShare(_) => "start_share",
        UserEvent::StopScreenShare => "stop_share",
        UserEvent::JoinRoom { .. } => "join_room",
        UserEvent::LeaveRoom => "leave_room",
        UserEvent::Terminate => "terminate",
        UserEvent::CheckPermissions => "check_perms",
        UserEvent::RequestScreenRecordingPermission => "request_perm",
        UserEvent::StrokeStart { .. } => "stroke_start",
        UserEvent::StrokeUpdate { .. } => "stroke_update",
        UserEvent::StrokeComplete { .. } => "stroke_complete",
        UserEvent::StrokeDelete { .. } => "stroke_delete",
        UserEvent::ClearAllAnnotations => "clear_annotations",
        UserEvent::SetMicrophoneMuted(_) => "mic_muted",
        UserEvent::SetCameraEnabled(_) => "camera_enabled",
        _ => "other",
    }
}

#[test]
fn test_user_event_variants_exist() {
    assert_eq!(match_event(&UserEvent::GetAvailableContent), "get_content");
    assert_eq!(match_event(&UserEvent::StopScreenShare), "stop_share");
    assert_eq!(match_event(&UserEvent::LeaveRoom), "leave_room");
    assert_eq!(match_event(&UserEvent::Terminate), "terminate");
    assert_eq!(match_event(&UserEvent::CheckPermissions), "check_perms");
}

#[test]
fn test_screen_share_message_creation() {
    let msg = ScreenShareMessage {
        source_id: "screen-0".to_string(),
        source_type: SourceType::Screen,
        config: CaptureConfig { width: 2560, height: 1440, framerate: 60, bitrate: 8_000_000 },
    };

    assert_eq!(msg.source_id, "screen-0");
    assert_eq!(msg.source_type, SourceType::Screen);
    assert_eq!(msg.config.width, 2560);
    assert_eq!(msg.config.height, 1440);
}

#[test]
fn test_connection_state_variants() {
    let states = [
        ConnectionState::Disconnected,
        ConnectionState::Connecting,
        ConnectionState::Connected,
        ConnectionState::Reconnecting,
    ];

    // Verify all states are distinct
    for (i, state1) in states.iter().enumerate() {
        for (j, state2) in states.iter().enumerate() {
            if i == j {
                assert_eq!(state1, state2);
            } else {
                assert_ne!(state1, state2);
            }
        }
    }
}

#[test]
fn test_frame_format_variants() {
    let formats = [FrameFormat::Jpeg, FrameFormat::Rgba, FrameFormat::Nv12];

    // Verify all formats are distinct
    assert_ne!(formats[0], formats[1]);
    assert_ne!(formats[1], formats[2]);
    assert_ne!(formats[0], formats[2]);
}

#[test]
fn test_cursor_style_variants() {
    let styles = [
        CursorStyle::Default,
        CursorStyle::Pen,
        CursorStyle::Highlighter,
        CursorStyle::Eraser,
        CursorStyle::Hidden,
    ];

    // Verify all 5 styles exist and Default is the expected first value
    assert_eq!(styles[0], CursorStyle::Default);
    assert_eq!(styles.len(), 5);
}

#[test]
fn test_participant_role_variants() {
    let host = ParticipantRole::Host;
    let participant = ParticipantRole::Participant;

    assert_eq!(host, ParticipantRole::Host);
    assert_eq!(participant, ParticipantRole::Participant);
    assert_ne!(host, participant);
}

#[test]
fn test_permission_status_variants() {
    let statuses = [
        PermissionStatus::Granted,
        PermissionStatus::Denied,
        PermissionStatus::NotDetermined,
        PermissionStatus::Restricted,
        PermissionStatus::NotApplicable,
    ];

    // Verify all 5 statuses are distinct
    assert_eq!(statuses.len(), 5);
    for (i, s1) in statuses.iter().enumerate() {
        for (j, s2) in statuses.iter().enumerate() {
            if i != j {
                assert_ne!(s1, s2, "Status {} and {} should be different", i, j);
            }
        }
    }
}

#[test]
fn test_screen_info_thumbnail_field() {
    // ScreenInfo with thumbnail
    let screen_with_thumb = ScreenInfo {
        id: "screen:1".to_string(),
        name: "Display 1".to_string(),
        x: 0,
        y: 0,
        width: 1920,
        height: 1080,
        is_primary: true,
        thumbnail: Some("base64encodeddata".to_string()),
    };

    assert_eq!(screen_with_thumb.thumbnail, Some("base64encodeddata".to_string()));

    // ScreenInfo without thumbnail
    let screen_without_thumb = ScreenInfo {
        id: "screen:2".to_string(),
        name: "Display 2".to_string(),
        x: 0,
        y: 0,
        width: 2560,
        height: 1440,
        is_primary: false,
        thumbnail: None,
    };

    assert_eq!(screen_without_thumb.thumbnail, None);
}

#[test]
fn test_screen_info_serialization_with_thumbnail() {
    let screen = ScreenInfo {
        id: "screen:1".to_string(),
        name: "Display 1".to_string(),
        x: 0,
        y: 0,
        width: 1920,
        height: 1080,
        is_primary: true,
        thumbnail: Some("thumb_data".to_string()),
    };

    let json = screen.to_json();

    // Verify JSON contains thumbnail
    assert!(json.contains("\"thumbnail\":\"thumb_data\""));
    assert!(json.contains("\"id\":\"screen:1\""));
    assert!(json.contains("\"name\":\"Display 1\""));
}

#[test]
fn test_screen_info_serialization_without_thumbnail() {
    let screen = ScreenInfo {
        id: "screen:1".to_string(),
        name: "Display 1".to_string(),
        x: 0,
        y: 0,
        width: 1920,
        height: 1080,
        is_primary: true,
        thumbnail: None,
    };

    let json = screen.to_json();

    // Verify JSON does NOT contain thumbnail
    assert!(!json.contains("thumbnail"));
    assert!(json.contains("\"id\":\"screen:1\""));
}

#[test]
fn screen_info_json_is_exact_and_parses() {
    let screen = ScreenInfo {
        id: "screen:7".to_string(),
        name: "Left \"main\"".to_string(),
        x: -1920,
        y: 0,
        width: 1920,
        height: 1080,
        is_primary: false,
        thumbnail: Some("QUJD".to_string()),
    };
    let json = screen.to_json();
    assert_eq!(
        json,
        "{\"id\":\"screen:7\",\"name\":\"Left \\\"main\\\"\",\"x\":-1920,\"y\":0,\"width\":1920,\"height\":1080,\"is_primary\":false,\"thumbnail\":\"QUJD\"}"
    );
    let value: serde_json::Value = serde_json::from_str(&json).unwrap();
    assert_eq!(value["name"].as_str(), Some("Left \"main\""));
    assert_eq!(value["x"].as_i64(), Some(-1920));
    assert_eq!(value["is_primary"].as_bool(), Some(false));
}

#[test]
fn palette_cycles() {
    let all = Color::all();
    assert_eq!(all[0], Color { r: 255, g: 87, b: 87, a: 255 });
    assert_eq!(all[5], Color { r: 255, g: 87, b: 200, a: 255 });
    assert_eq!(Color::for_index(0), Color::red());
    assert_eq!(Color::for_index(7), Color::blue());
    assert_eq!(Color::for_index(11), Color::pink());
    assert_eq!(Color::orange(), Color { r: 255, g: 193, b: 87, a: 255 });
    assert_eq!(Color::purple(), Color { r: 200, g: 87, b: 255, a: 255 });
}
