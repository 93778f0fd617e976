//! Tests for permissions and for the window geometry of the host UI.

use nameless_core::host::{
    calculate_default_position, control_bar_position, is_position_on_screen, ControlBarPosition, OverlayBounds, ScreenBounds, TransformError,
    TransformModeState, WindowGeometry, WindowMonitorInfo, CONTROL_BAR_HEIGHT,
    CONTROL_BAR_WIDTH,
};
use nameless_core::socket::endpoint::{
    generate_loopback_address, generate_socket_path, loopback_port, DEFAULT_PORT,
};
use nameless_core::permissions::{
    check_screen_recording, get_permission_state, has_screen_share_permission,
    request_screen_recording, LinuxSession, Platform,
};
use nameless_core::{PermissionState, PermissionStatus};

fn linux(wayland_display: bool, session_type: Option<&str>, display: bool) -> Platform {
    Platform::Linux(LinuxSession {
        wayland_display,
        session_type: session_type.map(|s| s.to_string()),
        display,
    })
}

#[test]
fn permission_state_starts_undetermined() {
    let state = PermissionState::default();
    assert_eq!(state.screen_recording, PermissionStatus::NotDetermined);
    assert_eq!(state.microphone, PermissionStatus::NotDetermined);
    assert_eq!(state.camera, PermissionStatus::NotDetermined);
    assert_eq!(state.accessibility, PermissionStatus::NotDetermined);
}

#[test]
fn macos_follows_the_system() {
    let granted = Platform::MacOs { screen_capture_allowed: true };
    let denied = Platform::MacOs { screen_capture_allowed: false };
    assert_eq!(check_screen_recording(&granted), PermissionStatus::Granted);
    assert_eq!(check_screen_recording(&denied), PermissionStatus::Denied);
    assert_eq!(request_screen_recording(&granted), PermissionStatus::Granted);
    assert_eq!(request_screen_recording(&denied), PermissionStatus::Denied);
    assert!(has_screen_share_permission(&granted));
    assert!(!has_screen_share_permission(&denied));
    let state = get_permission_state(&denied);
    assert_eq!(state.screen_recording, PermissionStatus::Denied);
    assert_eq!(state.microphone, PermissionStatus::NotApplicable);
    assert_eq!(state.camera, PermissionStatus::NotApplicable);
    assert_eq!(state.accessibility, PermissionStatus::NotApplicable);
}

#[test]
fn linux_goes_by_the_display_server() {
    let x11 = linux(false, None, true);
    assert_eq!(check_screen_recording(&x11), PermissionStatus::Granted);
    assert_eq!(request_screen_recording(&x11), PermissionStatus::Granted);
    assert!(has_screen_share_permission(&x11));
    assert_eq!(get_permission_state(&x11).screen_recording, PermissionStatus::Granted);
    for wayland in [
        linux(true, None, false),
        linux(true, None, true),
        linux(false, Some("wayland"), true),
        linux(false, Some("Wayland"), true),
        linux(false, Some("WAYLAND"), false),
    ] {
        assert_eq!(check_screen_recording(&wayland), PermissionStatus::NotDetermined);
        assert_eq!(request_screen_recording(&wayland), PermissionStatus::NotDetermined);
        assert!(has_screen_share_permission(&wayland));
        assert_eq!(get_permission_state(&wayland).camera, PermissionStatus::NotApplicable);
    }
    for other in [Some("x11"), Some("tty"), Some("wayland "), Some("waylan"), Some("")] {
        assert_eq!(check_screen_recording(&linux(false, other, true)), PermissionStatus::Granted);
    }
    let unknown = linux(false, Some("tty"), false);
    assert_eq!(check_screen_recording(&unknown), PermissionStatus::NotDetermined);
    assert_eq!(request_screen_recording(&unknown), PermissionStatus::Granted);
    assert!(has_screen_share_permission(&unknown));
    let session = LinuxSession { wayland_display: false, session_type: None, display: true };
    assert!(session.is_x11());
    assert!(!session.is_wayland());
}

#[test]
fn windows_and_other_platforms() {
    assert_eq!(check_screen_recording(&Platform::Windows), PermissionStatus::Granted);
    assert_eq!(request_screen_recording(&Platform::Windows), PermissionStatus::Granted);
    assert!(has_screen_share_permission(&Platform::Windows));
    assert_eq!(
        get_permission_state(&Platform::Windows).screen_recording,
        PermissionStatus::Granted
    );
    assert_eq!(check_screen_recording(&Platform::Other), PermissionStatus::NotApplicable);
    assert_eq!(request_screen_recording(&Platform::Other), PermissionStatus::NotApplicable);
    assert!(!has_screen_share_permission(&Platform::Other));
    assert_eq!(get_permission_state(&Platform::Other), PermissionState::default());
}

#[test]
fn control_bar_goes_top_centre_by_default() {
    assert_eq!((CONTROL_BAR_WIDTH, CONTROL_BAR_HEIGHT), (450, 80));
    let monitor = WindowMonitorInfo { x: 0, y: 0, width: 1920, height: 1080 };
    assert_eq!(calculate_default_position(&monitor), Some((735, 40)));
    let second = WindowMonitorInfo { x: -2560, y: 100, width: 2560, height: 1440 };
    assert_eq!(calculate_default_position(&second), Some((-1505, 140)));
    let narrow = WindowMonitorInfo { x: 10, y: 0, width: 449, height: 300 };
    assert_eq!(calculate_default_position(&narrow), Some((10, 40)));
    let narrower = WindowMonitorInfo { x: 10, y: 0, width: 447, height: 300 };
    assert_eq!(calculate_default_position(&narrower), Some((9, 40)));
    let far = WindowMonitorInfo { x: i32::MAX, y: 0, width: 1920, height: 1080 };
    assert_eq!(calculate_default_position(&far), None);
    let low = WindowMonitorInfo { x: 0, y: i32::MAX - 39, width: 1920, height: 1080 };
    assert_eq!(calculate_default_position(&low), None);
}

#[test]
fn a_saved_position_is_kept_while_it_shows() {
    let screens = vec![
        ScreenBounds { x: 0, y: 0, width: 1920, height: 1080, is_primary: true },
        ScreenBounds { x: 1920, y: 0, width: 1280, height: 720, is_primary: false },
    ];
    let primary = WindowMonitorInfo { x: 0, y: 0, width: 1920, height: 1080 };
    let on_second = ControlBarPosition { x: 2000, y: 100 };
    assert!(is_position_on_screen(on_second, &screens));
    assert_eq!(control_bar_position(Some(on_second), &screens, &primary), Some((2000, 100)));
    // Showing by one pixel is showing.
    assert!(is_position_on_screen(ControlBarPosition { x: -449, y: -79 }, &screens));
    assert!(!is_position_on_screen(ControlBarPosition { x: -450, y: 0 }, &screens));
    assert!(!is_position_on_screen(ControlBarPosition { x: 0, y: -80 }, &screens));
    assert!(is_position_on_screen(ControlBarPosition { x: 3199, y: 719 }, &screens));
    assert!(!is_position_on_screen(ControlBarPosition { x: 3200, y: 0 }, &screens));
    assert!(!is_position_on_screen(ControlBarPosition { x: 2000, y: 720 }, &screens));
    assert!(!is_position_on_screen(ControlBarPosition { x: 0, y: 0 }, &vec![]));
    let gone = ControlBarPosition { x: 5000, y: 100 };
    assert_eq!(control_bar_position(Some(gone), &screens, &primary), Some((735, 40)));
    assert_eq!(control_bar_position(None, &screens, &primary), Some((735, 40)));
    let bounds = OverlayBounds { x: 1, y: 2, width: 3, height: 4 };
    assert_eq!(bounds, OverlayBounds { x: 1, y: 2, width: 3, height: 4 });
}

#[test]
fn transform_mode_remembers_the_window() {
    let mut state = TransformModeState::new();
    assert!(!state.is_transformed());
    assert_eq!(state.restore(), Err(TransformError::NotTransformed));
    let shape = WindowGeometry { width: 1280, height: 800, x: 100, y: 50 };
    assert_eq!(state.transform(shape), Ok(()));
    assert!(state.is_transformed());
    let other = WindowGeometry { width: 1, height: 1, x: 0, y: 0 };
    assert_eq!(state.transform(other), Err(TransformError::AlreadyTransformed));
    assert_eq!(state.restore(), Ok(shape));
    assert!(!state.is_transformed());
    assert_eq!(state.restore(), Err(TransformError::NotTransformed));
    assert!(!TransformModeState::default().is_transformed());
}

#[test]
fn socket_paths_carry_the_process_id() {
    assert_eq!(generate_socket_path(4242), "/tmp/nameless-core-4242.sock");
    assert_eq!(generate_socket_path(0), "/tmp/nameless-core-0.sock");
    assert_eq!(generate_socket_path(u32::MAX), "/tmp/nameless-core-4294967295.sock");
    assert_eq!(generate_loopback_address(0), "127.0.0.1:9876");
    assert_eq!(generate_loopback_address(4242), "127.0.0.1:10118");
    assert_eq!(generate_loopback_address(999), "127.0.0.1:10875");
}

#[test]
fn loopback_port_is_read_from_the_path() {
    assert_eq!(DEFAULT_PORT, 9876);
    assert_eq!(loopback_port("nameless-core-4242"), 4242);
    assert_eq!(loopback_port("\\\\.\\pipe\\nameless-core-80"), 80);
    assert_eq!(loopback_port("8080"), 8080);
    assert_eq!(loopback_port("a-b-+7"), 7);
    assert_eq!(loopback_port("core-65535"), 65535);
    assert_eq!(loopback_port("core-65536"), 9876);
    assert_eq!(loopback_port("core-"), 9876);
    assert_eq!(loopback_port("core"), 9876);
    assert_eq!(loopback_port(""), 9876);
    assert_eq!(loopback_port("/tmp/nameless-core-12.sock"), 9876);
    assert_eq!(loopback_port("x--1"), 1);
    for text in ["nameless-core-4242", "-", "a-0", "p-99999", "p-+", "p-0007", "none"] {
        let expected: u16 = text.split('-').last().and_then(|s| s.parse().ok()).unwrap_or(9876);
        assert_eq!(loopback_port(text), expected, "{}", text);
    }
}
