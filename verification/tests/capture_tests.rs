//! Tests for the capture pipeline: recovery, sources, thumbnails.

use base64::Engine;
use nameless_core::capture::recovery::{
    CaptureSession, CaptureSignal, RecoveryPolicy, RestartStep, SessionPhase, SignalOutcome,
    TickAction, FRAME_CAPTURE_INTERVAL_MS, MAX_FAILURES, MAX_RESTART_ATTEMPTS, RESTART_DELAY_MS,
    RETRY_DELAY_MS,
};
use nameless_core::capture::sources::{
    already_captured, apply_thumbnails, describe_sources, enumeration_finished, find_source,
    format_source_id, frame_fits, frame_size, worker_start, CaptureSource, DisplayBounds,
    FrameBuffer, FrameOutcome, FrameRate, ThumbnailResult, ThumbnailTask, WorkerFailure,
};
use nameless_core::capture::thumbnail::{
    create_thumbnail_from_rgb, frame_to_rgb, thumbnail_dimensions, thumbnail_from_frame,
};
use nameless_core::capture::{parse_source_id, CaptureError, CaptureStart, Capturer};
use nameless_core::{CaptureConfig, SourceType, UserEvent};

#[test]
fn policy_defaults() {
    let policy = RecoveryPolicy::default();
    assert_eq!(policy.failure_threshold, 3);
    assert_eq!(policy.restart_bound, 5);
    assert_eq!(policy.lookup_tries, 5);
    assert_eq!(MAX_FAILURES, 3);
    assert_eq!(MAX_RESTART_ATTEMPTS, 5);
    assert_eq!(RESTART_DELAY_MS, 200);
    assert_eq!(RETRY_DELAY_MS, 100);
    assert_eq!(FRAME_CAPTURE_INTERVAL_MS, 22);
}

#[test]
fn restart_fires_once_per_three_permanent_errors() {
    let mut session = CaptureSession::new(RecoveryPolicy::default());
    assert_eq!(session.phase(), SessionPhase::Running);
    assert_eq!(session.on_signal(CaptureSignal::ErrorPermanent), SignalOutcome::FailureCounted);
    assert_eq!(session.on_tick(), TickAction::RequestFrame);
    assert_eq!(session.phase(), SessionPhase::Degraded { failures: 1 });
    assert_eq!(session.on_signal(CaptureSignal::ErrorPermanent), SignalOutcome::FailureCounted);
    assert_eq!(session.on_tick(), TickAction::RequestFrame);
    assert!(!session.needs_restart());
    assert_eq!(session.on_signal(CaptureSignal::ErrorPermanent), SignalOutcome::RestartRequested);
    assert!(session.needs_restart());
    assert_eq!(session.phase(), SessionPhase::Restarting { attempt: 1 });
    // More errors before the tick do not ask again.
    assert_eq!(session.on_signal(CaptureSignal::ErrorPermanent), SignalOutcome::RestartPending);
    assert_eq!(session.permanent_errors(), 4);
    assert_eq!(
        session.on_tick(),
        TickAction::BeginRestart { attempt: 1, settle_ms: RESTART_DELAY_MS }
    );
    assert_eq!(session.permanent_errors(), 0);
    assert_eq!(session.transient_errors(), 0);
    assert_eq!(session.restart_attempts(), 1);
    assert_eq!(session.on_tick(), TickAction::Lookup);
    assert_eq!(
        session.on_source_lookup(true),
        RestartStep::StartCapture { settle_ms: RETRY_DELAY_MS }
    );
    assert!(!session.needs_restart());
    assert_eq!(session.on_tick(), TickAction::RequestFrame);
    assert_eq!(session.phase(), SessionPhase::Running);
}

#[test]
fn success_resets_the_failure_count() {
    let mut session = CaptureSession::new(RecoveryPolicy::default());
    session.on_signal(CaptureSignal::ErrorPermanent);
    session.on_signal(CaptureSignal::ErrorPermanent);
    assert_eq!(session.permanent_errors(), 2);
    assert_eq!(session.on_signal(CaptureSignal::Frame), SignalOutcome::Deliver);
    assert_eq!(session.permanent_errors(), 0);
    assert_eq!(session.on_signal(CaptureSignal::ErrorPermanent), SignalOutcome::FailureCounted);
    assert_eq!(session.on_signal(CaptureSignal::ErrorPermanent), SignalOutcome::FailureCounted);
    assert_eq!(session.permanent_errors(), 2);
    assert!(!session.needs_restart());
    assert!(!session.should_stop());
    assert_eq!(session.on_tick(), TickAction::RequestFrame);
    assert_eq!(session.restart_attempts(), 0);
}

#[test]
fn transient_errors_never_count_as_permanent() {
    let mut session = CaptureSession::new(RecoveryPolicy::default());
    for n in 1..=100u64 {
        assert_eq!(session.on_signal(CaptureSignal::ErrorTemporary), SignalOutcome::TransientNoted);
        assert_eq!(session.transient_errors(), n);
        assert_eq!(session.permanent_errors(), 0);
        assert_eq!(session.on_tick(), TickAction::RequestFrame);
    }
    assert_eq!(session.on_signal(CaptureSignal::Frame), SignalOutcome::Deliver);
    assert_eq!(session.transient_errors(), 0);
}

#[test]
fn session_ends_after_exactly_five_restarts_with_one_terminal_error() {
    let mut session = CaptureSession::new(RecoveryPolicy::default());
    let mut restarts = 0;
    let mut terminal = 0;
    let mut frames_requested = 0;
    let mut rounds = 0;
    loop {
        rounds += 1;
        assert!(rounds < 1000);
        match session.on_tick() {
            TickAction::Stop => break,
            TickAction::BeginRestart { attempt, settle_ms } => {
                restarts += 1;
                assert_eq!(attempt, restarts);
                assert_eq!(settle_ms, 200);
                assert_eq!(
                    session.on_source_lookup(true),
                    RestartStep::StartCapture { settle_ms: 100 }
                );
                continue;
            }
            TickAction::Lookup => panic!("no lookup is pending"),
            TickAction::RequestFrame => frames_requested += 1,
        }
        match session.on_signal(CaptureSignal::ErrorPermanent) {
            SignalOutcome::Exhausted => terminal += 1,
            SignalOutcome::Ignored => panic!("a frame was requested after the end"),
            _ => {}
        }
    }
    assert_eq!(restarts, 5);
    assert_eq!(terminal, 1);
    assert_eq!(frames_requested, 18);
    assert_eq!(session.restart_attempts(), 5);
    assert!(session.should_stop());
    assert_eq!(session.phase(), SessionPhase::Terminated);
    // Nothing revives it.
    for _ in 0..10 {
        assert_eq!(session.on_signal(CaptureSignal::ErrorPermanent), SignalOutcome::Ignored);
        assert_eq!(session.on_signal(CaptureSignal::Frame), SignalOutcome::Ignored);
        assert_eq!(session.on_tick(), TickAction::Stop);
        assert_eq!(session.on_source_lookup(true), RestartStep::NotRestarting);
    }
    assert_eq!(session.restart_attempts(), 5);
}

#[test]
fn restart_gives_up_when_the_source_stays_away() {
    let mut session = CaptureSession::new(RecoveryPolicy::default());
    for _ in 0..3 {
        session.on_signal(CaptureSignal::ErrorPermanent);
    }
    assert!(matches!(session.on_tick(), TickAction::BeginRestart { attempt: 1, .. }));
    for _ in 0..4 {
        assert_eq!(session.on_source_lookup(false), RestartStep::RetryAfter { delay_ms: 100 });
    }
    assert_eq!(session.on_source_lookup(false), RestartStep::GiveUp);
    assert!(session.should_stop());
    assert_eq!(session.on_tick(), TickAction::Stop);
    assert_eq!(session.on_source_lookup(false), RestartStep::NotRestarting);
}

#[test]
fn restart_succeeds_when_the_source_comes_back() {
    let mut session = CaptureSession::new(RecoveryPolicy::default());
    for _ in 0..3 {
        session.on_signal(CaptureSignal::ErrorPermanent);
    }
    session.on_tick();
    assert_eq!(session.on_source_lookup(false), RestartStep::RetryAfter { delay_ms: 100 });
    assert_eq!(session.on_source_lookup(false), RestartStep::RetryAfter { delay_ms: 100 });
    assert_eq!(session.phase(), SessionPhase::Restarting { attempt: 1 });
    assert_eq!(session.on_source_lookup(true), RestartStep::StartCapture { settle_ms: 100 });
    assert_eq!(session.on_tick(), TickAction::RequestFrame);
}

#[test]
fn user_stop_preempts_a_pending_restart() {
    let mut session = CaptureSession::new(RecoveryPolicy::default());
    for _ in 0..3 {
        session.on_signal(CaptureSignal::ErrorPermanent);
    }
    assert!(session.needs_restart());
    session.request_stop();
    assert!(!session.needs_restart());
    assert!(session.should_stop());
    assert_eq!(session.on_tick(), TickAction::Stop);
    assert_eq!(session.restart_attempts(), 0);

    let mut stopped = CaptureSession::new(RecoveryPolicy::default());
    assert_eq!(stopped.on_signal(CaptureSignal::ErrorUserStopped), SignalOutcome::UserStopped);
    assert_eq!(stopped.on_tick(), TickAction::Stop);

    let mut during = CaptureSession::new(RecoveryPolicy::default());
    for _ in 0..3 {
        during.on_signal(CaptureSignal::ErrorPermanent);
    }
    during.on_tick();
    during.on_signal(CaptureSignal::ErrorUserStopped);
    assert_eq!(during.on_source_lookup(true), RestartStep::Abandon);
    assert_eq!(during.on_tick(), TickAction::Stop);
}

#[test]
fn other_thresholds() {
    let policy = RecoveryPolicy { failure_threshold: 1, restart_bound: 0, lookup_tries: 1 };
    let mut session = CaptureSession::new(policy);
    assert_eq!(session.on_signal(CaptureSignal::ErrorPermanent), SignalOutcome::Exhausted);
    assert_eq!(session.on_tick(), TickAction::Stop);
    assert_eq!(session.state().policy, policy);

    let policy = RecoveryPolicy { failure_threshold: 2, restart_bound: 1, lookup_tries: 1 };
    let mut session = CaptureSession::new(policy);
    session.on_signal(CaptureSignal::ErrorPermanent);
    assert_eq!(session.on_signal(CaptureSignal::ErrorPermanent), SignalOutcome::RestartRequested);
    session.on_tick();
    assert_eq!(session.on_source_lookup(false), RestartStep::GiveUp);
}

#[test]
fn source_ids_are_parsed() {
    assert_eq!(parse_source_id("screen:1"), Some(1));
    assert_eq!(parse_source_id("screen:123"), Some(123));
    assert_eq!(parse_source_id("window:456"), Some(456));
    assert_eq!(parse_source_id("screen:007"), Some(7));
    assert_eq!(parse_source_id("screen:+5"), Some(5));
    assert_eq!(parse_source_id("screen:1:2"), Some(1));
    assert_eq!(parse_source_id(":9"), Some(9));
    assert_eq!(parse_source_id("screen:18446744073709551615"), Some(u64::MAX));
    assert_eq!(parse_source_id("screen:18446744073709551616"), None);
    assert_eq!(parse_source_id("screen:99999999999999999999999"), None);
    assert_eq!(parse_source_id("screen-0"), None);
    assert_eq!(parse_source_id("screen:"), None);
    assert_eq!(parse_source_id("screen:+"), None);
    assert_eq!(parse_source_id("screen:-1"), None);
    assert_eq!(parse_source_id("screen:1a"), None);
    assert_eq!(parse_source_id("screen: 1"), None);
    assert_eq!(parse_source_id("screen::1"), None);
    assert_eq!(parse_source_id(""), None);
    assert_eq!(parse_source_id("\u{e9}cran:12"), Some(12));
    assert_eq!(parse_source_id("screen:\u{663}"), None);
    for text in ["screen:1", "screen:+5", "a:b:3", "x:", "nothing", "s:0012", ":+", "q:1:"] {
        let expected = text.split(':').nth(1).and_then(|s| s.parse::<u64>().ok());
        assert_eq!(parse_source_id(text), expected, "{}", text);
    }
}

#[test]
fn capture_starts_and_stops() {
    let mut capturer = Capturer::new();
    assert!(!capturer.is_capturing());
    assert_eq!(capturer.current_source(), None);
    let config = CaptureConfig { width: 1920, height: 1080, framerate: 60, bitrate: 6_000_000 };
    let outcome = capturer.start_capture("screen:1", SourceType::Screen, &config);
    assert!(!outcome.stop_previous);
    assert_eq!(outcome.start.unwrap(), CaptureStart { source: 1, width: 1920, height: 1080 });
    assert!(capturer.is_capturing());
    assert_eq!(capturer.current_source(), Some("screen:1"));
    // Stopping tells the caller that a worker is to be joined, once.
    assert!(capturer.stop_capture());
    assert!(!capturer.is_capturing());
    assert_eq!(capturer.current_source(), None);
    assert!(!capturer.stop_capture());
    assert!(!capturer.stop_capture());
}

#[test]
fn a_new_capture_stops_the_old_one_first() {
    let mut capturer = Capturer::default();
    let config = CaptureConfig::default();
    capturer.start_capture("screen:1", SourceType::Screen, &config);
    let outcome = capturer.start_capture("screen:2", SourceType::Screen, &config);
    assert!(outcome.stop_previous);
    assert_eq!(outcome.start.unwrap().source, 2);
    assert_eq!(capturer.current_source(), Some("screen:2"));
    let outcome = capturer.start_capture("bogus", SourceType::Window, &config);
    assert!(outcome.stop_previous);
    match outcome.start {
        Err(CaptureError::SourceNotFound(id)) => assert_eq!(id, "bogus"),
        other => panic!("Expected SourceNotFound, got {:?}", other),
    }
    assert!(!capturer.is_capturing());
    assert_eq!(capturer.current_source(), None);
}

#[test]
fn capture_errors_in_words() {
    assert_eq!(
        CaptureError::CapturerCreationFailed.message(),
        "Failed to create DesktopCapturer"
    );
    assert_eq!(CaptureError::NoSourcesAvailable.message(), "Capture source list is empty");
    assert_eq!(
        CaptureError::SourceNotFound("screen:9".to_string()).message(),
        "Selected source not found: screen:9"
    );
    assert_eq!(
        CaptureError::CaptureFailed("no frames".to_string()).message(),
        "Capture failed: no frames"
    );
}

fn error_of(event: UserEvent) -> (String, String) {
    match event {
        UserEvent::Error { code, message } => (code, message),
        other => panic!("Expected Error, got {:?}", other),
    }
}

#[test]
fn worker_failures_are_reported_as_errors() {
    assert_eq!(
        error_of(WorkerFailure::CapturerCreationFailed.report(3)),
        ("capture_failed".to_string(), "Failed to create DesktopCapturer".to_string())
    );
    assert_eq!(
        error_of(WorkerFailure::SourceNotFound.report(42)),
        ("source_not_found".to_string(), "Source 42 not found".to_string())
    );
    assert_eq!(
        error_of(WorkerFailure::RestartFailed.report(7)),
        ("restart_failed".to_string(), "Failed to restart capture for source 7".to_string())
    );
    assert_eq!(
        error_of(WorkerFailure::RestartsExhausted.report(0)),
        ("restart_exhausted".to_string(), "Restart attempts exhausted for source 0".to_string())
    );
}

fn two_sources() -> Vec<CaptureSource> {
    vec![
        CaptureSource {
            id: 1,
            title: String::new(),
            bounds: Some(DisplayBounds { x: 0, y: 0, width: 2560, height: 1440 }),
        },
        CaptureSource { id: 69734208, title: "Side".to_string(), bounds: None },
    ]
}

#[test]
fn sources_are_described() {
    let screens = describe_sources(&two_sources());
    assert_eq!(screens.len(), 2);
    assert_eq!(screens[0].id, "screen:1");
    assert_eq!(screens[0].name, "Display 1");
    assert_eq!((screens[0].x, screens[0].y), (0, 0));
    assert_eq!((screens[0].width, screens[0].height), (2560, 1440));
    assert!(screens[0].is_primary);
    assert_eq!(screens[0].thumbnail, None);
    assert_eq!(screens[1].id, "screen:69734208");
    assert_eq!(screens[1].name, "Side");
    assert_eq!((screens[1].width, screens[1].height), (1920, 1080));
    assert!(!screens[1].is_primary);
    assert_eq!(format_source_id(0), "screen:0");
    assert_eq!(parse_source_id(&format_source_id(u64::MAX)), Some(u64::MAX));
    assert!(describe_sources(&vec![]).is_empty());
    let untitled: Vec<CaptureSource> =
        (0..12).map(|i| CaptureSource { id: i, title: String::new(), bounds: None }).collect();
    assert_eq!(describe_sources(&untitled)[11].name, "Display 12");
}

#[test]
fn a_failing_source_is_listed_without_a_thumbnail() {
    let mut screens = describe_sources(&two_sources());
    let mut results: Vec<ThumbnailResult> = Vec::new();
    assert!(!enumeration_finished(results.len(), 2, 0));
    // The first source cannot open its capture context: an empty result.
    results.push(ThumbnailResult { source_id: 1, index: 0, thumbnail: String::new() });
    assert!(!enumeration_finished(results.len(), 2, 33));
    assert!(already_captured(&results, 1));
    assert!(!already_captured(&results, 69734208));
    results.push(ThumbnailResult { source_id: 69734208, index: 1, thumbnail: "QUJD".to_string() });
    assert!(enumeration_finished(results.len(), 2, 66));
    apply_thumbnails(&mut screens, &results);
    assert_eq!(screens.len(), 2);
    assert_eq!(screens[0].id, "screen:1");
    assert_eq!(screens[0].thumbnail, None);
    assert_eq!(screens[1].id, "screen:69734208");
    assert_eq!(screens[1].thumbnail, Some("QUJD".to_string()));
    assert_eq!(screens[1].name, "Side");
}

#[test]
fn a_stalled_source_does_not_hold_up_the_others() {
    let mut screens = describe_sources(&two_sources());
    let results =
        vec![ThumbnailResult { source_id: 69734208, index: 1, thumbnail: "eA==".to_string() }];
    assert!(!enumeration_finished(results.len(), 2, 10_000));
    assert!(enumeration_finished(results.len(), 2, 10_001));
    apply_thumbnails(&mut screens, &results);
    assert_eq!(screens[0].thumbnail, None);
    assert_eq!(screens[1].thumbnail, Some("eA==".to_string()));
    // A result for a place beyond the list is dropped.
    let stray = vec![ThumbnailResult { source_id: 5, index: 2, thumbnail: "eA==".to_string() }];
    apply_thumbnails(&mut screens, &stray);
    assert_eq!(screens.len(), 2);
    assert_eq!(screens[0].thumbnail, None);
}

#[test]
fn sources_are_found_by_id() {
    let ids = vec![4, 8, 15, 8];
    assert_eq!(find_source(&ids, 4), Some(0));
    assert_eq!(find_source(&ids, 8), Some(1));
    assert_eq!(find_source(&ids, 16), None);
    assert_eq!(find_source(&vec![], 4), None);
}

#[test]
fn frame_buffer_is_laid_out_anew_only_for_another_size() {
    let mut buffer = FrameBuffer::new(1920, 1080);
    assert!(!buffer.fit(1920, 1080));
    assert!(!buffer.fit(1920, 1080));
    assert!(buffer.fit(2560, 1440));
    assert_eq!(buffer.size(), (2560, 1440));
    assert!(!buffer.fit(2560, 1440));
    assert!(buffer.fit(2560, 1080));
    assert_eq!(frame_size(1920, 1080), Some((1920, 1080)));
    assert_eq!(frame_size(0, 1080), None);
    assert_eq!(frame_size(1920, 0), None);
    assert_eq!(frame_size(-1, 5), None);
    assert!(frame_fits(32, 2, 2, 16));
    assert!(frame_fits(16, 2, 2, 8));
    assert!(!frame_fits(15, 2, 2, 8));
    assert!(!frame_fits(100, 2, 2, 7));
    assert!(frame_fits(0, 0, 0, 0));
    assert!(!frame_fits(usize::MAX, u32::MAX, 1, u32::MAX));
}

#[test]
fn thumbnails_keep_the_shape() {
    assert_eq!(thumbnail_dimensions(1920, 1080), Some((320, 180)));
    assert_eq!(thumbnail_dimensions(2560, 1440), Some((320, 180)));
    assert_eq!(thumbnail_dimensions(3440, 1440), Some((320, 133)));
    assert_eq!(thumbnail_dimensions(1080, 1920), Some((101, 180)));
    assert_eq!(thumbnail_dimensions(1000, 1000), Some((180, 180)));
    assert_eq!(thumbnail_dimensions(320, 180), Some((320, 180)));
    assert_eq!(thumbnail_dimensions(16, 9), Some((320, 180)));
    assert_eq!(thumbnail_dimensions(1, 1), Some((180, 180)));
    assert_eq!(thumbnail_dimensions(0, 10), None);
    assert_eq!(thumbnail_dimensions(10, 0), None);
    assert_eq!(thumbnail_dimensions(100_000, 1), None);
    assert_eq!(thumbnail_dimensions(1, 100_000), None);
    assert_eq!(thumbnail_dimensions(u32::MAX, u32::MAX), Some((180, 180)));
}

#[test]
fn frames_lose_their_padding_and_alpha() {
    // Two rows of two pixels, three bytes of padding after each row.
    let data: Vec<u8> = vec![
        1, 2, 3, 255, 4, 5, 6, 255, 0, 0, 0, //
        7, 8, 9, 255, 10, 11, 12, 255, 0, 0, 0,
    ];
    assert_eq!(
        frame_to_rgb(&data, 2, 2, 11),
        Some(vec![3, 2, 1, 6, 5, 4, 9, 8, 7, 12, 11, 10])
    );
    assert_eq!(frame_to_rgb(&data[..19], 2, 2, 11), Some(vec![3, 2, 1, 6, 5, 4, 9, 8, 7, 12, 11, 10]));
    assert_eq!(frame_to_rgb(&data[..18], 2, 2, 11), None);
    assert_eq!(frame_to_rgb(&data, 0, 2, 11), None);
    assert_eq!(frame_to_rgb(&data, 2, -1, 11), None);
    assert_eq!(frame_to_rgb(&[], 1, 1, 4), None);
    assert_eq!(frame_to_rgb(&[9, 8, 7, 6], 1, 1, 4), Some(vec![7, 8, 9]));
    assert_eq!(frame_to_rgb(&data, 2, 3, 11), None);
}

#[test]
fn thumbnails_are_small_jpegs_in_base64() {
    let (width, height) = (640u32, 360u32);
    let mut rgb: Vec<u8> = Vec::new();
    for y in 0..height {
        for x in 0..width {
            rgb.push((x % 256) as u8);
            rgb.push((y % 256) as u8);
            rgb.push(200);
        }
    }
    let text = create_thumbnail_from_rgb(&rgb, width, height).unwrap();
    let bytes = base64::engine::general_purpose::STANDARD.decode(&text).unwrap();
    assert_eq!(&bytes[..2], &[0xFF, 0xD8]);
    assert_eq!(&bytes[bytes.len() - 2..], &[0xFF, 0xD9]);
    let decoded = image::load_from_memory(&bytes).unwrap();
    assert_eq!((decoded.width(), decoded.height()), (320, 180));
    // The same pixels give the same thumbnail.
    assert_eq!(create_thumbnail_from_rgb(&rgb, width, height), Some(text.clone()));
    // It is what the image crate makes of them.
    let image: image::RgbImage = image::ImageBuffer::from_raw(width, height, rgb.clone()).unwrap();
    let small =
        image::imageops::resize(&image, 320, 180, image::imageops::FilterType::Triangle);
    let mut jpeg: Vec<u8> = Vec::new();
    image::codecs::jpeg::JpegEncoder::new_with_quality(&mut jpeg, 75)
        .encode(small.as_raw(), 320, 180, image::ExtendedColorType::Rgb8)
        .unwrap();
    assert_eq!(bytes, jpeg);
    assert_ne!(bytes, rgb);

    // Too few pixels for the size, and sizes without pixels.
    assert_eq!(create_thumbnail_from_rgb(&rgb[..rgb.len() - 1], width, height), None);
    assert_eq!(create_thumbnail_from_rgb(&rgb, 0, height), None);
    assert_eq!(create_thumbnail_from_rgb(&rgb, width, 0), None);
    assert_eq!(create_thumbnail_from_rgb(&[], 1, 1), None);
    let tall = create_thumbnail_from_rgb(&rgb, 360, 640).unwrap();
    let bytes = base64::engine::general_purpose::STANDARD.decode(&tall).unwrap();
    let decoded = image::load_from_memory(&bytes).unwrap();
    assert_eq!((decoded.width(), decoded.height()), (101, 180));
}

#[test]
fn a_frame_resets_the_restart_count() {
    let mut session = CaptureSession::new(RecoveryPolicy::default());
    for restart in 1..=4u64 {
        for _ in 0..3 {
            session.on_signal(CaptureSignal::ErrorPermanent);
        }
        assert_eq!(
            session.on_tick(),
            TickAction::BeginRestart { attempt: restart, settle_ms: 200 }
        );
        assert_eq!(session.on_source_lookup(true), RestartStep::StartCapture { settle_ms: 100 });
        assert_eq!(session.restart_attempts(), restart);
    }
    assert_eq!(session.on_signal(CaptureSignal::Frame), SignalOutcome::Deliver);
    assert_eq!(session.restart_attempts(), 0);
    assert_eq!(session.permanent_errors(), 0);
    assert_eq!(session.transient_errors(), 0);
    // The session has five restarts before it again.
    for restart in 1..=5u64 {
        for _ in 0..3 {
            assert_ne!(session.on_signal(CaptureSignal::ErrorPermanent), SignalOutcome::Exhausted);
        }
        assert_eq!(
            session.on_tick(),
            TickAction::BeginRestart { attempt: restart, settle_ms: 200 }
        );
        assert_eq!(session.on_source_lookup(true), RestartStep::StartCapture { settle_ms: 100 });
    }
    session.on_signal(CaptureSignal::ErrorPermanent);
    session.on_signal(CaptureSignal::ErrorPermanent);
    assert_eq!(session.on_signal(CaptureSignal::ErrorPermanent), SignalOutcome::Exhausted);
    assert!(session.should_stop());
}

#[test]
fn stopping_an_idle_capturer_changes_nothing() {
    let mut capturer = Capturer::new();
    assert!(!capturer.stop_capture());
    assert!(!capturer.is_capturing());
    assert_eq!(capturer.current_source(), None);
    let config = CaptureConfig::default();
    let outcome = capturer.start_capture("nonsense", SourceType::Screen, &config);
    assert!(!outcome.stop_previous);
    assert!(outcome.start.is_err());
    assert!(!capturer.is_capturing());
    assert_eq!(capturer.current_source(), None);
    assert!(!capturer.stop_capture());
}

#[test]
fn a_worker_needs_a_capturer_and_its_source() {
    assert_eq!(worker_start(true, true), Ok(()));
    assert_eq!(worker_start(false, true), Err(WorkerFailure::CapturerCreationFailed));
    assert_eq!(worker_start(false, false), Err(WorkerFailure::CapturerCreationFailed));
    assert_eq!(worker_start(true, false), Err(WorkerFailure::SourceNotFound));
}

fn grey_frame(width: usize, height: usize) -> Vec<u8> {
    let mut data = Vec::new();
    for y in 0..height {
        for x in 0..width {
            data.extend_from_slice(&[(x % 256) as u8, (y % 256) as u8, 90, 255]);
        }
    }
    data
}

#[test]
fn a_thumbnail_task_files_one_result() {
    let mut task = ThumbnailTask::new(7, 2, &Vec::new());
    assert_eq!(task, ThumbnailTask { source_id: 7, index: 2, done: false });
    assert!(task.start(true, true).is_none());
    assert!(!task.done);
    // Temporary errors leave it waiting.
    for _ in 0..5 {
        assert!(task.on_outcome(FrameOutcome::Temporary).is_none());
        assert!(!task.done);
    }
    // So does a frame that is no picture.
    assert!(task
        .on_outcome(FrameOutcome::Frame { data: &[1, 2, 3], width: 4, height: 4, stride: 16 })
        .is_none());
    assert!(task
        .on_outcome(FrameOutcome::Frame { data: &[], width: 0, height: 0, stride: 0 })
        .is_none());
    assert!(!task.done);
    let data = grey_frame(64, 32);
    let result = task
        .on_outcome(FrameOutcome::Frame { data: &data, width: 64, height: 32, stride: 256 })
        .unwrap();
    assert_eq!(result.source_id, 7);
    assert_eq!(result.index, 2);
    assert_eq!(Some(result.thumbnail.clone()), thumbnail_from_frame(&data, 64, 32, 256));
    assert!(!result.thumbnail.is_empty());
    assert!(task.done);
    // Once done, nothing more is filed.
    assert!(task.on_outcome(FrameOutcome::Permanent).is_none());
    assert!(task
        .on_outcome(FrameOutcome::Frame { data: &data, width: 64, height: 32, stride: 256 })
        .is_none());
    assert!(task.start(false, false).is_none());
    assert!(task.done);
}

#[test]
fn a_thumbnail_task_files_an_empty_result_on_failure() {
    let parts = |result: Option<ThumbnailResult>| {
        result.map(|r| (r.source_id, r.index, r.thumbnail))
    };
    let mut task = ThumbnailTask::new(1, 0, &Vec::new());
    assert_eq!(parts(task.on_outcome(FrameOutcome::Permanent)), Some((1, 0, String::new())));
    assert!(task.done);

    let mut task = ThumbnailTask::new(3, 1, &Vec::new());
    assert_eq!(parts(task.start(false, false)), Some((3, 1, String::new())));
    assert!(task.done);
    let mut task = ThumbnailTask::new(3, 1, &Vec::new());
    assert_eq!(parts(task.start(true, false)), Some((3, 1, String::new())));
    assert!(task.done);

    // A source that has its result is left alone.
    let filed = vec![ThumbnailResult { source_id: 3, index: 1, thumbnail: "abc".to_string() }];
    let mut task = ThumbnailTask::new(3, 1, &filed);
    assert!(task.done);
    assert!(task.start(false, false).is_none());
    assert!(task.on_outcome(FrameOutcome::Permanent).is_none());
    let task = ThumbnailTask::new(4, 1, &filed);
    assert!(!task.done);
}

#[test]
fn a_frame_gives_the_thumbnail_of_its_pixels() {
    let data = grey_frame(64, 32);
    let rgb = frame_to_rgb(&data, 64, 32, 256).unwrap();
    assert_eq!(rgb.len(), 64 * 32 * 3);
    assert_eq!(&rgb[..6], &[90, 0, 0, 90, 0, 1]);
    let text = thumbnail_from_frame(&data, 64, 32, 256).unwrap();
    assert_eq!(Some(text.clone()), create_thumbnail_from_rgb(&rgb, 64, 32));
    let bytes = base64::engine::general_purpose::STANDARD.decode(&text).unwrap();
    let decoded = image::load_from_memory(&bytes).unwrap();
    assert_eq!((decoded.width(), decoded.height()), (320, 160));
    assert_eq!(thumbnail_from_frame(&data, 64, 33, 256), None);
    assert_eq!(thumbnail_from_frame(&data, -64, 32, 256), None);
    assert_eq!(thumbnail_from_frame(&data, 0, 0, 0), None);
}

#[test]
fn the_frame_rate_is_told_once_a_second() {
    let mut rate = FrameRate::new(500);
    for n in 1..=44u64 {
        assert_eq!(rate.on_frame(500 + n * 22), None);
    }
    // The forty-fifth frame comes 1000 ms after the count began.
    assert_eq!(rate.on_frame(1500), Some(45));
    assert_eq!(rate.on_frame(1600), None);
    assert_eq!(rate.on_frame(2000), None);
    // Three frames in two seconds and a half: one frame a second, rounded down.
    assert_eq!(rate.on_frame(4000), Some(1));
    // A clock that went back tells nothing.
    assert_eq!(rate.on_frame(10), None);
    assert_eq!(rate.on_frame(4999), None);
    assert_eq!(rate.on_frame(5000), Some(3));
}
