use max_window::display::{query_primary_display, text_from_c_bytes, Display, MonitorReport, VideoMode};
use max_window::frame_loop::{Event, FrameCommand, KeyAction, KeyCode, LoopState};
use max_window::outcome::{exit_code, Outcome, SetupError};
use max_window::window::window_config;

fn mode(width: i32, height: i32) -> VideoMode {
    VideoMode { width, height, red_bits: 8, green_bits: 8, blue_bits: 8, refresh_rate: 60 }
}

fn frame() -> Vec<FrameCommand> {
    vec![FrameCommand::PollEvents, FrameCommand::ClearColorBuffer, FrameCommand::SwapBuffers]
}

#[test]
fn window_matches_native_mode() {
    let report = MonitorReport { name: Some(b"DELL U2720Q".to_vec()), mode: Some(mode(3840, 2160)) };
    let display = query_primary_display(Some(report)).unwrap();
    let config = window_config(&display).unwrap();
    assert_eq!(config.width, 3840);
    assert_eq!(config.height, 2160);
}

#[test]
fn window_asks_for_core_context_with_multisampling() {
    let display = Display { name: String::new(), mode: mode(1920, 1080) };
    let config = window_config(&display).unwrap();
    assert_eq!(config.title, "Max Window");
    assert_eq!((config.gl_version_major, config.gl_version_minor), (3, 3));
    assert!(config.core_profile);
    assert_eq!(config.samples, 4);
    assert!(config.resizable);
    assert!(config.decorated);
    assert!(!config.exclusive_fullscreen);
}

#[test]
fn non_positive_mode_is_rejected() {
    for (w, h) in [(0, 1080), (1920, 0), (-1, 1080), (1920, -5)] {
        let display = Display { name: String::new(), mode: mode(w, h) };
        assert_eq!(window_config(&display), Err(SetupError::InvalidVideoMode));
    }
}

#[test]
fn no_monitor_is_fatal() {
    let r = query_primary_display(None);
    assert_eq!(r, Err(SetupError::NoDisplay));
    assert_eq!(exit_code(&Outcome::SetupFailed(r.unwrap_err())), 1);
}

#[test]
fn monitor_without_mode_is_fatal() {
    let report = MonitorReport { name: Some(b"eDP-1".to_vec()), mode: None };
    assert_eq!(query_primary_display(Some(report)), Err(SetupError::NoVideoMode));
}

#[test]
fn display_name_is_decoded() {
    let report = MonitorReport { name: Some(b"eDP-1".to_vec()), mode: Some(mode(2560, 1600)) };
    let display = query_primary_display(Some(report)).unwrap();
    assert_eq!(display.name, "eDP-1");
    assert_eq!(display.mode, mode(2560, 1600));
}

#[test]
fn missing_name_is_empty() {
    assert_eq!(text_from_c_bytes(None), "");
    assert_eq!(text_from_c_bytes(Some(Vec::new())), "");
}

#[test]
fn invalid_utf8_is_replaced() {
    assert_eq!(text_from_c_bytes(Some(vec![b'A', 0xff, b'B'])), "A\u{fffd}B");
    assert_eq!(text_from_c_bytes(Some("Écran".as_bytes().to_vec())), "Écran");
}

#[test]
fn escape_press_closes_after_this_frame() {
    let mut state = LoopState::new();
    assert_eq!(state.frame_plan(), frame());
    let events = vec![
        Event::FramebufferResize(800, 600),
        Event::Key(KeyCode::Escape, 9, KeyAction::Press, 0),
        Event::Other,
    ];
    state.dispatch_events(&events);
    assert!(state.close_flag);
    assert!(state.frame_plan().is_empty());
}

#[test]
fn escape_release_and_other_keys_are_ignored() {
    let mut state = LoopState::new();
    let events = vec![
        Event::Key(KeyCode::Escape, 9, KeyAction::Release, 0),
        Event::Key(KeyCode::Escape, 9, KeyAction::Repeat, 0),
        Event::Key(KeyCode::Other(65), 38, KeyAction::Press, 0),
    ];
    state.dispatch_events(&events);
    assert!(!state.close_flag);
    assert_eq!(state.frame_plan(), frame());
}

#[test]
fn escape_press_with_modifiers_closes() {
    let mut state = LoopState::new();
    state.dispatch_event(&Event::Key(KeyCode::Escape, 9, KeyAction::Press, 0x0001));
    assert!(state.close_flag);
}

#[test]
fn resize_does_not_change_frames() {
    let mut state = LoopState::new();
    let before = state;
    state.dispatch_event(&Event::FramebufferResize(1, 1));
    assert_eq!(state, before);
    assert_eq!(state.frame_plan(), frame());
}

#[test]
fn idle_frames_repeat_unchanged() {
    let mut state = LoopState::new();
    for _ in 0..1000 {
        assert_eq!(state.frame_plan(), frame());
        state.dispatch_events(&Vec::new());
    }
    assert_eq!(state, LoopState::new());
}

#[test]
fn window_close_control_ends_loop() {
    let mut state = LoopState::new();
    state.request_close();
    assert!(state.frame_plan().is_empty());
    state.dispatch_events(&vec![Event::Other]);
    assert!(state.close_flag);
}

#[test]
fn exit_codes() {
    assert_eq!(exit_code(&Outcome::Interrupted), 0);
    assert_eq!(exit_code(&Outcome::Closed), 0);
    for e in [
        SetupError::ToolkitInit,
        SetupError::NoDisplay,
        SetupError::NoVideoMode,
        SetupError::InvalidVideoMode,
        SetupError::WindowCreation,
        SetupError::SignalHandler,
    ] {
        assert_eq!(exit_code(&Outcome::SetupFailed(e)), 1);
    }
}
