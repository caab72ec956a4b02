//! The frame loop's state machine, its fixed step order, and the window
//! startup decisions.

use nengine::frame::{
    EngineState, FrameDriver, FrameStep, KeyAction, PlatformEvent, KEY_ESCAPE,
};
use nengine::window::{
    resolve_window_mode, resolve_window_size, DisplayOptions, Size, WindowModeChoice,
    WindowOptions, WindowProperties,
};

#[test]
fn escape_release_closes_the_loop() {
    let mut d = FrameDriver::new();
    assert_eq!(d.state, EngineState::Running);
    assert!(!d.should_close());
    d.handle_events(&vec![
        PlatformEvent::Other,
        PlatformEvent::Key { key_code: KEY_ESCAPE, action: KeyAction::Release },
    ]);
    assert!(d.should_close());
}

#[test]
fn other_keys_and_presses_keep_the_loop_running() {
    let mut d = FrameDriver::new();
    d.handle_events(&vec![
        PlatformEvent::Key { key_code: KEY_ESCAPE, action: KeyAction::Press },
        PlatformEvent::Key { key_code: 65, action: KeyAction::Release },
        PlatformEvent::Other,
    ]);
    assert!(!d.should_close());
}

#[test]
fn closing_is_terminal() {
    let mut d = FrameDriver::new();
    d.request_close();
    assert!(d.should_close());
    d.handle_events(&vec![PlatformEvent::Other]);
    assert!(d.should_close());
}

#[test]
fn a_running_frame_follows_the_fixed_order() {
    let d = FrameDriver::new();
    let plan = d.frame_plan();
    assert_eq!(
        plan,
        vec![
            FrameStep::PollEvents,
            FrameStep::ReloadScripts,
            FrameStep::ClearBuffers,
            FrameStep::UpdateTransforms,
            FrameStep::UploadUniforms,
            FrameStep::DrawScene,
            FrameStep::Present,
        ]
    );
}

#[test]
fn a_closing_frame_does_nothing() {
    let mut d = FrameDriver::new();
    d.request_close();
    assert!(d.frame_plan().is_empty());
}

fn props(size: Size, display: Option<DisplayOptions>) -> WindowProperties {
    WindowProperties {
        window_options: WindowOptions { title: String::from("nengine"), size },
        display_options: display,
    }
}

#[test]
fn window_size_uses_configured_size_without_display_options() {
    let p = props(Size::from(1024, 600), None);
    let s = resolve_window_size(&p, &None);
    assert_eq!((s.width, s.height), (1024, 600));
}

#[test]
fn window_size_fits_the_screen_when_asked() {
    let p = props(
        Size::from(1024, 600),
        Some(DisplayOptions { fit_screen: true, fullscreen: false }),
    );
    let s = resolve_window_size(&p, &Some(Size::from(1920, 1080)));
    assert_eq!((s.width, s.height), (1920, 1080));
}

#[test]
fn window_size_ignores_the_monitor_when_not_fitting() {
    let p = props(
        Size::from(800, 400),
        Some(DisplayOptions { fit_screen: false, fullscreen: true }),
    );
    let s = resolve_window_size(&p, &Some(Size::from(1920, 1080)));
    assert_eq!((s.width, s.height), (800, 400));
}

#[test]
fn window_mode_needs_monitor_and_flag() {
    let full = Some(DisplayOptions { fit_screen: false, fullscreen: true });
    let windowed = Some(DisplayOptions { fit_screen: false, fullscreen: false });
    assert_eq!(resolve_window_mode(&full, true), WindowModeChoice::Fullscreen);
    assert_eq!(resolve_window_mode(&full, false), WindowModeChoice::Windowed);
    assert_eq!(resolve_window_mode(&windowed, true), WindowModeChoice::Windowed);
    assert_eq!(resolve_window_mode(&None, true), WindowModeChoice::Windowed);
}

#[test]
fn default_window_options_are_800_by_400() {
    let o = WindowOptions::default();
    assert_eq!(o.title, "");
    assert_eq!((o.size.width, o.size.height), (800, 400));
}
