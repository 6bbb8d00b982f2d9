use window_control::facade::{
    display_mode_plan, is_fullscreen, quit_exit_code, set_display_mode, toggle_fullscreen_target,
    DEFAULT_HEIGHT, DEFAULT_WIDTH,
};
use window_control::mode::{parse_display_mode, DisplayMode};
use window_control::window::{
    apply_action, apply_outcome, apply_outcomes, apply_plan, WindowAction, WindowState,
};

fn sample_state() -> WindowState {
    WindowState {
        fullscreen: true,
        decorations: false,
        maximized: true,
        width: 640,
        height: 480,
        centered: false,
    }
}

#[test]
fn parse_recognizes_named_presets() {
    assert_eq!(parse_display_mode("fullscreen"), DisplayMode::Fullscreen);
    assert_eq!(parse_display_mode("borderless"), DisplayMode::Borderless);
    assert_eq!(parse_display_mode("windowed"), DisplayMode::Windowed);
}

#[test]
fn parse_defaults_to_windowed() {
    assert_eq!(parse_display_mode(""), DisplayMode::Windowed);
    assert_eq!(parse_display_mode("Fullscreen"), DisplayMode::Windowed);
    assert_eq!(parse_display_mode("fullscreen "), DisplayMode::Windowed);
    assert_eq!(parse_display_mode("anything-unrecognized"), DisplayMode::Windowed);
}

#[test]
fn fullscreen_plan_order() {
    let plan = display_mode_plan(DisplayMode::Fullscreen);
    assert_eq!(
        plan,
        vec![
            WindowAction::SetDecorations(true),
            WindowAction::SetFullscreen(true),
        ]
    );
}

#[test]
fn borderless_plan_order() {
    let plan = display_mode_plan(DisplayMode::Borderless);
    assert_eq!(
        plan,
        vec![
            WindowAction::SetFullscreen(false),
            WindowAction::SetDecorations(false),
            WindowAction::Maximize,
        ]
    );
}

#[test]
fn windowed_plan_order() {
    let plan = display_mode_plan(DisplayMode::Windowed);
    assert_eq!(
        plan,
        vec![
            WindowAction::SetFullscreen(false),
            WindowAction::SetDecorations(true),
            WindowAction::Unmaximize,
            WindowAction::SetSize(DEFAULT_WIDTH, DEFAULT_HEIGHT),
            WindowAction::Center,
        ]
    );
}

#[test]
fn set_display_mode_fullscreen_preset() {
    let start = WindowState {
        fullscreen: false,
        decorations: false,
        maximized: true,
        width: 800,
        height: 600,
        centered: false,
    };
    let end = set_display_mode(start, "fullscreen");
    assert!(end.fullscreen);
    assert!(end.decorations);
    // Attributes the preset does not name keep their values.
    assert!(end.maximized);
    assert_eq!(end.width, 800);
    assert_eq!(end.height, 600);
    assert!(!end.centered);
}

#[test]
fn set_display_mode_borderless_preset() {
    let start = sample_state();
    let end = set_display_mode(start, "borderless");
    assert!(!end.fullscreen);
    assert!(!end.decorations);
    assert!(end.maximized);
    assert_eq!(end.width, 640);
    assert_eq!(end.height, 480);
    assert!(!end.centered);
}

#[test]
fn set_display_mode_windowed_preset() {
    let start = sample_state();
    let end = set_display_mode(start, "windowed");
    assert!(!end.fullscreen);
    assert!(end.decorations);
    assert!(!end.maximized);
    assert_eq!(end.width, 1280);
    assert_eq!(end.height, 720);
    assert!(end.centered);
}

#[test]
fn unrecognized_mode_equals_windowed() {
    let start = sample_state();
    let windowed = set_display_mode(start, "windowed");
    assert_eq!(set_display_mode(start, "anything-unrecognized"), windowed);
    assert_eq!(set_display_mode(start, ""), windowed);
    assert_eq!(set_display_mode(start, "WINDOWED"), windowed);
}

#[test]
fn toggle_negates_readable_state() {
    assert!(!toggle_fullscreen_target(Some(true)));
    assert!(toggle_fullscreen_target(Some(false)));
}

#[test]
fn toggle_defaults_to_entering_fullscreen_on_failed_read() {
    assert!(toggle_fullscreen_target(None));
}

#[test]
fn toggle_twice_restores_state() {
    for original in [false, true] {
        let mut state = WindowState {
            fullscreen: original,
            ..sample_state()
        };
        let first = toggle_fullscreen_target(Some(state.fullscreen));
        state = apply_action(state, WindowAction::SetFullscreen(first));
        assert_eq!(state.fullscreen, !original);
        let second = toggle_fullscreen_target(Some(state.fullscreen));
        state = apply_action(state, WindowAction::SetFullscreen(second));
        assert_eq!(state.fullscreen, original);
    }
}

#[test]
fn is_fullscreen_reports_read_value() {
    assert!(is_fullscreen(Some(true)));
    assert!(!is_fullscreen(Some(false)));
    assert!(!is_fullscreen(None));
}

#[test]
fn is_fullscreen_after_set_display_mode() {
    let start = sample_state();
    let fullscreen = set_display_mode(start, "fullscreen");
    assert!(is_fullscreen(Some(fullscreen.fullscreen)));
    let windowed = set_display_mode(start, "windowed");
    assert!(!is_fullscreen(Some(windowed.fullscreen)));
}

#[test]
fn quit_exits_with_code_zero() {
    assert_eq!(quit_exit_code(), 0);
}

#[test]
fn failed_call_is_discarded() {
    let start = sample_state();
    assert_eq!(
        apply_outcome(start, WindowAction::SetFullscreen(false), false),
        start
    );
    assert_eq!(
        apply_outcome(start, WindowAction::SetFullscreen(false), true),
        WindowState {
            fullscreen: false,
            ..start
        }
    );
}

#[test]
fn later_calls_execute_after_a_failure() {
    // The borderless preset with the decoration call failing: the window
    // still leaves fullscreen and still maximizes.
    let start = sample_state();
    let plan = display_mode_plan(DisplayMode::Borderless);
    let oks = vec![true, false, true];
    let end = apply_outcomes(start, &plan, &oks);
    assert!(!end.fullscreen);
    assert!(!end.decorations); // sample_state starts without decorations
    assert!(end.maximized);

    let decorated = WindowState {
        decorations: true,
        ..start
    };
    let end = apply_outcomes(decorated, &plan, &oks);
    assert!(end.decorations); // the failed call changed nothing
    assert!(end.maximized);
}

#[test]
fn all_successful_outcomes_match_plain_application() {
    let start = sample_state();
    let plan = display_mode_plan(DisplayMode::Windowed);
    let oks = vec![true; plan.len()];
    assert_eq!(apply_outcomes(start, &plan, &oks), apply_plan(start, &plan));
}
