//! The four window commands: which platform calls each one issues and what
//! each one decides from a platform read.

use vstd::prelude::*;
use crate::mode::{DisplayMode, spec_parse_display_mode, parse_display_mode,
    lemma_unrecognized_mode_is_windowed};
use crate::window::{WindowState, WindowAction, spec_apply_action, spec_apply_plan,
    apply_plan};

verus! {

/// Width the windowed preset resizes to.
pub const DEFAULT_WIDTH: u32 = 1280;

/// Height the windowed preset resizes to.
pub const DEFAULT_HEIGHT: u32 = 720;

/// The platform calls a preset issues, in order.
pub open spec fn spec_display_mode_plan(m: DisplayMode) -> Seq<WindowAction> {
    match m {
        DisplayMode::Fullscreen => seq![
            WindowAction::SetDecorations(true),
            WindowAction::SetFullscreen(true),
        ],
        DisplayMode::Borderless => seq![
            WindowAction::SetFullscreen(false),
            WindowAction::SetDecorations(false),
            WindowAction::Maximize,
        ],
        DisplayMode::Windowed => seq![
            WindowAction::SetFullscreen(false),
            WindowAction::SetDecorations(true),
            WindowAction::Unmaximize,
            WindowAction::SetSize(DEFAULT_WIDTH, DEFAULT_HEIGHT),
            WindowAction::Center,
        ],
    }
}

/// The window attributes after the SetDisplayMode command for a request
/// string, when every platform call succeeds.
pub open spec fn spec_set_display_mode(s: WindowState, req: Seq<char>) -> WindowState {
    spec_apply_plan(s, spec_display_mode_plan(spec_parse_display_mode(req)))
}

/// Builds the list of platform calls for a preset, in the order the host
/// glue must attempt them.
pub fn display_mode_plan(m: DisplayMode) -> (plan: Vec<WindowAction>)
    ensures
        plan@ == spec_display_mode_plan(m),
{
    let mut plan: Vec<WindowAction> = Vec::new();
    match m {
        DisplayMode::Fullscreen => {
            plan.push(WindowAction::SetDecorations(true));
            plan.push(WindowAction::SetFullscreen(true));
        },
        DisplayMode::Borderless => {
            plan.push(WindowAction::SetFullscreen(false));
            plan.push(WindowAction::SetDecorations(false));
            plan.push(WindowAction::Maximize);
        },
        DisplayMode::Windowed => {
            plan.push(WindowAction::SetFullscreen(false));
            plan.push(WindowAction::SetDecorations(true));
            plan.push(WindowAction::Unmaximize);
            plan.push(WindowAction::SetSize(DEFAULT_WIDTH, DEFAULT_HEIGHT));
            plan.push(WindowAction::Center);
        },
    }
    proof {
        assert(plan@ =~= spec_display_mode_plan(m));
    }
    plan
}

/// The SetDisplayMode command on the window model: parses the request
/// string and applies the selected preset's calls, all of them succeeding.
pub fn set_display_mode(s: WindowState, req: &str) -> (r: WindowState)
    ensures
        r == spec_set_display_mode(s, req@),
{
    let m = parse_display_mode(req);
    let plan = display_mode_plan(m);
    apply_plan(s, &plan)
}

/// What a fullscreen read yields to the facade: the read value, or false
/// when the platform could not report one.
pub open spec fn spec_read_fullscreen(read: Option<bool>) -> bool {
    match read {
        Some(b) => b,
        None => false,
    }
}

/// The IsFullscreen command: reports the fullscreen state a platform read
/// returned, defaulting to false on a failed read.  No side effects.
pub fn is_fullscreen(read: Option<bool>) -> (r: bool)
    ensures
        r == spec_read_fullscreen(read),
{
    match read {
        Some(b) => b,
        None => false,
    }
}

/// The ToggleFullscreen command's decision: the fullscreen value to write
/// back, the negation of what a platform read returned (false on a failed
/// read).
pub fn toggle_fullscreen_target(read: Option<bool>) -> (target: bool)
    ensures
        target == !spec_read_fullscreen(read),
{
    !is_fullscreen(read)
}

/// The window attributes after the ToggleFullscreen command, when the read
/// and the write both succeed.
pub open spec fn spec_toggle_fullscreen(s: WindowState) -> WindowState {
    spec_apply_action(s, WindowAction::SetFullscreen(!spec_read_fullscreen(Some(s.fullscreen))))
}

/// The exit code the Quit command terminates the process with.
pub fn quit_exit_code() -> (code: i32)
    ensures
        code == 0,
{
    0
}

/// After SetDisplayMode, the window's attributes match the selected preset,
/// assuming the platform calls succeed: the fullscreen preset turns
/// decorations and fullscreen on; the borderless preset turns fullscreen
/// and decorations off and maximizes; the windowed preset turns fullscreen
/// off, turns decorations on, restores from maximized, resizes to the
/// default size and centers.  Attributes a preset does not name keep their
/// values.
pub proof fn lemma_preset_establishes_attributes(s: WindowState, m: DisplayMode)
    ensures
        m == DisplayMode::Fullscreen ==> spec_apply_plan(s, spec_display_mode_plan(m))
            == (WindowState { decorations: true, fullscreen: true, ..s }),
        m == DisplayMode::Borderless ==> spec_apply_plan(s, spec_display_mode_plan(m))
            == (WindowState { fullscreen: false, decorations: false, maximized: true, ..s }),
        m == DisplayMode::Windowed ==> spec_apply_plan(s, spec_display_mode_plan(m))
            == (WindowState {
                fullscreen: false,
                decorations: true,
                maximized: false,
                width: DEFAULT_WIDTH,
                height: DEFAULT_HEIGHT,
                centered: true,
                ..s
            }),
{
    reveal_with_fuel(spec_apply_plan, 6);
    let plan = spec_display_mode_plan(m);
    match m {
        DisplayMode::Fullscreen => {
            assert(plan.skip(1) =~= seq![WindowAction::SetFullscreen(true)]);
            assert(plan.skip(1).skip(1) =~= Seq::<WindowAction>::empty());
        },
        DisplayMode::Borderless => {
            assert(plan.skip(1) =~= seq![
                WindowAction::SetDecorations(false),
                WindowAction::Maximize,
            ]);
            assert(plan.skip(1).skip(1) =~= seq![WindowAction::Maximize]);
            assert(plan.skip(1).skip(1).skip(1) =~= Seq::<WindowAction>::empty());
        },
        DisplayMode::Windowed => {
            assert(plan.skip(1) =~= seq![
                WindowAction::SetDecorations(true),
                WindowAction::Unmaximize,
                WindowAction::SetSize(DEFAULT_WIDTH, DEFAULT_HEIGHT),
                WindowAction::Center,
            ]);
            assert(plan.skip(1).skip(1) =~= seq![
                WindowAction::Unmaximize,
                WindowAction::SetSize(DEFAULT_WIDTH, DEFAULT_HEIGHT),
                WindowAction::Center,
            ]);
            assert(plan.skip(1).skip(1).skip(1) =~= seq![
                WindowAction::SetSize(DEFAULT_WIDTH, DEFAULT_HEIGHT),
                WindowAction::Center,
            ]);
            assert(plan.skip(1).skip(1).skip(1).skip(1) =~= seq![WindowAction::Center]);
            assert(plan.skip(1).skip(1).skip(1).skip(1).skip(1)
                =~= Seq::<WindowAction>::empty());
        },
    }
}

/// Default-case equivalence: a request string other than the two named
/// presets and the literal windowed request produce identical observable
/// results.
pub proof fn lemma_default_case_equivalence(s: WindowState, req: Seq<char>)
    requires
        req != "fullscreen"@,
        req != "borderless"@,
    ensures
        spec_set_display_mode(s, req) == spec_set_display_mode(s, "windowed"@),
{
    lemma_unrecognized_mode_is_windowed(req);
}

/// Toggling fullscreen twice in succession, with no external interference
/// and every platform call succeeding, returns the window to its original
/// state.
pub proof fn lemma_toggle_twice_restores(s: WindowState)
    ensures
        spec_toggle_fullscreen(spec_toggle_fullscreen(s)) == s,
{
}

/// A fullscreen read taken right after SetDisplayMode reports true for the
/// fullscreen preset and false for the windowed and borderless presets,
/// assuming the platform calls and the read succeed.
pub proof fn lemma_query_after_set(s: WindowState, req: Seq<char>)
    ensures
        spec_parse_display_mode(req) == DisplayMode::Fullscreen
            ==> spec_read_fullscreen(Some(spec_set_display_mode(s, req).fullscreen)),
        spec_parse_display_mode(req) != DisplayMode::Fullscreen
            ==> !spec_read_fullscreen(Some(spec_set_display_mode(s, req).fullscreen)),
{
    lemma_preset_establishes_attributes(s, spec_parse_display_mode(req));
}

} // verus!
