//! A model of the window's presentation attributes and of the platform
//! calls the facade issues against them.

use vstd::prelude::*;

verus! {

/// The presentation attributes of the single top-level window, as the
/// platform exposes them.  The host framework owns the window; the facade
/// only mutates these attributes on request.
#[derive(Clone, Copy, Debug, PartialEq, Eq, Structural)]
pub struct WindowState {
    /// Whether the window covers the whole screen.
    pub fullscreen: bool,
    /// Whether the window shows its title bar and borders.
    pub decorations: bool,
    /// Whether the window is maximized.
    pub maximized: bool,
    /// Window width in pixels.
    pub width: u32,
    /// Window height in pixels.
    pub height: u32,
    /// Whether the window was last centered on the primary display.
    pub centered: bool,
}

/// One platform call against the window.
#[derive(Clone, Copy, Debug, PartialEq, Eq, Structural)]
pub enum WindowAction {
    /// Enable or disable fullscreen.
    SetFullscreen(bool),
    /// Enable or disable the title bar and borders.
    SetDecorations(bool),
    /// Maximize the window.
    Maximize,
    /// Restore the window from the maximized state.
    Unmaximize,
    /// Resize the window to the given width and height.
    SetSize(u32, u32),
    /// Center the window on the primary display.
    Center,
}

/// The attributes after one platform call succeeds: each call sets exactly
/// the attributes it names and leaves the rest alone.
pub open spec fn spec_apply_action(s: WindowState, a: WindowAction) -> WindowState {
    match a {
        WindowAction::SetFullscreen(b) => WindowState { fullscreen: b, ..s },
        WindowAction::SetDecorations(b) => WindowState { decorations: b, ..s },
        WindowAction::Maximize => WindowState { maximized: true, ..s },
        WindowAction::Unmaximize => WindowState { maximized: false, ..s },
        WindowAction::SetSize(w, h) => WindowState { width: w, height: h, ..s },
        WindowAction::Center => WindowState { centered: true, ..s },
    }
}

/// The attributes after one platform call that may fail: a failed call is
/// discarded and changes nothing.
pub open spec fn spec_apply_outcome(s: WindowState, a: WindowAction, ok: bool) -> WindowState {
    if ok {
        spec_apply_action(s, a)
    } else {
        s
    }
}

/// The attributes after a sequence of platform calls when every call
/// succeeds, applied front to back.
pub open spec fn spec_apply_plan(s: WindowState, plan: Seq<WindowAction>) -> WindowState
    decreases plan.len(),
{
    if plan.len() == 0 {
        s
    } else {
        spec_apply_plan(spec_apply_action(s, plan[0]), plan.skip(1))
    }
}

/// The attributes after a sequence of platform calls of which some may
/// fail: each failure is discarded and the later calls still execute.
pub open spec fn spec_apply_outcomes(
    s: WindowState,
    plan: Seq<WindowAction>,
    oks: Seq<bool>,
) -> WindowState
    decreases plan.len(),
{
    if plan.len() == 0 {
        s
    } else {
        let ok = oks.len() > 0 && oks[0];
        spec_apply_outcomes(spec_apply_outcome(s, plan[0], ok), plan.skip(1), oks.skip(1))
    }
}

/// Applies one platform call to the window model, assuming the call
/// succeeds.
pub fn apply_action(s: WindowState, a: WindowAction) -> (r: WindowState)
    ensures
        r == spec_apply_action(s, a),
{
    match a {
        WindowAction::SetFullscreen(b) => WindowState { fullscreen: b, ..s },
        WindowAction::SetDecorations(b) => WindowState { decorations: b, ..s },
        WindowAction::Maximize => WindowState { maximized: true, ..s },
        WindowAction::Unmaximize => WindowState { maximized: false, ..s },
        WindowAction::SetSize(w, h) => WindowState { width: w, height: h, ..s },
        WindowAction::Center => WindowState { centered: true, ..s },
    }
}

/// Applies one platform call whose success is reported by `ok`: a failed
/// call changes nothing.
pub fn apply_outcome(s: WindowState, a: WindowAction, ok: bool) -> (r: WindowState)
    ensures
        r == spec_apply_outcome(s, a, ok),
{
    if ok {
        apply_action(s, a)
    } else {
        s
    }
}

/// Applies a whole plan to the window model, assuming every call succeeds.
pub fn apply_plan(s: WindowState, plan: &Vec<WindowAction>) -> (r: WindowState)
    ensures
        r == spec_apply_plan(s, plan@),
{
    let mut cur = s;
    let mut i: usize = 0;
    proof {
        assert(plan@.skip(0) =~= plan@);
    }
    while i < plan.len()
        invariant
            i <= plan@.len(),
            spec_apply_plan(cur, plan@.skip(i as int)) == spec_apply_plan(s, plan@),
        decreases plan@.len() - i,
    {
        proof {
            assert(plan@.skip(i as int)[0] == plan@[i as int]);
            assert(plan@.skip(i as int).skip(1) =~= plan@.skip(i as int + 1));
        }
        cur = apply_action(cur, plan[i]);
        i = i + 1;
    }
    proof {
        assert(plan@.skip(plan@.len() as int).len() == 0);
    }
    cur
}

/// Applies a whole plan of which some calls may fail, `oks[j]` reporting
/// whether the `j`-th call succeeded: each failure is discarded and the
/// later calls still execute.
pub fn apply_outcomes(s: WindowState, plan: &Vec<WindowAction>, oks: &Vec<bool>) -> (r: WindowState)
    requires
        oks@.len() == plan@.len(),
    ensures
        r == spec_apply_outcomes(s, plan@, oks@),
{
    let mut cur = s;
    let mut i: usize = 0;
    proof {
        assert(plan@.skip(0) =~= plan@);
        assert(oks@.skip(0) =~= oks@);
    }
    while i < plan.len()
        invariant
            i <= plan@.len(),
            oks@.len() == plan@.len(),
            spec_apply_outcomes(cur, plan@.skip(i as int), oks@.skip(i as int))
                == spec_apply_outcomes(s, plan@, oks@),
        decreases plan@.len() - i,
    {
        proof {
            assert(plan@.skip(i as int)[0] == plan@[i as int]);
            assert(oks@.skip(i as int)[0] == oks@[i as int]);
            assert(plan@.skip(i as int).skip(1) =~= plan@.skip(i as int + 1));
            assert(oks@.skip(i as int).skip(1) =~= oks@.skip(i as int + 1));
        }
        cur = apply_outcome(cur, plan[i], oks[i]);
        i = i + 1;
    }
    proof {
        assert(plan@.skip(plan@.len() as int).len() == 0);
    }
    cur
}

} // verus!
