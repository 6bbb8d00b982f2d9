//! The display-mode presets and how a request string selects one.

use vstd::prelude::*;
use vstd::string::StrSliceExecFns;

verus! {

/// A named bundle of window-attribute settings that the facade can apply.
#[derive(Clone, Copy, Debug, PartialEq, Eq, Structural)]
pub enum DisplayMode {
    /// Decorated, fullscreen window.
    Fullscreen,
    /// Undecorated, maximized window.
    Borderless,
    /// Decorated window at the default size, centered.
    Windowed,
}

/// Which preset a request string selects.  Any string other than the two
/// named presets falls back to the windowed preset.
pub open spec fn spec_parse_display_mode(req: Seq<char>) -> DisplayMode {
    if req == "fullscreen"@ {
        DisplayMode::Fullscreen
    } else if req == "borderless"@ {
        DisplayMode::Borderless
    } else {
        DisplayMode::Windowed
    }
}

/// Character-for-character equality of two strings.
fn str_eq(a: &str, b: &str) -> (r: bool)
    ensures
        r == (a@ == b@),
{
    let a_len = a.unicode_len();
    let b_len = b.unicode_len();
    if a_len != b_len {
        return false;
    }
    let mut i: usize = 0;
    while i < a_len
        invariant
            a_len == a@.len(),
            b_len == b@.len(),
            a_len == b_len,
            i <= a_len,
            forall|j: int| 0 <= j < i ==> a@[j] == b@[j],
        decreases a_len - i,
    {
        if a.get_char(i) != b.get_char(i) {
            return false;
        }
        i = i + 1;
    }
    proof {
        assert(a@ =~= b@);
    }
    true
}

/// Parses a display-mode request string into the preset it selects.
pub fn parse_display_mode(req: &str) -> (m: DisplayMode)
    ensures
        m == spec_parse_display_mode(req@),
{
    if str_eq(req, "fullscreen") {
        DisplayMode::Fullscreen
    } else if str_eq(req, "borderless") {
        DisplayMode::Borderless
    } else {
        DisplayMode::Windowed
    }
}

/// Default-case equivalence: every request string other than the two named
/// presets selects the same preset as the literal windowed request, so the
/// two produce identical observable results.
pub proof fn lemma_unrecognized_mode_is_windowed(req: Seq<char>)
    requires
        req != "fullscreen"@,
        req != "borderless"@,
    ensures
        spec_parse_display_mode(req) == DisplayMode::Windowed,
        spec_parse_display_mode(req) == spec_parse_display_mode("windowed"@),
{
    reveal_strlit("windowed");
    reveal_strlit("fullscreen");
    reveal_strlit("borderless");
    assert("windowed"@.len() == 8);
    assert("fullscreen"@.len() == 10);
    assert("borderless"@.len() == 10);
}

} // verus!
