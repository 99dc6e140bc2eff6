//! The two mutually exclusive working modes of the overlay and what switching
//! between them does to the overlay window.

use vstd::prelude::*;
use crate::text::str_eq;

verus! {

/// Working mode of the overlay: in `Edit` it takes keyboard and mouse input; in
/// `PassThrough` the pointer goes through it to the application below.
#[derive(Clone, Copy, PartialEq, Eq, Debug, Structural)]
pub enum OverlayMode {
    Edit,
    PassThrough,
}

/// The name of a mode as the front end sends and receives it.
pub open spec fn mode_name(m: OverlayMode) -> Seq<char> {
    match m {
        OverlayMode::Edit => "edit"@,
        OverlayMode::PassThrough => "pass-through"@,
    }
}

/// The mode that a name from the front end selects: `"edit"` selects edit mode,
/// every other name pass-through mode.
pub open spec fn mode_from_name(s: Seq<char>) -> OverlayMode {
    if s == "edit"@ {
        OverlayMode::Edit
    } else {
        OverlayMode::PassThrough
    }
}

/// The other mode.
pub open spec fn other_mode(m: OverlayMode) -> OverlayMode {
    match m {
        OverlayMode::Edit => OverlayMode::PassThrough,
        OverlayMode::PassThrough => OverlayMode::Edit,
    }
}

/// What entering a mode does to the overlay window.
#[derive(Clone, Copy, PartialEq, Eq, Debug, Structural)]
pub struct ModeEffects {
    /// Whether the window lets the pointer through to the application below.
    pub ignore_cursor_events: bool,
    /// Whether the window takes the keyboard focus.
    pub take_focus: bool,
    /// The mode that the `mode-changed` event announces.
    pub announced: OverlayMode,
}

/// The effects of entering mode `m`.
pub open spec fn effects_of(m: OverlayMode) -> ModeEffects {
    ModeEffects {
        ignore_cursor_events: m == OverlayMode::PassThrough,
        take_focus: m == OverlayMode::Edit,
        announced: m,
    }
}

impl OverlayMode {
    /// The mode that a toggle switches to.
    pub fn toggled(self) -> (next: OverlayMode)
        ensures
            next == other_mode(self),
    {
        match self {
            OverlayMode::Edit => OverlayMode::PassThrough,
            OverlayMode::PassThrough => OverlayMode::Edit,
        }
    }

    /// The name of the mode: `"edit"` or `"pass-through"`.
    pub fn name(self) -> (s: &'static str)
        ensures
            s@ == mode_name(self),
    {
        match self {
            OverlayMode::Edit => "edit",
            OverlayMode::PassThrough => "pass-through",
        }
    }

    /// The mode that a name from the front end selects.
    pub fn from_name(s: &str) -> (m: OverlayMode)
        ensures
            m == mode_from_name(s@),
    {
        if str_eq(s, "edit") {
            OverlayMode::Edit
        } else {
            OverlayMode::PassThrough
        }
    }

    /// What entering this mode does to the overlay window.
    pub fn effects(self) -> (e: ModeEffects)
        ensures
            e == effects_of(self),
    {
        match self {
            OverlayMode::Edit => ModeEffects {
                ignore_cursor_events: false,
                take_focus: true,
                announced: OverlayMode::Edit,
            },
            OverlayMode::PassThrough => ModeEffects {
                ignore_cursor_events: true,
                take_focus: false,
                announced: OverlayMode::PassThrough,
            },
        }
    }
}

/// Toggling twice gives back the mode one started from, and a toggle always
/// changes the mode.
pub proof fn lemma_toggle_involution(m: OverlayMode)
    ensures
        other_mode(other_mode(m)) == m,
        other_mode(m) != m,
{
}

/// Reading a mode's name back selects that mode.
pub proof fn lemma_name_round_trip(m: OverlayMode)
    ensures
        mode_from_name(mode_name(m)) == m,
{
    reveal_strlit("edit");
    reveal_strlit("pass-through");
    if m == OverlayMode::PassThrough {
        assert(mode_name(m)[0] != "edit"@[0]);
    }
}

/// The pointer goes through the overlay exactly in pass-through mode, and the
/// overlay takes the focus exactly in edit mode.
pub proof fn lemma_pass_through_ignores_pointer(m: OverlayMode)
    ensures
        effects_of(m).ignore_cursor_events <==> m == OverlayMode::PassThrough,
        effects_of(m).take_focus <==> !effects_of(m).ignore_cursor_events,
{
}

} // verus!
