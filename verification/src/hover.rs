//! Tracking whether the pointer is over the overlay in pass-through mode.
//!
//! The front end fades the overlay while the pointer hovers it. A poll reads the
//! mode and the pointer; one step of it is decided here.

use vstd::prelude::*;
use crate::mode::OverlayMode;

verus! {

/// What one poll decides: whether the pointer now counts as over the overlay,
/// and the value to announce in a `mouse-hover` event, if any.
#[derive(Clone, Copy, PartialEq, Eq, Debug, Structural)]
pub struct HoverUpdate {
    pub in_overlay: bool,
    pub announce: Option<bool>,
}

/// Whether the pointer counts as over the overlay after a poll in `mode`, when
/// it counted as `current` before and the pointer probe gave `probe` (`None`
/// when the pointer's place could not be read). In edit mode the overlay is
/// always shown, so the pointer never counts as over it.
pub open spec fn hover_next(mode: OverlayMode, current: bool, probe: Option<bool>) -> bool {
    if mode != OverlayMode::PassThrough {
        false
    } else {
        match probe {
            None => current,
            Some(b) => b,
        }
    }
}

/// The update that one poll makes: an event is announced exactly when the
/// state changes, and it carries the new state.
pub open spec fn hover_update(mode: OverlayMode, current: bool, probe: Option<bool>) -> HoverUpdate {
    let next = hover_next(mode, current, probe);
    HoverUpdate { in_overlay: next, announce: if next != current { Some(next) } else { None } }
}

/// Whether a poll in `mode` needs to read the pointer: only in pass-through mode.
pub fn wants_pointer_probe(mode: OverlayMode) -> (r: bool)
    ensures
        r == (mode == OverlayMode::PassThrough),
{
    mode == OverlayMode::PassThrough
}

/// One step of the hover poll.
pub fn hover_step(mode: OverlayMode, current: bool, probe: Option<bool>) -> (u: HoverUpdate)
    ensures
        u == hover_update(mode, current, probe),
{
    let next = if mode != OverlayMode::PassThrough {
        false
    } else {
        match probe {
            None => current,
            Some(b) => b,
        }
    };
    HoverUpdate { in_overlay: next, announce: if next != current { Some(next) } else { None } }
}

/// Whether the pointer is over the overlay, as the front end asks it: `false`
/// when the pointer's place could not be read.
pub fn pointer_over_overlay(probe: Option<bool>) -> (r: bool)
    ensures
        r == (probe == Some(true)),
{
    match probe {
        None => false,
        Some(b) => b,
    }
}

/// After a poll in edit mode the pointer does not count as over the overlay;
/// the announced value, when there is one, is the new state and differs from
/// the old one; and polling again in the same situation announces nothing.
pub proof fn lemma_hover_announces_changes(mode: OverlayMode, current: bool, probe: Option<bool>)
    ensures
        mode == OverlayMode::Edit ==> !hover_update(mode, current, probe).in_overlay,
        hover_update(mode, current, probe).announce is Some <==> hover_update(mode, current, probe).in_overlay != current,
        hover_update(mode, current, probe).announce is Some ==> hover_update(mode, current, probe).announce == Some(hover_update(mode, current, probe).in_overlay),
        hover_update(mode, hover_update(mode, current, probe).in_overlay, probe).announce is None,
{
}


/// The values announced by a run of polls that starts with the pointer counted
/// as `current`, poll `k` being made in mode `polls[k].0` with probe
/// `polls[k].1`.
pub open spec fn hover_announcements(current: bool, polls: Seq<(OverlayMode, Option<bool>)>) -> Seq<bool>
    decreases polls.len(),
{
    if polls.len() == 0 {
        Seq::empty()
    } else {
        let u = hover_update(polls[0].0, current, polls[0].1);
        let rest = hover_announcements(u.in_overlay, polls.drop_first());
        match u.announce {
            Some(v) => seq![v] + rest,
            None => rest,
        }
    }
}

/// Whether the pointer counts as over the overlay after that run of polls.
pub open spec fn hover_after(current: bool, polls: Seq<(OverlayMode, Option<bool>)>) -> bool
    decreases polls.len(),
{
    if polls.len() == 0 {
        current
    } else {
        hover_after(hover_update(polls[0].0, current, polls[0].1).in_overlay, polls.drop_first())
    }
}

/// Over any run of polls, the announced values alternate, the first being
/// the opposite of the starting state (so `true, false, true, ...` from the
/// start-up state `false`); the last announced value is the state after the
/// run, and a run that announces nothing leaves the state as it was.
pub proof fn lemma_hover_events_alternate(current: bool, polls: Seq<(OverlayMode, Option<bool>)>)
    ensures
        forall|k: int| 0 <= k < hover_announcements(current, polls).len() ==>
            #[trigger] hover_announcements(current, polls)[k] == (if k % 2 == 0 { !current } else { current }),
        hover_announcements(current, polls).len() > 0 ==> hover_announcements(current, polls).last() == hover_after(current, polls),
        hover_announcements(current, polls).len() == 0 ==> hover_after(current, polls) == current,
    decreases polls.len(),
{
    if polls.len() > 0 {
        let u = hover_update(polls[0].0, current, polls[0].1);
        let rest = polls.drop_first();
        lemma_hover_events_alternate(u.in_overlay, rest);
        let tail = hover_announcements(u.in_overlay, rest);
        let all = hover_announcements(current, polls);
        match u.announce {
            Some(v) => {
                assert(v == !current);
                assert(all == seq![v] + tail);
                assert forall|k: int| 0 <= k < all.len() implies #[trigger] all[k] == (if k % 2 == 0 { !current } else { current }) by {
                    if k > 0 {
                        assert(all[k] == tail[k - 1]);
                    }
                }
                if tail.len() > 0 {
                    assert(all.last() == tail.last());
                }
            },
            None => {
                assert(u.in_overlay == current);
                assert(all == tail);
            },
        }
    }
}

} // verus!
