//! The selection engine's state machines and action plans: what one pick
//! decides at each step, from the filtered candidate set to the final
//! host actions. The host layer executes each decision and feeds the next
//! typed character back in.

use vstd::prelude::*;
use crate::{BufferId, PaneId, SurfaceId};
use crate::draw::{spec_first_match, spec_resolve, Drawer};
use crate::filter::{
    filter_candidates,
    spec_candidates,
    spec_some_filter_errs,
    FilterError,
    PaneMeta,
};
use crate::geometry::Positions;
use crate::opts::FilterRules;

verus! {

/// What the filtering stage of one pick decides.
#[derive(Clone, Debug)]
pub enum PickPlan {
    /// The host enumerated no panes at all; the pick ends with no selection.
    NoPanes,
    /// Filtering excluded every pane; the pick ends with no selection.
    NoneLeft,
    /// Exactly one candidate remained and `autoselect_one` is set: that pane
    /// is picked outright, and no overlay surface is ever created.
    Auto(PaneId),
    /// Hints must be drawn over these candidates, in enumeration order.
    Draw(Vec<PaneId>),
}

/// Decide the course of one pick from the enumerated panes' metadata: filter
/// them in order, then either finish without drawing (no candidates, or a
/// lone candidate under `autoselect_one`) or hand back the candidate set to
/// draw hints over.
pub fn plan_pick(rules: &FilterRules, panes: &Vec<PaneMeta>) -> (r: Result<PickPlan, FilterError>)
    ensures
        r matches Err(e) ==> spec_some_filter_errs(*rules, panes@) && e
            == FilterError::BufferInfoUnavailable,
        r matches Ok(p) ==> !spec_some_filter_errs(*rules, panes@) || panes@.len() == 0,
        r matches Ok(p) ==> match p {
            PickPlan::NoPanes => panes@.len() == 0,
            PickPlan::NoneLeft => panes@.len() > 0 && spec_candidates(*rules, panes@).len() == 0,
            PickPlan::Auto(w) => spec_candidates(*rules, panes@).len() == 1
                && rules.autoselect_one && w == spec_candidates(*rules, panes@)[0],
            PickPlan::Draw(v) => v@ == spec_candidates(*rules, panes@) && v@.len() > 0 && !(v@.len()
                == 1 && rules.autoselect_one),
        },
{
    if panes.len() == 0 {
        return Ok(PickPlan::NoPanes);
    }
    let ids = match filter_candidates(rules, panes) {
        Ok(ids) => ids,
        Err(e) => {
            return Err(e);
        },
    };
    if ids.len() == 0 {
        Ok(PickPlan::NoneLeft)
    } else if ids.len() == 1 && rules.autoselect_one {
        Ok(PickPlan::Auto(ids[0]))
    } else {
        Ok(PickPlan::Draw(ids))
    }
}

/// Copy a list of pane handles.
pub fn copy_panes(v: &Vec<PaneId>) -> (r: Vec<PaneId>)
    ensures
        r@ == v@,
{
    let n: usize = v.len();
    let mut r: Vec<PaneId> = Vec::new();
    let mut i: usize = 0;
    while i < n
        invariant
            n == v@.len(),
            i <= n,
            r@ == v@.subrange(0, i as int),
        decreases n - i,
    {
        r.push(v[i]);
        proof {
            assert(r@ =~= v@.subrange(0, i + 1));
        }
        i = i + 1;
    }
    proof {
        assert(r@ =~= v@);
    }
    r
}

/// Toggling a pane in the selection: remove it if present (the last entry
/// takes its slot, so removal keeps no order), append it otherwise.
pub open spec fn spec_toggle(sel: Seq<PaneId>, t: PaneId) -> Seq<PaneId> {
    if sel.contains(t) {
        sel.update(sel.index_of(t), sel.last()).drop_last()
    } else {
        sel.push(t)
    }
}

/// Toggling keeps the selection free of duplicates, and drops or adds
/// exactly the toggled pane.
pub proof fn lemma_toggle_effect(sel: Seq<PaneId>, t: PaneId)
    requires
        sel.no_duplicates(),
    ensures
        spec_toggle(sel, t).no_duplicates(),
        sel.contains(t) ==> spec_toggle(sel, t).to_set() == sel.to_set().remove(t),
        !sel.contains(t) ==> spec_toggle(sel, t).to_set() == sel.to_set().insert(t),
{
    if sel.contains(t) {
        let i = sel.index_of(t);
        assert(0 <= i < sel.len() && sel[i] == t);
        let u = sel.update(i, sel.last()).drop_last();
        assert forall|a: int, b: int| 0 <= a < b < u.len() implies u[a] != u[b] by {
            assert(u[a] == (if a == i {
                sel[sel.len() - 1]
            } else {
                sel[a]
            }));
            assert(u[b] == (if b == i {
                sel[sel.len() - 1]
            } else {
                sel[b]
            }));
        }
        assert(u.no_duplicates());
        assert forall|x: PaneId| u.to_set().contains(x) implies sel.to_set().remove(t).contains(
            x,
        ) by {
            let j = choose|j: int| 0 <= j < u.len() && u[j] == x;
            if j == i {
                assert(sel[sel.len() - 1] == x);
                assert(x != t);
            } else {
                assert(sel[j] == x);
                assert(x != t);
            }
        }
        assert forall|x: PaneId| sel.to_set().remove(t).contains(x) implies u.to_set().contains(
            x,
        ) by {
            let j = choose|j: int| 0 <= j < sel.len() && sel[j] == x;
            if j == sel.len() - 1 {
                if i < sel.len() - 1 {
                    assert(u[i] == x);
                } else {
                    assert(sel[i] == t);
                    assert(x == t);
                }
            } else {
                assert(j != i);
                assert(u[j] == x);
            }
        }
        assert(u.to_set() =~= sel.to_set().remove(t));
    } else {
        let u = sel.push(t);
        assert forall|a: int, b: int| 0 <= a < b < u.len() implies u[a] != u[b] by {
            if b == sel.len() {
                assert(u[a] == sel[a]);
                assert(sel.contains(sel[a]) || a >= sel.len());
            }
        }
        assert forall|x: PaneId| u.to_set().contains(x) implies sel.to_set().insert(t).contains(
            x,
        ) by {
            let j = choose|j: int| 0 <= j < u.len() && u[j] == x;
            if j < sel.len() {
                assert(sel[j] == x);
            } else {
                assert(x == t);
            }
        }
        assert forall|x: PaneId| sel.to_set().insert(t).contains(x) implies u.to_set().contains(
            x,
        ) by {
            if x == t {
                assert(u[sel.len() as int] == x);
            } else {
                let j = choose|j: int| 0 <= j < sel.len() && sel[j] == x;
                assert(u[j] == x);
            }
        }
        assert(u.to_set() =~= sel.to_set().insert(t));
    }
}

/// Toggling the same pane twice returns the selection to its prior state,
/// as a set; the order of the untouched entries may change.
pub proof fn lemma_toggle_twice(sel: Seq<PaneId>, t: PaneId)
    requires
        sel.no_duplicates(),
    ensures
        spec_toggle(spec_toggle(sel, t), t).to_set() == sel.to_set(),
        spec_toggle(spec_toggle(sel, t), t).no_duplicates(),
{
    lemma_toggle_effect(sel, t);
    let once = spec_toggle(sel, t);
    lemma_toggle_effect(once, t);
    if sel.contains(t) {
        assert(!once.to_set().contains(t));
        assert(!once.contains(t)) by {
            if once.contains(t) {
                let j = choose|j: int| 0 <= j < once.len() && once[j] == t;
                assert(once.to_set().contains(t));
            }
        }
        assert(spec_toggle(once, t).to_set() =~= sel.to_set());
    } else {
        assert(once.to_set().contains(t));
        assert(once.contains(t)) by {
            assert(once[sel.len() as int] == t);
        }
        assert(spec_toggle(once, t).to_set() =~= sel.to_set());
    }
}

/// One toggle-based multi-pick session. The hint assignment is fixed when
/// the session starts and stays fixed for its whole life; the selection
/// grows and shrinks one toggle at a time.
#[derive(Clone, Debug)]
pub struct MultiPick {
    pub drawer: Drawer,
    pub trigger: char,
    pub commit: char,
    pub toggling: bool,
    pub selected: Vec<PaneId>,
}

/// What one typed character makes the multi-pick session do next.
#[derive(Clone, Debug)]
pub enum MultiStep {
    /// The session ended; these panes are its result. An empty list is a
    /// cancellation: an unmatched first character, or an unresolvable
    /// character during toggling, which discards the whole selection.
    Done(Vec<PaneId>),
    /// The trigger character armed the toggle loop; nothing is selected yet.
    Continue,
    /// The pane was toggled into the selection: mark its hint surface.
    Marked { target: PaneId, drawn: SurfaceId },
    /// The pane was toggled back out of the selection: unmark its surface.
    Unmarked { target: PaneId, drawn: SurfaceId },
}

impl MultiPick {
    /// The selection never holds a pane twice.
    pub open spec fn wf(&self) -> bool {
        self.selected@.no_duplicates()
    }

    /// A fresh session over a completed hint assignment, awaiting the first
    /// typed character.
    pub fn new(drawer: Drawer, trigger: char, commit: char) -> (r: Self)
        ensures
            r.drawer == drawer,
            r.trigger == trigger,
            r.commit == commit,
            !r.toggling,
            r.selected@.len() == 0,
            r.wf(),
    {
        MultiPick { drawer, trigger, commit, toggling: false, selected: Vec::new() }
    }

    /// Feed one typed character into the session.
    ///
    /// Before the trigger character arrives the session behaves as a single
    /// pick: the first character either resolves to one pane or cancels.
    /// Once armed, the commit character ends the session with the selection
    /// gathered so far; an unresolvable character aborts the whole session
    /// with an empty result; and a resolvable one toggles its pane in or
    /// out, the surface to mark or unmark handed back alongside.
    pub fn step(&mut self, ch: char) -> (r: MultiStep)
        requires
            old(self).wf(),
        ensures
            final(self).wf(),
            final(self).drawer == old(self).drawer,
            final(self).trigger == old(self).trigger,
            final(self).commit == old(self).commit,
            !old(self).toggling && ch == old(self).trigger ==> final(self).toggling
                && final(self).selected@ == old(self).selected@ && r == MultiStep::Continue,
            !old(self).toggling && ch != old(self).trigger ==> !final(self).toggling
                && final(self).selected@ == old(self).selected@ && (match spec_resolve(
                old(self).drawer.chars@,
                old(self).drawer.targets@,
                old(self).drawer.spec_pair_limit(),
                ch,
            ) {
                Some(w) => r matches MultiStep::Done(v) && v@ == seq![w],
                None => r matches MultiStep::Done(v) && v@.len() == 0,
            }),
            old(self).toggling && ch == old(self).commit ==> final(self).selected@
                == old(self).selected@ && (r matches MultiStep::Done(v) && v@ == old(
                self,
            ).selected@),
            old(self).toggling && ch != old(self).commit ==> match spec_first_match(
                old(self).drawer.chars@,
                old(self).drawer.spec_drawn_limit(),
                ch,
            ) {
                None => r matches MultiStep::Done(v) && v@.len() == 0 && final(self).selected@
                    == old(self).selected@,
                Some(i) => {
                    let t = old(self).drawer.targets@[i];
                    let d = old(self).drawer.drawn@[i];
                    &&& final(self).toggling
                    &&& final(self).selected@ == spec_toggle(old(self).selected@, t)
                    &&& old(self).selected@.contains(t) ==> r == (MultiStep::Unmarked {
                        target: t,
                        drawn: d,
                    })
                    &&& !old(self).selected@.contains(t) ==> r == (MultiStep::Marked {
                        target: t,
                        drawn: d,
                    })
                },
            },
    {
        if !self.toggling {
            if ch == self.trigger {
                self.toggling = true;
                return MultiStep::Continue;
            }
            let mut v: Vec<PaneId> = Vec::new();
            if let Some(w) = self.drawer.target_win_for_char(ch) {
                v.push(w);
            }
            return MultiStep::Done(v);
        }
        if ch == self.commit {
            return MultiStep::Done(copy_panes(&self.selected));
        }
        let (target, drawn) = match self.drawer.target_and_drawn_win_for_char(ch) {
            Some(p) => p,
            None => {
                return MultiStep::Done(Vec::new());
            },
        };
        let n: usize = self.selected.len();
        let mut i: usize = 0;
        while i < n
            invariant
                *self == *old(self),
                old(self).wf(),
                n == self.selected@.len(),
                i <= n,
                old(self).toggling,
                ch != old(self).commit,
                spec_first_match(
                    old(self).drawer.chars@,
                    old(self).drawer.spec_drawn_limit(),
                    ch,
                ) matches Some(k) && target == old(self).drawer.targets@[k] && drawn == old(
                    self,
                ).drawer.drawn@[k],
                forall|j: int| 0 <= j < i ==> self.selected@[j] != target,
            decreases n - i,
        {
            if self.selected[i] == target {
                proof {
                    assert(self.selected@.contains(target));
                    let j = self.selected@.index_of(target);
                    assert(0 <= j < self.selected@.len() && self.selected@[j] == target);
                    assert(j == i as int);
                    lemma_toggle_effect(self.selected@, target);
                }
                self.selected.swap_remove(i);
                return MultiStep::Unmarked { target, drawn };
            }
            i = i + 1;
        }
        proof {
            if self.selected@.contains(target) {
                let j = choose|j: int|
                    0 <= j < self.selected@.len() && self.selected@[j] == target;
                assert(self.selected@[j] != target);
            }
            lemma_toggle_effect(self.selected@, target);
        }
        self.selected.push(target);
        MultiStep::Marked { target, drawn }
    }
}

/// The host split modifier each non-center position maps to.
#[derive(Clone, Copy, Debug, PartialEq, Eq, Structural)]
pub enum SplitPlacement {
    TopLeft,
    BotRight,
    LeftAbove,
    BelowRight,
}

/// How to open a path relative to the picked pane: one split command, or,
/// for the center position, assigning the opened buffer into the pane
/// itself and deciding where focus goes afterwards.
#[derive(Clone, Copy, Debug, PartialEq, Eq, Structural)]
pub enum SplitPlan {
    Command { placement: SplitPlacement, vertical: bool },
    AssignCenter { refocus: Option<PaneId> },
}

/// The split command or center assignment for a chosen position. The four
/// full-edge positions pin to the container's edge, the four quarter
/// positions split next to the picked pane, and the center replaces the
/// pane's content, refocusing the given pane afterwards if one is named.
pub fn split_plan(pos: Positions, keep_focus_at: Option<PaneId>) -> (r: SplitPlan)
    ensures
        pos == Positions::TopFullHor ==> r == (SplitPlan::Command {
            placement: SplitPlacement::TopLeft,
            vertical: false,
        }),
        pos == Positions::LeftFullVer ==> r == (SplitPlan::Command {
            placement: SplitPlacement::TopLeft,
            vertical: true,
        }),
        pos == Positions::BotFullHor ==> r == (SplitPlan::Command {
            placement: SplitPlacement::BotRight,
            vertical: false,
        }),
        pos == Positions::RightFullVer ==> r == (SplitPlan::Command {
            placement: SplitPlacement::BotRight,
            vertical: true,
        }),
        pos == Positions::SplitTop ==> r == (SplitPlan::Command {
            placement: SplitPlacement::LeftAbove,
            vertical: false,
        }),
        pos == Positions::SplitRight ==> r == (SplitPlan::Command {
            placement: SplitPlacement::BelowRight,
            vertical: true,
        }),
        pos == Positions::SplitBot ==> r == (SplitPlan::Command {
            placement: SplitPlacement::BelowRight,
            vertical: false,
        }),
        pos == Positions::SplitLeft ==> r == (SplitPlan::Command {
            placement: SplitPlacement::LeftAbove,
            vertical: true,
        }),
        pos == Positions::Center ==> r == (SplitPlan::AssignCenter { refocus: keep_focus_at }),
{
    match pos {
        Positions::TopFullHor => SplitPlan::Command {
            placement: SplitPlacement::TopLeft,
            vertical: false,
        },
        Positions::LeftFullVer => SplitPlan::Command {
            placement: SplitPlacement::TopLeft,
            vertical: true,
        },
        Positions::BotFullHor => SplitPlan::Command {
            placement: SplitPlacement::BotRight,
            vertical: false,
        },
        Positions::RightFullVer => SplitPlan::Command {
            placement: SplitPlacement::BotRight,
            vertical: true,
        },
        Positions::SplitTop => SplitPlan::Command {
            placement: SplitPlacement::LeftAbove,
            vertical: false,
        },
        Positions::SplitRight => SplitPlan::Command {
            placement: SplitPlacement::BelowRight,
            vertical: true,
        },
        Positions::SplitBot => SplitPlan::Command {
            placement: SplitPlacement::BelowRight,
            vertical: false,
        },
        Positions::SplitLeft => SplitPlan::Command {
            placement: SplitPlacement::LeftAbove,
            vertical: true,
        },
        Positions::Center => SplitPlan::AssignCenter { refocus: keep_focus_at },
    }
}

/// One side-effecting host action a pick operation ends in.
#[derive(Clone, Copy, Debug, PartialEq, Eq, Structural)]
pub enum PaneAction {
    Close(PaneId),
    Focus(PaneId),
    SetBuffer { pane: PaneId, buffer: BufferId },
}

/// The actions that close a multi-pick's result: close every picked pane,
/// in the order picked.
pub fn pick_close_window(picked: &Vec<PaneId>) -> (r: Vec<PaneAction>)
    ensures
        r@.len() == picked@.len(),
        forall|i: int| 0 <= i < r@.len() ==> r@[i] == PaneAction::Close(#[trigger] picked@[i]),
{
    let n: usize = picked.len();
    let mut r: Vec<PaneAction> = Vec::new();
    let mut i: usize = 0;
    while i < n
        invariant
            n == picked@.len(),
            i <= n,
            r@.len() == i,
            forall|j: int| 0 <= j < i ==> r@[j] == PaneAction::Close(#[trigger] picked@[j]),
        decreases n - i,
    {
        r.push(PaneAction::Close(picked[i]));
        i = i + 1;
    }
    r
}

/// The action that focuses a single pick's result, if one was picked.
pub fn pick_focus_window(picked: Option<PaneId>) -> (r: Option<PaneAction>)
    ensures
        picked matches Some(w) ==> r == Some(PaneAction::Focus(w)),
        picked is None ==> r is None,
{
    match picked {
        Some(w) => Some(PaneAction::Focus(w)),
        None => None,
    }
}

/// The actions that swap the current pane's buffer with the picked pane's:
/// each pane takes the other's buffer, and focus follows the picked pane
/// only when asked to.
pub fn pick_swap_window(
    focus_new: bool,
    current: PaneId,
    current_buffer: BufferId,
    target: PaneId,
    target_buffer: BufferId,
) -> (r: Vec<PaneAction>)
    ensures
        r@.len() == (if focus_new {
            3int
        } else {
            2int
        }),
        r@[0] == (PaneAction::SetBuffer { pane: current, buffer: target_buffer }),
        r@[1] == (PaneAction::SetBuffer { pane: target, buffer: current_buffer }),
        focus_new ==> r@[2] == PaneAction::Focus(target),
{
    let mut r: Vec<PaneAction> = Vec::new();
    r.push(PaneAction::SetBuffer { pane: current, buffer: target_buffer });
    r.push(PaneAction::SetBuffer { pane: target, buffer: current_buffer });
    if focus_new {
        r.push(PaneAction::Focus(target));
    }
    r
}

} // verus!
