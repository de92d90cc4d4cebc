//! Finding the Web UI among the tabs of a browser window.
//!
//! When a browser exposes its tabs, the selected one is remembered so that it can be
//! restored. When it does not, the tabs are cycled with Ctrl+Tab until the window title shows
//! the Web UI; if the cycle comes back to the first tab or runs too long, the window is
//! brought back to where it was with Ctrl+Shift+Tab.
use vstd::prelude::*;
use crate::origin::{is_web_ui_title, same_origin, spec_is_web_ui_title, spec_same_origin};
use crate::text::seq_equal;
use crate::text::chars_of;

verus! {

/// How many tabs are tried, and how many are stepped back afterwards.
pub const MAX_TAB_CYCLE_STEPS: usize = 32;

/// What a tab cycle wants next.
#[derive(Clone, Copy, Debug, PartialEq, Eq, Structural)]
pub enum CycleStep {
    /// Press Ctrl+Tab and report whether the keys were sent.
    SendNextTab,
    /// Read the window title after a short wait and report it.
    ReadTitle,
    /// Press Ctrl+Shift+Tab and report whether the keys were sent.
    SendPreviousTab,
    /// The cycle is over: whether the Web UI tab is now shown.
    Done(bool),
}

/// How far a tab cycle has come.
#[derive(Clone, Copy, Debug, PartialEq, Eq, Structural)]
pub enum CyclePhase {
    /// `n` tabs have been tried; Ctrl+Tab was pressed again.
    Forward(usize),
    /// `n` tabs have been tried and the title of the next one is awaited.
    Reading(usize),
    /// `n` steps back have been made; Ctrl+Shift+Tab was pressed again.
    Restoring(usize),
    Finished,
}

/// A tab cycle in a browser window.
#[derive(Debug)]
pub struct TabCycle {
    pub initial_title: String,
    pub phase: CyclePhase,
}

/// The first step: a window without a title cannot be searched.
pub open spec fn spec_cycle_start(initial_title: Seq<char>) -> (CyclePhase, CycleStep) {
    if initial_title.len() == 0 {
        (CyclePhase::Finished, CycleStep::Done(false))
    } else {
        (CyclePhase::Forward(0), CycleStep::SendNextTab)
    }
}

/// The step after the keys of the last step were sent, or failed to be.
pub open spec fn spec_keys_sent(phase: CyclePhase, sent: bool) -> (CyclePhase, CycleStep) {
    match phase {
        CyclePhase::Forward(n) => if sent {
            (CyclePhase::Reading(n), CycleStep::ReadTitle)
        } else {
            (CyclePhase::Finished, CycleStep::Done(false))
        },
        CyclePhase::Restoring(n) => if sent && n + 1 < MAX_TAB_CYCLE_STEPS {
            (CyclePhase::Restoring((n + 1) as usize), CycleStep::SendPreviousTab)
        } else {
            (CyclePhase::Finished, CycleStep::Done(false))
        },
        _ => (CyclePhase::Finished, CycleStep::Done(false)),
    }
}

/// The step after reading the window title: found, back at the first tab, the next tab, or
/// stepping back once every tab allowed has been tried.
pub open spec fn spec_title_read(phase: CyclePhase, initial_title: Seq<char>, title: Seq<char>) -> (
    CyclePhase,
    CycleStep,
) {
    match phase {
        CyclePhase::Reading(n) => if spec_is_web_ui_title(title) {
            (CyclePhase::Finished, CycleStep::Done(true))
        } else if title == initial_title {
            (CyclePhase::Finished, CycleStep::Done(false))
        } else if n + 1 < MAX_TAB_CYCLE_STEPS {
            (CyclePhase::Forward((n + 1) as usize), CycleStep::SendNextTab)
        } else {
            (CyclePhase::Restoring(0), CycleStep::SendPreviousTab)
        },
        _ => (CyclePhase::Finished, CycleStep::Done(false)),
    }
}

impl TabCycle {
    /// Begins a cycle in a window whose current title is `initial_title`.
    pub fn start(initial_title: String) -> (r: (Self, CycleStep))
        ensures
            r.0.initial_title == initial_title,
            (r.0.phase, r.1) == spec_cycle_start(initial_title@),
    {
        let empty = initial_title.as_str().is_empty();
        if empty {
            (TabCycle { initial_title, phase: CyclePhase::Finished }, CycleStep::Done(false))
        } else {
            (TabCycle { initial_title, phase: CyclePhase::Forward(0) }, CycleStep::SendNextTab)
        }
    }

    /// Reports whether the keys of a `SendNextTab` or `SendPreviousTab` step were sent.
    pub fn keys_sent(&mut self, sent: bool) -> (r: CycleStep)
        ensures
            final(self).initial_title == old(self).initial_title,
            (final(self).phase, r) == spec_keys_sent(old(self).phase, sent),
    {
        match self.phase {
            CyclePhase::Forward(n) => {
                if sent {
                    self.phase = CyclePhase::Reading(n);
                    CycleStep::ReadTitle
                } else {
                    self.phase = CyclePhase::Finished;
                    CycleStep::Done(false)
                }
            },
            CyclePhase::Restoring(n) => {
                if sent && n < MAX_TAB_CYCLE_STEPS - 1 {
                    self.phase = CyclePhase::Restoring(n + 1);
                    CycleStep::SendPreviousTab
                } else {
                    self.phase = CyclePhase::Finished;
                    CycleStep::Done(false)
                }
            },
            _ => {
                self.phase = CyclePhase::Finished;
                CycleStep::Done(false)
            },
        }
    }

    /// Reports the window title asked for by a `ReadTitle` step.
    pub fn title_read(&mut self, title: &str) -> (r: CycleStep)
        ensures
            final(self).initial_title == old(self).initial_title,
            (final(self).phase, r) == spec_title_read(
                old(self).phase,
                old(self).initial_title@,
                title@,
            ),
    {
        match self.phase {
            CyclePhase::Reading(n) => {
                if is_web_ui_title(title) {
                    self.phase = CyclePhase::Finished;
                    return CycleStep::Done(true);
                }
                let t = chars_of(title);
                let initial = chars_of(self.initial_title.as_str());
                if seq_equal(t.as_slice(), initial.as_slice()) {
                    self.phase = CyclePhase::Finished;
                    CycleStep::Done(false)
                } else if n < MAX_TAB_CYCLE_STEPS - 1 {
                    self.phase = CyclePhase::Forward(n + 1);
                    CycleStep::SendNextTab
                } else {
                    self.phase = CyclePhase::Restoring(0);
                    CycleStep::SendPreviousTab
                }
            },
            _ => {
                self.phase = CyclePhase::Finished;
                CycleStep::Done(false)
            },
        }
    }
}

/// The first tab whose selection state could be read and which is selected.
pub open spec fn spec_selected_tab(selected: Seq<Option<bool>>) -> Option<int>
    decreases selected.len(),
{
    if selected.len() == 0 {
        None
    } else if selected[0] == Some(true) {
        Some(0)
    } else {
        match spec_selected_tab(selected.drop_first()) {
            Some(i) => Some(i + 1),
            None => None,
        }
    }
}

/// The tab to restore after trying others: the first one known to be selected.
pub fn selected_tab(selected: &Vec<Option<bool>>) -> (r: Option<usize>)
    ensures
        match r {
            Some(i) => spec_selected_tab(selected@) == Some(i as int),
            None => spec_selected_tab(selected@) is None,
        },
{
    let mut i: usize = 0;
    assert(selected@.subrange(0, selected@.len() as int) =~= selected@);
    while i < selected.len()
        invariant
            i <= selected.len(),
            spec_selected_tab(selected@) == match spec_selected_tab(
                selected@.subrange(i as int, selected@.len() as int),
            ) {
                Some(k) => Some(k + i),
                None => None::<int>,
            },
        decreases selected.len() - i,
    {
        let ghost rest = selected@.subrange(i as int, selected@.len() as int);
        assert(rest[0] == selected@[i as int]);
        if selected[i] == Some(true) {
            return Some(i);
        }
        assert(rest.drop_first() =~= selected@.subrange(i + 1, selected@.len() as int));
        i = i + 1;
    }
    None
}

/// One of the addresses shown in a window's edit fields is at the Web UI's origin.
pub open spec fn spec_any_address_matches(addresses: Seq<String>, target: Seq<char>) -> bool {
    exists|i: int| 0 <= i < addresses.len() && spec_same_origin(addresses[i]@, target)
}

/// Whether any of the addresses shown in a window is at the Web UI's origin.
pub fn any_address_matches(addresses: &Vec<String>, target: &str) -> (r: bool)
    ensures
        r == spec_any_address_matches(addresses@, target@),
{
    let mut i: usize = 0;
    while i < addresses.len()
        invariant
            i <= addresses.len(),
            forall|j: int| 0 <= j < i ==> !spec_same_origin(addresses@[j]@, target@),
        decreases addresses.len() - i,
    {
        if same_origin(addresses[i].as_str(), target) {
            return true;
        }
        i = i + 1;
    }
    false
}

/// The number of key presses a cycle can still make: it bounds the cycle's length.
pub open spec fn remaining_presses(phase: CyclePhase) -> int {
    match phase {
        CyclePhase::Forward(n) => 2 * MAX_TAB_CYCLE_STEPS - n,
        CyclePhase::Reading(n) => 2 * MAX_TAB_CYCLE_STEPS - n - 1,
        CyclePhase::Restoring(n) => MAX_TAB_CYCLE_STEPS - n,
        CyclePhase::Finished => 0,
    }
}

/// A phase that a cycle can be in.
pub open spec fn phase_in_range(phase: CyclePhase) -> bool {
    match phase {
        CyclePhase::Forward(n) => n < MAX_TAB_CYCLE_STEPS,
        CyclePhase::Reading(n) => n < MAX_TAB_CYCLE_STEPS,
        CyclePhase::Restoring(n) => n < MAX_TAB_CYCLE_STEPS,
        CyclePhase::Finished => true,
    }
}

/// Every key press of a cycle brings it closer to its end, so it presses at most
/// `2 * MAX_TAB_CYCLE_STEPS` keys in all; and it reports the Web UI only right after reading a
/// title that shows it.
pub proof fn tab_cycle_is_bounded(phase: CyclePhase, initial: Seq<char>, title: Seq<char>, sent: bool)
    requires
        phase_in_range(phase),
    ensures
        phase_in_range(spec_keys_sent(phase, sent).0),
        phase_in_range(spec_title_read(phase, initial, title).0),
        phase is Forward || phase is Restoring ==> remaining_presses(spec_keys_sent(phase, sent).0)
            < remaining_presses(phase),
        phase is Reading ==> remaining_presses(spec_title_read(phase, initial, title).0)
            <= remaining_presses(phase),
        spec_keys_sent(phase, sent).1 != CycleStep::Done(true),
        spec_title_read(phase, initial, title).1 == CycleStep::Done(true) ==> spec_is_web_ui_title(
            title,
        ),
{
}

} // verus!
