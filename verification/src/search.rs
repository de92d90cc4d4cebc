//! Finding an open Web UI among the top-level windows.
//!
//! The search makes two passes over the windows. The first looks at browser windows: a
//! window whose title names the Web UI is activated at once; otherwise each of its tabs whose
//! title names the Web UI is selected, and the window's address fields are read up to
//! `ADDRESS_ATTEMPTS` times for an address at the Web UI's origin. A tab that shows no such
//! address is followed by selecting again the tab that was selected before. When the first
//! pass finds nothing, the second brings each Chromium window to the foreground and cycles its
//! tabs with the keyboard (see `tabs::TabCycle`).
//!
//! The search is a state machine: the caller performs each `SearchStep` on the windows and
//! hands back a `SearchEvent`, until the step is `Done`. A failed automation call ends the
//! search without a result.
use vstd::prelude::*;
use crate::command::string_views;
use crate::origin::{
    is_browser_window, is_web_ui_title, spec_is_browser_window, spec_is_web_ui_title,
    spec_same_origin,
};
use crate::tabs::{any_address_matches, selected_tab, spec_selected_tab};
use crate::text::{chars_of, seq_equal};

verus! {

/// The window class of Chromium-based browsers, whose tabs can be cycled with the keyboard.
pub const CHROMIUM_WINDOW_CLASS: &'static str = "Chrome_WidgetWin_1";

/// How many times the address fields of a window are read after one of its tabs was selected.
pub const ADDRESS_ATTEMPTS: usize = 3;

/// Where a search stands; window `i`, tab `j`, address attempt `a`.
#[derive(Clone, Copy, Debug, PartialEq, Eq, Structural)]
pub enum SearchPhase {
    /// First pass: the class name of window `i` is awaited.
    Class(usize),
    /// First pass: the title of browser window `i` is awaited.
    Title(usize),
    /// First pass: the tabs of browser window `i` are awaited.
    Tabs(usize),
    /// First pass: the title of tab `j` of window `i` is awaited.
    TabTitle(usize, usize),
    /// First pass: tab `j` of window `i` is being selected.
    Select(usize, usize),
    /// First pass: the addresses of window `i` are awaited, at attempt `a`, tab `j` selected.
    Address(usize, usize, usize),
    /// First pass: the previously selected tab of window `i` is being selected again after
    /// tab `j` showed no address at the Web UI's origin.
    Restore(usize, usize),
    /// Window `i` is being activated.
    Activate(usize),
    /// Second pass: the class name of window `i` is awaited.
    CycleClass(usize),
    /// Second pass: Chromium window `i` is being brought to the foreground.
    Focus(usize),
    /// Second pass: the tabs of window `i` are being cycled.
    Cycle(usize),
    Finished,
}

/// What the search wants done next.
#[derive(Clone, Copy, Debug)]
pub enum SearchStep {
    /// Read the class name of window `i`; answer `Text`.
    ReadClass(usize),
    /// Read the title of window `i`; answer `Text`.
    ReadTitle(usize),
    /// List the tabs of window `i`; answer `Tabs` with whether each tab is selected, where
    /// that can be read.
    ListTabs(usize),
    /// Read the title of tab `j` of window `i`; answer `Text`.
    ReadTabTitle(usize, usize),
    /// Select tab `j` of window `i`; answer `Succeeded`.
    SelectTab(usize, usize),
    /// Read the addresses shown in the edit fields of window `i`, waiting briefly first when
    /// `attempt` is not 0; answer `Addresses`.
    ReadAddresses(usize, usize),
    /// Select again tab `j` of window `i` when it is `Some(j)`; any answer will do.
    RestoreTab(usize, Option<usize>),
    /// Restore window `i` if it is minimised, focus it and bring it to the foreground; answer
    /// `Succeeded`.
    Activate(usize),
    /// Bring window `i` to the foreground and report whether it is in front after a short
    /// wait; answer `Focused`.
    Focus(usize),
    /// Cycle the tabs of window `i` with a `TabCycle`; answer `Cycled` with its conclusion.
    CycleTabs(usize),
    /// The search is over: whether the Web UI is now in front.
    Done(bool),
}

/// What performing a step gave.
#[derive(Debug)]
pub enum SearchEvent {
    /// A class name or title.
    Text(String),
    /// Whether each tab of a window is selected (`None` where that could not be read).
    Tabs(Vec<Option<bool>>),
    /// The addresses read, in order; `complete` is false when reading stopped at a failure.
    Addresses { values: Vec<String>, complete: bool },
    /// The step was carried out.
    Succeeded,
    /// Whether the window came to the foreground.
    Focused(bool),
    /// Whether the tab cycle showed the Web UI.
    Cycled(bool),
    /// An automation call failed.
    Failed,
}

/// The abstract form of a `SearchEvent`.
pub enum SearchEventView {
    Text(Seq<char>),
    Tabs(Seq<Option<bool>>),
    Addresses { values: Seq<Seq<char>>, complete: bool },
    Succeeded,
    Focused(bool),
    Cycled(bool),
    Failed,
}

impl View for SearchEvent {
    type V = SearchEventView;

    open spec fn view(&self) -> SearchEventView {
        match self {
            SearchEvent::Text(t) => SearchEventView::Text(t@),
            SearchEvent::Tabs(s) => SearchEventView::Tabs(s@),
            SearchEvent::Addresses { values, complete } => SearchEventView::Addresses {
                values: string_views(values@),
                complete: *complete,
            },
            SearchEvent::Succeeded => SearchEventView::Succeeded,
            SearchEvent::Focused(b) => SearchEventView::Focused(*b),
            SearchEvent::Cycled(b) => SearchEventView::Cycled(*b),
            SearchEvent::Failed => SearchEventView::Failed,
        }
    }
}

/// A search in progress for the Web UI at `target` among `window_count` windows.
#[derive(Debug)]
pub struct WebUiSearch {
    pub target: String,
    pub window_count: usize,
    /// How many tabs the browser window being looked at has.
    pub tab_count: usize,
    /// The tab of that window that was selected before the search selected others.
    pub previous: Option<usize>,
    pub phase: SearchPhase,
}

/// The abstract form of a `WebUiSearch`.
pub struct WebUiSearchView {
    pub target: Seq<char>,
    pub window_count: usize,
    pub tab_count: usize,
    pub previous: Option<usize>,
    pub phase: SearchPhase,
}

impl View for WebUiSearch {
    type V = WebUiSearchView;

    open spec fn view(&self) -> WebUiSearchView {
        WebUiSearchView {
            target: self.target@,
            window_count: self.window_count,
            tab_count: self.tab_count,
            previous: self.previous,
            phase: self.phase,
        }
    }
}

/// One of the addresses is at the origin of `target`.
pub open spec fn some_address_matches(values: Seq<Seq<char>>, target: Seq<char>) -> bool {
    exists|k: int| 0 <= k < values.len() && spec_same_origin(values[k], target)
}

/// The search ends with `found`.
pub open spec fn finished(s: WebUiSearchView, found: bool) -> (WebUiSearchView, SearchStep) {
    (WebUiSearchView { phase: SearchPhase::Finished, ..s }, SearchStep::Done(found))
}

/// The second pass, from window `i` on.
pub open spec fn cycle_from(s: WebUiSearchView, i: int) -> (WebUiSearchView, SearchStep) {
    if 0 <= i < s.window_count {
        (
            WebUiSearchView { phase: SearchPhase::CycleClass(i as usize), ..s },
            SearchStep::ReadClass(i as usize),
        )
    } else {
        finished(s, false)
    }
}

/// The first pass, from window `i` on; the second pass follows it.
pub open spec fn first_pass_from(s: WebUiSearchView, i: int) -> (WebUiSearchView, SearchStep) {
    if 0 <= i < s.window_count {
        (
            WebUiSearchView { phase: SearchPhase::Class(i as usize), ..s },
            SearchStep::ReadClass(i as usize),
        )
    } else {
        cycle_from(s, 0)
    }
}

/// The tabs of window `i`, from tab `j` on; the next window follows them.
pub open spec fn next_tab(s: WebUiSearchView, i: usize, j: int) -> (WebUiSearchView, SearchStep) {
    if 0 <= j < s.tab_count {
        (
            WebUiSearchView { phase: SearchPhase::TabTitle(i, j as usize), ..s },
            SearchStep::ReadTabTitle(i, j as usize),
        )
    } else {
        first_pass_from(s, i + 1)
    }
}

/// The tab to select again after a miss: the first one known to be selected.
pub open spec fn previous_tab(selection: Seq<Option<bool>>) -> Option<usize> {
    match spec_selected_tab(selection) {
        Some(k) => Some(k as usize),
        None => None,
    }
}

/// The first state and step of a search.
pub open spec fn spec_search_start(target: Seq<char>, window_count: usize) -> (
    WebUiSearchView,
    SearchStep,
) {
    first_pass_from(
        WebUiSearchView {
            target,
            window_count,
            tab_count: 0,
            previous: None,
            phase: SearchPhase::Finished,
        },
        0,
    )
}

/// The next state and step of a search, given what the last step gave. An event of the wrong
/// kind, or a failure, ends the search without a result.
pub open spec fn spec_search(s: WebUiSearchView, e: SearchEventView) -> (WebUiSearchView, SearchStep) {
    match (s.phase, e) {
        (SearchPhase::Class(i), SearchEventView::Text(c)) => if spec_is_browser_window(c) {
            (WebUiSearchView { phase: SearchPhase::Title(i), ..s }, SearchStep::ReadTitle(i))
        } else {
            first_pass_from(s, i + 1)
        },
        (SearchPhase::Title(i), SearchEventView::Text(t)) => if spec_is_web_ui_title(t) {
            (WebUiSearchView { phase: SearchPhase::Activate(i), ..s }, SearchStep::Activate(i))
        } else {
            (WebUiSearchView { phase: SearchPhase::Tabs(i), ..s }, SearchStep::ListTabs(i))
        },
        (SearchPhase::Tabs(i), SearchEventView::Tabs(selection)) => next_tab(
            WebUiSearchView {
                tab_count: selection.len() as usize,
                previous: previous_tab(selection),
                ..s
            },
            i,
            0,
        ),
        (SearchPhase::TabTitle(i, j), SearchEventView::Text(t)) => if spec_is_web_ui_title(t) {
            (WebUiSearchView { phase: SearchPhase::Select(i, j), ..s }, SearchStep::SelectTab(i, j))
        } else {
            next_tab(s, i, j + 1)
        },
        (SearchPhase::Select(i, j), SearchEventView::Succeeded) => (
            WebUiSearchView { phase: SearchPhase::Address(i, j, 0), ..s },
            SearchStep::ReadAddresses(i, 0),
        ),
        (SearchPhase::Address(i, j, a), SearchEventView::Addresses { values, complete }) => {
            if some_address_matches(values, s.target) {
                (WebUiSearchView { phase: SearchPhase::Activate(i), ..s }, SearchStep::Activate(i))
            } else if !complete {
                finished(s, false)
            } else if a + 1 < ADDRESS_ATTEMPTS {
                (
                    WebUiSearchView { phase: SearchPhase::Address(i, j, (a + 1) as usize), ..s },
                    SearchStep::ReadAddresses(i, (a + 1) as usize),
                )
            } else {
                (
                    WebUiSearchView { phase: SearchPhase::Restore(i, j), ..s },
                    SearchStep::RestoreTab(i, s.previous),
                )
            }
        },
        (SearchPhase::Restore(i, j), _) => next_tab(s, i, j + 1),
        (SearchPhase::Activate(_), SearchEventView::Succeeded) => finished(s, true),
        (SearchPhase::CycleClass(i), SearchEventView::Text(c)) => if c == CHROMIUM_WINDOW_CLASS@ {
            (WebUiSearchView { phase: SearchPhase::Focus(i), ..s }, SearchStep::Focus(i))
        } else {
            cycle_from(s, i + 1)
        },
        (SearchPhase::Focus(i), SearchEventView::Focused(b)) => if b {
            (WebUiSearchView { phase: SearchPhase::Cycle(i), ..s }, SearchStep::CycleTabs(i))
        } else {
            cycle_from(s, i + 1)
        },
        (SearchPhase::Cycle(i), SearchEventView::Cycled(b)) => if b {
            finished(s, true)
        } else {
            cycle_from(s, i + 1)
        },
        _ => finished(s, false),
    }
}

impl WebUiSearch {
    fn finish(&mut self, found: bool) -> (r: SearchStep)
        ensures
            (final(self)@, r) == finished(old(self)@, found),
    {
        self.phase = SearchPhase::Finished;
        SearchStep::Done(found)
    }

    fn cycle_from(&mut self, i: usize) -> (r: SearchStep)
        ensures
            (final(self)@, r) == cycle_from(old(self)@, i as int),
    {
        if i < self.window_count {
            self.phase = SearchPhase::CycleClass(i);
            SearchStep::ReadClass(i)
        } else {
            self.finish(false)
        }
    }

    /// The second pass from the window after `i`.
    fn cycle_after(&mut self, i: usize) -> (r: SearchStep)
        ensures
            (final(self)@, r) == cycle_from(old(self)@, i + 1),
    {
        if i < self.window_count {
            self.cycle_from(i + 1)
        } else {
            self.finish(false)
        }
    }

    fn first_pass_after(&mut self, i: usize) -> (r: SearchStep)
        ensures
            (final(self)@, r) == first_pass_from(old(self)@, i + 1),
    {
        if i < self.window_count && i + 1 < self.window_count {
            self.phase = SearchPhase::Class(i + 1);
            SearchStep::ReadClass(i + 1)
        } else {
            self.cycle_from(0)
        }
    }

    fn tab_from(&mut self, i: usize, j: usize) -> (r: SearchStep)
        ensures
            (final(self)@, r) == next_tab(old(self)@, i, j as int),
    {
        if j < self.tab_count {
            self.phase = SearchPhase::TabTitle(i, j);
            SearchStep::ReadTabTitle(i, j)
        } else {
            self.first_pass_after(i)
        }
    }

    fn tab_after(&mut self, i: usize, j: usize) -> (r: SearchStep)
        ensures
            (final(self)@, r) == next_tab(old(self)@, i, j + 1),
    {
        if j < self.tab_count {
            self.tab_from(i, j + 1)
        } else {
            self.first_pass_after(i)
        }
    }

    /// Begins a search for the Web UI at `target` among `window_count` windows.
    pub fn start(target: String, window_count: usize) -> (r: (Self, SearchStep))
        ensures
            (r.0@, r.1) == spec_search_start(target@, window_count),
    {
        let mut search = WebUiSearch {
            target,
            window_count,
            tab_count: 0,
            previous: None,
            phase: SearchPhase::Finished,
        };
        if window_count > 0 {
            search.phase = SearchPhase::Class(0);
            (search, SearchStep::ReadClass(0))
        } else {
            let step = search.finish(false);
            (search, step)
        }
    }

    /// Hands over what the last step gave and returns the next step.
    pub fn advance(&mut self, event: SearchEvent) -> (r: SearchStep)
        ensures
            (final(self)@, r) == spec_search(old(self)@, event@),
    {
        match (self.phase, event) {
            (SearchPhase::Class(i), SearchEvent::Text(c)) => {
                if is_browser_window(c.as_str()) {
                    self.phase = SearchPhase::Title(i);
                    SearchStep::ReadTitle(i)
                } else {
                    self.first_pass_after(i)
                }
            },
            (SearchPhase::Title(i), SearchEvent::Text(t)) => {
                if is_web_ui_title(t.as_str()) {
                    self.phase = SearchPhase::Activate(i);
                    SearchStep::Activate(i)
                } else {
                    self.phase = SearchPhase::Tabs(i);
                    SearchStep::ListTabs(i)
                }
            },
            (SearchPhase::Tabs(i), SearchEvent::Tabs(selection)) => {
                self.tab_count = selection.len();
                self.previous = selected_tab(&selection);
                self.tab_from(i, 0)
            },
            (SearchPhase::TabTitle(i, j), SearchEvent::Text(t)) => {
                if is_web_ui_title(t.as_str()) {
                    self.phase = SearchPhase::Select(i, j);
                    SearchStep::SelectTab(i, j)
                } else {
                    self.tab_after(i, j)
                }
            },
            (SearchPhase::Select(i, j), SearchEvent::Succeeded) => {
                self.phase = SearchPhase::Address(i, j, 0);
                SearchStep::ReadAddresses(i, 0)
            },
            (SearchPhase::Address(i, j, a), SearchEvent::Addresses { values, complete }) => {
                let matched = any_address_matches(&values, self.target.as_str());
                proof {
                    let views = string_views(values@);
                    if matched {
                        let k = choose|k: int|
                            0 <= k < values@.len() && spec_same_origin(values@[k]@, self.target@);
                        assert(views[k] == values@[k]@);
                    }
                    if some_address_matches(views, self.target@) {
                        let k = choose|k: int|
                            0 <= k < views.len() && spec_same_origin(views[k], self.target@);
                        assert(views[k] == values@[k]@);
                    }
                }
                if matched {
                    self.phase = SearchPhase::Activate(i);
                    SearchStep::Activate(i)
                } else if !complete {
                    self.finish(false)
                } else if a < ADDRESS_ATTEMPTS - 1 {
                    self.phase = SearchPhase::Address(i, j, a + 1);
                    SearchStep::ReadAddresses(i, a + 1)
                } else {
                    self.phase = SearchPhase::Restore(i, j);
                    SearchStep::RestoreTab(i, self.previous)
                }
            },
            (SearchPhase::Restore(i, j), _) => self.tab_after(i, j),
            (SearchPhase::Activate(_), SearchEvent::Succeeded) => self.finish(true),
            (SearchPhase::CycleClass(i), SearchEvent::Text(c)) => {
                let class = chars_of(c.as_str());
                let chromium = chars_of(CHROMIUM_WINDOW_CLASS);
                if seq_equal(class.as_slice(), chromium.as_slice()) {
                    self.phase = SearchPhase::Focus(i);
                    SearchStep::Focus(i)
                } else {
                    self.cycle_after(i)
                }
            },
            (SearchPhase::Focus(i), SearchEvent::Focused(b)) => {
                if b {
                    self.phase = SearchPhase::Cycle(i);
                    SearchStep::CycleTabs(i)
                } else {
                    self.cycle_after(i)
                }
            },
            (SearchPhase::Cycle(i), SearchEvent::Cycled(b)) => {
                if b {
                    self.finish(true)
                } else {
                    self.cycle_after(i)
                }
            },
            _ => self.finish(false),
        }
    }
}

/// The pass a phase belongs to: 0 for the first, 1 for the second, 2 once finished.
pub open spec fn pass_of(p: SearchPhase) -> int {
    match p {
        SearchPhase::CycleClass(_) | SearchPhase::Focus(_) | SearchPhase::Cycle(_) => 1,
        SearchPhase::Finished => 2,
        _ => 0,
    }
}

/// The window a phase is about.
pub open spec fn window_of(p: SearchPhase) -> int {
    match p {
        SearchPhase::Class(i) => i as int,
        SearchPhase::Title(i) => i as int,
        SearchPhase::Tabs(i) => i as int,
        SearchPhase::TabTitle(i, _) => i as int,
        SearchPhase::Select(i, _) => i as int,
        SearchPhase::Address(i, _, _) => i as int,
        SearchPhase::Restore(i, _) => i as int,
        SearchPhase::Activate(i) => i as int,
        SearchPhase::CycleClass(i) => i as int,
        SearchPhase::Focus(i) => i as int,
        SearchPhase::Cycle(i) => i as int,
        SearchPhase::Finished => 0,
    }
}

/// The tab a phase is about, or -1.
pub open spec fn tab_of(p: SearchPhase) -> int {
    match p {
        SearchPhase::TabTitle(_, j) => j as int,
        SearchPhase::Select(_, j) => j as int,
        SearchPhase::Address(_, j, _) => j as int,
        SearchPhase::Restore(_, j) => j as int,
        _ => -1,
    }
}

/// A search goes through the windows in order, first pass then second pass, and through the
/// tabs of a window in order: no step goes back to an earlier pass, window or tab, none skips
/// a window, and the second pass starts at the first window.
pub proof fn web_ui_search_goes_in_order(s: WebUiSearchView, e: SearchEventView)
    ensures
        ({
            let t = spec_search(s, e).0;
            &&& pass_of(t.phase) >= pass_of(s.phase)
            &&& pass_of(t.phase) == pass_of(s.phase) && pass_of(s.phase) < 2 ==> window_of(s.phase)
                <= window_of(t.phase) <= window_of(s.phase) + 1
            &&& pass_of(s.phase) == 0 && pass_of(t.phase) == 1 ==> window_of(t.phase) == 0
            &&& pass_of(t.phase) == 0 && pass_of(s.phase) == 0 && window_of(t.phase) == window_of(
                s.phase,
            ) && tab_of(s.phase) >= 0 && tab_of(t.phase) >= 0 ==> tab_of(s.phase) <= tab_of(
                t.phase,
            ) <= tab_of(s.phase) + 1
        }),
{
}

/// A search activates a window only when it is a browser window whose title names the Web UI,
/// or when a tab whose title names the Web UI was selected and an address at the Web UI's
/// origin was then read; it selects only tabs whose title names the Web UI; every selected
/// tab that shows no such address within `ADDRESS_ATTEMPTS` readings is followed by selecting
/// again the tab that was selected when the window's tabs were listed; it looks at the title
/// of browser windows only and cycles the tabs of Chromium windows only; and it reports
/// success only after an activation or a tab cycle succeeded.
pub proof fn web_ui_search_finds_only_the_web_ui(s: WebUiSearchView, e: SearchEventView)
    ensures
        ({
            let (t, step) = spec_search(s, e);
            &&& step matches SearchStep::Activate(k) ==> k == window_of(s.phase) && ((s.phase is Title
                && (e matches SearchEventView::Text(title) && spec_is_web_ui_title(title))) || (
            s.phase is Address && (e matches SearchEventView::Addresses { values, .. }
                && some_address_matches(values, s.target))))
            &&& step matches SearchStep::SelectTab(i, j) ==> s.phase == SearchPhase::TabTitle(i, j)
                && (e matches SearchEventView::Text(title) && spec_is_web_ui_title(title))
            &&& step matches SearchStep::RestoreTab(i, p) ==> p == s.previous && (s.phase matches SearchPhase::Address(
                k,
                _,
                a,
            ) && k == i && a + 1 >= ADDRESS_ATTEMPTS)
            &&& step matches SearchStep::ReadTitle(_) ==> (e matches SearchEventView::Text(c)
                && spec_is_browser_window(c))
            &&& step matches SearchStep::Focus(_) ==> (e matches SearchEventView::Text(c) && c
                == CHROMIUM_WINDOW_CLASS@)
            &&& step matches SearchStep::Done(true) ==> (s.phase is Activate && e is Succeeded) || (
            s.phase is Cycle && e == SearchEventView::Cycled(true))
            &&& t.previous == s.previous || s.phase is Tabs
        }),
{
}

/// A fixed set of windows, as the search sees them: for window `k`, its class name and
/// title, whether each of its tabs is selected, each tab's title, the addresses the window
/// shows while tab `j` is selected, whether it comes to the foreground, and whether cycling
/// its tabs shows the Web UI. Every automation call succeeds.
pub struct SearchWorld {
    pub classes: Seq<Seq<char>>,
    pub titles: Seq<Seq<char>>,
    pub selections: Seq<Seq<Option<bool>>>,
    pub tab_titles: Seq<Seq<Seq<char>>>,
    pub addresses: Seq<Seq<Seq<Seq<char>>>>,
    pub focused: Seq<bool>,
    pub cycled: Seq<bool>,
}

/// The world describes `n` windows, and for each the same number of tabs everywhere.
pub open spec fn world_of_size(w: SearchWorld, n: int) -> bool {
    &&& w.classes.len() == n
    &&& w.titles.len() == n
    &&& w.selections.len() == n
    &&& w.tab_titles.len() == n
    &&& w.addresses.len() == n
    &&& w.focused.len() == n
    &&& w.cycled.len() == n
    &&& forall|k: int|
        0 <= k < n ==> (#[trigger] w.tab_titles[k]).len() == w.selections[k].len()
            && w.addresses[k].len() == w.selections[k].len() && w.selections[k].len()
            <= usize::MAX
}

/// What performing `step` in the world gives.
pub open spec fn world_answer(w: SearchWorld, s: WebUiSearchView, step: SearchStep) -> SearchEventView {
    match step {
        SearchStep::ReadClass(i) => SearchEventView::Text(w.classes[i as int]),
        SearchStep::ReadTitle(i) => SearchEventView::Text(w.titles[i as int]),
        SearchStep::ListTabs(i) => SearchEventView::Tabs(w.selections[i as int]),
        SearchStep::ReadTabTitle(i, j) => SearchEventView::Text(w.tab_titles[i as int][j as int]),
        SearchStep::ReadAddresses(i, _) => match s.phase {
            SearchPhase::Address(_, j, _) => SearchEventView::Addresses {
                values: w.addresses[i as int][j as int],
                complete: true,
            },
            _ => SearchEventView::Failed,
        },
        SearchStep::Focus(i) => SearchEventView::Focused(w.focused[i as int]),
        SearchStep::CycleTabs(i) => SearchEventView::Cycled(w.cycled[i as int]),
        _ => SearchEventView::Succeeded,
    }
}

/// How a search ended: the window activated because its title names the Web UI, the window
/// activated with the tab that showed the Web UI's address, the window whose tab cycle showed
/// the Web UI, or nothing found.
pub enum SearchOutcome {
    Window(usize),
    Tab(usize, usize),
    Cycled(usize),
    NotFound,
}

/// What an activation that is under way would mean.
pub open spec fn activation(before: SearchPhase, after: SearchPhase, act: SearchOutcome) -> SearchOutcome {
    match (before, after) {
        (SearchPhase::Title(i), SearchPhase::Activate(_)) => SearchOutcome::Window(i),
        (SearchPhase::Address(i, j, _), SearchPhase::Activate(_)) => SearchOutcome::Tab(i, j),
        (SearchPhase::Focus(i), SearchPhase::Cycle(_)) => SearchOutcome::Cycled(i),
        _ => act,
    }
}

/// How a search at `s` about to perform `step` ends in the world, or `None` when `fuel`
/// steps do not reach the end.
pub open spec fn run_search(
    w: SearchWorld,
    s: WebUiSearchView,
    step: SearchStep,
    act: SearchOutcome,
    fuel: nat,
) -> Option<SearchOutcome>
    decreases fuel,
{
    if fuel == 0 {
        None
    } else {
        match step {
            SearchStep::Done(found) => Some(
                if found {
                    act
                } else {
                    SearchOutcome::NotFound
                },
            ),
            _ => {
                let (t, next) = spec_search(s, world_answer(w, s, step));
                run_search(w, t, next, activation(s.phase, t.phase, act), (fuel - 1) as nat)
            },
        }
    }
}

/// The first tab of window `k`, from tab `j` on, whose title names the Web UI and while
/// selected shows an address at the Web UI's origin.
pub open spec fn first_matching_tab(w: SearchWorld, target: Seq<char>, k: int, j: int) -> Option<int>
    decreases w.tab_titles[k].len() - j,
{
    if j < 0 || j >= w.tab_titles[k].len() {
        None
    } else if spec_is_web_ui_title(w.tab_titles[k][j]) && some_address_matches(
        w.addresses[k][j],
        target,
    ) {
        Some(j)
    } else {
        first_matching_tab(w, target, k, j + 1)
    }
}

/// The outcome of the second pass from window `k` on: the first Chromium window that comes
/// to the foreground and whose tab cycle shows the Web UI.
pub open spec fn cycle_outcome(w: SearchWorld, k: int) -> SearchOutcome
    decreases w.classes.len() - k,
{
    if k < 0 || k >= w.classes.len() {
        SearchOutcome::NotFound
    } else if w.classes[k] == CHROMIUM_WINDOW_CLASS@ && w.focused[k] && w.cycled[k] {
        SearchOutcome::Cycled(k as usize)
    } else {
        cycle_outcome(w, k + 1)
    }
}

/// The outcome of a search from window `k` on: the first browser window whose title names the
/// Web UI, or else whose first tab, in order, names the Web UI and shows its address; when no
/// window from `k` on has either, the outcome of the second pass.
pub open spec fn search_outcome(w: SearchWorld, target: Seq<char>, k: int) -> SearchOutcome
    decreases w.classes.len() - k,
{
    if k < 0 || k >= w.classes.len() {
        cycle_outcome(w, 0)
    } else if spec_is_browser_window(w.classes[k]) && spec_is_web_ui_title(w.titles[k]) {
        SearchOutcome::Window(k as usize)
    } else if spec_is_browser_window(w.classes[k]) && first_matching_tab(w, target, k, 0) is Some {
        SearchOutcome::Tab(k as usize, first_matching_tab(w, target, k, 0)->Some_0 as usize)
    } else {
        search_outcome(w, target, k + 1)
    }
}

/// Enough steps for the second pass from window `k` on.
pub open spec fn cycle_budget(n: int, k: int) -> nat
    decreases n - k,
{
    if k >= n {
        1
    } else {
        4 + cycle_budget(n, k + 1)
    }
}

/// Enough steps for a search from window `k` on.
pub open spec fn search_budget(w: SearchWorld, k: int) -> nat
    decreases w.classes.len() - k,
{
    if k < 0 || k >= w.classes.len() {
        cycle_budget(w.classes.len() as int, 0)
    } else {
        5 + 6 * w.tab_titles[k].len() + search_budget(w, k + 1)
    }
}

proof fn lemma_cycle_run(w: SearchWorld, s: WebUiSearchView, act: SearchOutcome, fuel: nat)
    requires
        world_of_size(w, s.window_count as int),
        s.phase matches SearchPhase::CycleClass(k) && k < s.window_count,
        fuel >= cycle_budget(s.window_count as int, window_of(s.phase)),
    ensures
        run_search(w, s, SearchStep::ReadClass(window_of(s.phase) as usize), act, fuel) == Some(
            cycle_outcome(w, window_of(s.phase)),
        ),
    decreases s.window_count - window_of(s.phase),
{
    reveal_with_fuel(run_search, 5);
    let k = window_of(s.phase);
    let (t1, st1) = spec_search(s, world_answer(w, s, SearchStep::ReadClass(k as usize)));
    if w.classes[k] == CHROMIUM_WINDOW_CLASS@ {
        let (t2, st2) = spec_search(t1, world_answer(w, t1, st1));
        if w.focused[k] {
            let (t3, st3) = spec_search(t2, world_answer(w, t2, st2));
            if !w.cycled[k] && k + 1 < s.window_count {
                lemma_cycle_run(w, t3, activation(t2.phase, t3.phase, activation(t1.phase, t2.phase, act)), (fuel - 3) as nat);
            }
        } else if k + 1 < s.window_count {
            lemma_cycle_run(w, t2, activation(t1.phase, t2.phase, act), (fuel - 2) as nat);
        }
    } else if k + 1 < s.window_count {
        lemma_cycle_run(w, t1, act, (fuel - 1) as nat);
    }
}

proof fn lemma_after_window(w: SearchWorld, s: WebUiSearchView, k: int, act: SearchOutcome, fuel: nat)
    requires
        world_of_size(w, s.window_count as int),
        0 <= k < s.window_count,
        fuel >= search_budget(w, k + 1),
    ensures
        ({
            let (t, step) = first_pass_from(s, k + 1);
            run_search(w, t, step, act, fuel) == Some(search_outcome(w, s.target, k + 1))
        }),
    decreases s.window_count - k, 0int, 0int,
{
    let (t, step) = first_pass_from(s, k + 1);
    if k + 1 < s.window_count {
        lemma_window_run(w, t, act, fuel);
    } else {
        lemma_cycle_run(w, t, act, fuel);
    }
}

proof fn lemma_window_run(w: SearchWorld, s: WebUiSearchView, act: SearchOutcome, fuel: nat)
    requires
        world_of_size(w, s.window_count as int),
        s.phase matches SearchPhase::Class(k) && k < s.window_count,
        fuel >= search_budget(w, window_of(s.phase)),
    ensures
        run_search(w, s, SearchStep::ReadClass(window_of(s.phase) as usize), act, fuel) == Some(
            search_outcome(w, s.target, window_of(s.phase)),
        ),
    decreases s.window_count - window_of(s.phase), 1int, 0int,
{
    reveal_with_fuel(run_search, 5);
    let k = window_of(s.phase);
    let (t1, st1) = spec_search(s, world_answer(w, s, SearchStep::ReadClass(k as usize)));
    if !spec_is_browser_window(w.classes[k]) {
        lemma_after_window(w, s, k, act, (fuel - 1) as nat);
    } else {
        let (t2, st2) = spec_search(t1, world_answer(w, t1, st1));
        if !spec_is_web_ui_title(w.titles[k]) {
            let (t3, st3) = spec_search(t2, world_answer(w, t2, st2));
            assert(w.tab_titles[k].len() == w.selections[k].len());
            if 0 < t3.tab_count {
                lemma_tab_run(w, t3, act, (fuel - 3) as nat);
            } else {
                lemma_after_window(w, t3, k, act, (fuel - 3) as nat);
            }
        }
    }
}

proof fn lemma_tab_run(w: SearchWorld, s: WebUiSearchView, act: SearchOutcome, fuel: nat)
    requires
        world_of_size(w, s.window_count as int),
        s.phase matches SearchPhase::TabTitle(k, j) && k < s.window_count && j < s.tab_count,
        s.tab_count == w.tab_titles[window_of(s.phase)].len(),
        fuel >= 6 * (s.tab_count - tab_of(s.phase)) + search_budget(w, window_of(s.phase) + 1),
    ensures
        run_search(
            w,
            s,
            SearchStep::ReadTabTitle(window_of(s.phase) as usize, tab_of(s.phase) as usize),
            act,
            fuel,
        ) == Some(
            match first_matching_tab(w, s.target, window_of(s.phase), tab_of(s.phase)) {
                Some(t) => SearchOutcome::Tab(window_of(s.phase) as usize, t as usize),
                None => search_outcome(w, s.target, window_of(s.phase) + 1),
            },
        ),
    decreases s.window_count - window_of(s.phase), 0int, s.tab_count - tab_of(s.phase),
{
    reveal_with_fuel(run_search, 7);
    let k = window_of(s.phase);
    let j = tab_of(s.phase);
    let st0 = SearchStep::ReadTabTitle(k as usize, j as usize);
    let (t1, st1) = spec_search(s, world_answer(w, s, st0));
    if spec_is_web_ui_title(w.tab_titles[k][j]) {
        let (t2, st2) = spec_search(t1, world_answer(w, t1, st1));
        let (t3, st3) = spec_search(t2, world_answer(w, t2, st2));
        assert(t2.phase == SearchPhase::Address(k as usize, j as usize, 0));
        if !some_address_matches(w.addresses[k][j], s.target) {
            let (t4, st4) = spec_search(t3, world_answer(w, t3, st3));
            let (t5, st5) = spec_search(t4, world_answer(w, t4, st4));
            let (t6, st6) = spec_search(t5, world_answer(w, t5, st5));
            assert(t3.phase == SearchPhase::Address(k as usize, j as usize, 1));
            assert(t4.phase == SearchPhase::Address(k as usize, j as usize, 2));
            assert(t5.phase == SearchPhase::Restore(k as usize, j as usize));
            assert(first_matching_tab(w, s.target, k, j) == first_matching_tab(w, s.target, k, j + 1));
            if j + 1 < s.tab_count {
                lemma_tab_run(w, t6, act, (fuel - 6) as nat);
            } else {
                lemma_after_window(w, t5, k, act, (fuel - 6) as nat);
            }
        } else {
            assert(first_matching_tab(w, s.target, k, j) == Some(j));
        }
    } else if j + 1 < s.tab_count {
        let a1 = activation(s.phase, t1.phase, act);
        lemma_tab_run(w, t1, a1, (fuel - 1) as nat);
    } else {
        lemma_after_window(w, s, k, act, (fuel - 1) as nat);
    }
}

/// In a fixed set of windows where every automation call succeeds, a search ends with the
/// first browser window whose title names the Web UI, else the first one whose first tab, in
/// order, names the Web UI and shows an address at its origin; when there is none, with the
/// first Chromium window whose tab cycle shows the Web UI; and else with nothing found.
pub proof fn web_ui_search_finds_the_first_match(
    w: SearchWorld,
    target: Seq<char>,
    window_count: usize,
    fuel: nat,
)
    requires
        world_of_size(w, window_count as int),
        fuel >= search_budget(w, 0),
    ensures
        ({
            let (s, step) = spec_search_start(target, window_count);
            run_search(w, s, step, SearchOutcome::NotFound, fuel) == Some(
                search_outcome(w, target, 0),
            )
        }),
{
    reveal_with_fuel(run_search, 2);
    let (s, step) = spec_search_start(target, window_count);
    if window_count > 0 {
        lemma_window_run(w, s, SearchOutcome::NotFound, fuel);
    }
}

} // verus!
