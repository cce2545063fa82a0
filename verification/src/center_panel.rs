use vstd::prelude::*;

use crate::processes::pairs_view;

verus! {

/// What the central panel shows in a frame.
#[derive(Debug, Clone, Copy, PartialEq, Eq, Structural)]
pub enum CenterView {
    /// The running games, one button each, or a note that there are none.
    ProcessList,
    /// Nothing: the chosen process has just been found gone.
    Blank,
    /// The screen capture of the chosen process.
    ScreenCapture,
}

/// The state of the central panel as plain values.
pub struct PanelState {
    /// The running games offered, as (path, pid).
    pub active: Seq<(Seq<char>, u32)>,
    /// The game chosen, if any.
    pub chosen: Option<(Seq<char>, u32)>,
    /// Whether a refresh of the offered games is under way.
    pub updating: bool,
    /// Whether the library was loaded into the chosen game.
    pub injected: bool,
}

/// The process picker in the middle of the window: it offers the running
/// games, remembers the one chosen and whether the library was loaded into it.
pub struct CenterPanel {
    active_processes: Vec<(String, u32)>,
    chosen_process: Option<(String, u32)>,
    updating_processes: bool,
    injection_complete: bool,
}

/// A (path, pid) pair as plain values.
pub open spec fn pair_view(p: (String, u32)) -> (Seq<char>, u32) {
    (p.0@, p.1)
}

impl View for CenterPanel {
    type V = PanelState;

    closed spec fn view(&self) -> PanelState {
        PanelState {
            active: pairs_view(self.active_processes@),
            chosen: match self.chosen_process {
                Some(p) => Some(pair_view(p)),
                None => None,
            },
            updating: self.updating_processes,
            injected: self.injection_complete,
        }
    }
}

/// The library is only ever reported loaded into a chosen game.
pub open spec fn panel_wf(s: PanelState) -> bool {
    s.injected ==> s.chosen is Some
}

/// A frame: with no game chosen the list is shown; a chosen game that no
/// longer runs is forgotten, with the loading; otherwise its capture is shown.
pub open spec fn after_ui(s: PanelState, still_active: bool) -> (PanelState, CenterView) {
    if s.chosen is None {
        (s, CenterView::ProcessList)
    } else if !still_active {
        (PanelState { chosen: None, injected: false, ..s }, CenterView::Blank)
    } else {
        (s, CenterView::ScreenCapture)
    }
}

/// Showing the list: a refresh is started unless one is under way.
pub open spec fn after_begin_listing(s: PanelState) -> (PanelState, bool) {
    if s.updating {
        (s, false)
    } else {
        (PanelState { updating: true, ..s }, true)
    }
}

/// A refresh delivered the games now running.
pub open spec fn after_refresh(s: PanelState, found: Seq<(Seq<char>, u32)>) -> PanelState {
    PanelState { active: found, ..s }
}

/// A refresh has ended.
pub open spec fn after_refresh_end(s: PanelState) -> PanelState {
    PanelState { updating: false, ..s }
}

/// The game at `index` of the list is chosen.
pub open spec fn after_choice(s: PanelState, index: int) -> PanelState {
    PanelState { chosen: Some(s.active[index]), ..s }
}

/// The loading into the chosen game ended, loaded or not.
pub open spec fn after_injection(s: PanelState, injected: bool) -> PanelState {
    if injected { PanelState { injected: true, ..s } } else { s }
}

impl CenterPanel {
    /// No game offered, none chosen, no refresh under way, nothing loaded.
    pub fn new() -> (p: CenterPanel)
        ensures
            p@.active == Seq::<(Seq<char>, u32)>::empty(),
            p@.chosen is None,
            !p@.updating,
            !p@.injected,
            panel_wf(p@),
    {
        CenterPanel {
            active_processes: Vec::new(),
            chosen_process: None,
            updating_processes: false,
            injection_complete: false,
        }
    }

    /// The games offered, as (path, pid).
    pub fn active_processes(&self) -> (v: &Vec<(String, u32)>)
        ensures
            pairs_view(v@) == self@.active,
    {
        &self.active_processes
    }

    /// The note shown in place of the list when no game is running.
    pub fn listing_note(&self) -> (note: Option<&'static str>)
        ensures
            match note {
                Some(t) => self@.active.len() == 0 && t@ == "no active_processes detected!"@,
                None => self@.active.len() > 0,
            },
    {
        if self.active_processes.len() == 0 {
            Some("no active_processes detected!")
        } else {
            None
        }
    }

    /// The pid of the chosen game, if one is chosen.
    pub fn chosen_pid(&self) -> (pid: Option<u32>)
        ensures
            pid == (match self@.chosen {
                Some(c) => Some(c.1),
                None => None::<u32>,
            }),
    {
        match &self.chosen_process {
            Some(p) => Some(p.1),
            None => None,
        }
    }

    /// Whether the library was loaded into the chosen game.
    pub fn injection_complete(&self) -> (b: bool)
        ensures
            b == self@.injected,
    {
        self.injection_complete
    }

    /// Whether a refresh of the offered games is under way.
    pub fn is_updating(&self) -> (b: bool)
        ensures
            b == self@.updating,
    {
        self.updating_processes
    }

    /// One frame of the panel; `still_active` tells whether the chosen game
    /// still runs (it is not looked at when no game is chosen).
    pub fn ui(&mut self, still_active: bool) -> (view: CenterView)
        requires
            panel_wf(old(self)@),
        ensures
            (final(self)@, view) == after_ui(old(self)@, still_active),
            panel_wf(final(self)@),
    {
        if self.chosen_process.is_none() {
            CenterView::ProcessList
        } else if !still_active {
            self.injection_complete = false;
            self.chosen_process = None;
            CenterView::Blank
        } else {
            CenterView::ScreenCapture
        }
    }

    /// Called when the list is shown: says whether a refresh is to be
    /// started, and marks it under way.
    pub fn begin_listing(&mut self) -> (start: bool)
        requires
            panel_wf(old(self)@),
        ensures
            (final(self)@, start) == after_begin_listing(old(self)@),
            panel_wf(final(self)@),
    {
        if !self.updating_processes {
            self.updating_processes = true;
            true
        } else {
            false
        }
    }

    /// A refresh found these games running.
    pub fn set_active_processes(&mut self, found: Vec<(String, u32)>)
        requires
            panel_wf(old(self)@),
        ensures
            final(self)@ == after_refresh(old(self)@, pairs_view(found@)),
            panel_wf(final(self)@),
    {
        self.active_processes = found;
    }

    /// A refresh has ended.
    pub fn finish_update(&mut self)
        requires
            panel_wf(old(self)@),
        ensures
            final(self)@ == after_refresh_end(old(self)@),
            panel_wf(final(self)@),
    {
        self.updating_processes = false;
    }

    /// The game at `index` of the list is chosen; its pid is returned.
    pub fn choose_process(&mut self, index: usize) -> (pid: u32)
        requires
            panel_wf(old(self)@),
            index < old(self)@.active.len(),
        ensures
            final(self)@ == after_choice(old(self)@, index as int),
            pid == old(self)@.active[index as int].1,
            panel_wf(final(self)@),
    {
        let entry = &self.active_processes[index];
        let pid = entry.1;
        self.chosen_process = Some((entry.0.clone(), pid));
        pid
    }

    /// The loading into the chosen game ended, with `injected` telling
    /// whether the library was loaded.
    pub fn finish_injection(&mut self, injected: bool)
        requires
            panel_wf(old(self)@),
            old(self)@.chosen is Some,
        ensures
            final(self)@ == after_injection(old(self)@, injected),
            panel_wf(final(self)@),
    {
        if injected {
            self.injection_complete = true;
        }
    }
}

impl Default for CenterPanel {
    fn default() -> (p: CenterPanel)
        ensures
            p@.active == Seq::<(Seq<char>, u32)>::empty(),
            p@.chosen is None,
            !p@.updating,
            !p@.injected,
            panel_wf(p@),
    {
        CenterPanel::new()
    }
}

/// Every operation of the panel keeps the library reported loaded only into
/// a chosen game.
pub proof fn lemma_injected_only_when_chosen(s: PanelState, still_active: bool, found: Seq<(Seq<char>, u32)>, index: int, injected: bool)
    requires
        panel_wf(s),
    ensures
        panel_wf(after_ui(s, still_active).0),
        panel_wf(after_begin_listing(s).0),
        panel_wf(after_refresh(s, found)),
        panel_wf(after_refresh_end(s)),
        0 <= index < s.active.len() ==> panel_wf(after_choice(s, index)),
        s.chosen is Some ==> panel_wf(after_injection(s, injected)),
{
}

/// When the chosen game has ended, the panel forgets it and the loading,
/// shows nothing in that frame, and shows the list in the next one.
pub proof fn lemma_ended_game_is_forgotten(s: PanelState)
    requires
        s.chosen is Some,
    ensures
        after_ui(s, false).0 == (PanelState { chosen: None, injected: false, ..s }),
        after_ui(s, false).1 == CenterView::Blank,
        after_ui(after_ui(s, false).0, true).1 == CenterView::ProcessList,
{
}

/// Choosing a game from the list and loading the library into it makes the
/// panel show that game's capture while it runs, with the loading reported.
pub proof fn lemma_choose_then_capture(s: PanelState, index: int)
    requires
        0 <= index < s.active.len(),
    ensures
        ({
            let t = after_injection(after_choice(s, index), true);
            &&& t.chosen == Some(s.active[index])
            &&& t.injected
            &&& after_ui(t, true) == (t, CenterView::ScreenCapture)
        }),
{
}

/// At most one refresh is under way: showing the list again before the
/// refresh has ended starts none, and once it has ended the next showing
/// starts one.
pub proof fn lemma_one_refresh_at_a_time(s: PanelState)
    ensures
        !after_begin_listing(after_begin_listing(s).0).1,
        after_begin_listing(after_begin_listing(s).0).0 == after_begin_listing(s).0,
        after_begin_listing(after_refresh_end(after_begin_listing(s).0)).1,
{
}

} // verus!

verus! {

/// A frame with no game chosen shows the list of games and changes
/// nothing, whatever is said of the chosen game's liveness; with a game
/// chosen, its capture is shown exactly while it runs, and the panel only
/// changes when it has ended.
pub proof fn lemma_frame_by_choice(s: PanelState, still_active: bool)
    ensures
        s.chosen is None ==> after_ui(s, still_active).1 == CenterView::ProcessList
            && after_ui(s, still_active).0 == s,
        s.chosen is Some ==> (after_ui(s, still_active).1 == CenterView::ScreenCapture <==> still_active),
        s.chosen is Some && still_active ==> after_ui(s, still_active).0 == s,
        after_ui(s, still_active).1 == CenterView::Blank ==> s.chosen is Some && !still_active,
        after_ui(s, still_active).0.active == s.active,
        after_ui(s, still_active).0.updating == s.updating,
{
}

/// A refresh replaces the offered list by exactly the games found, whatever
/// was offered before, and touches nothing else; ending a refresh only marks
/// it ended; starting one is answered yes exactly when none was under way.
pub proof fn lemma_refresh_replaces_list(s: PanelState, t: PanelState, found: Seq<(Seq<char>, u32)>)
    ensures
        after_refresh(s, found).active == found,
        after_refresh(s, found).active == after_refresh(t, found).active,
        after_refresh(s, found).chosen == s.chosen,
        after_refresh(s, found).updating == s.updating,
        after_refresh(s, found).injected == s.injected,
        !after_refresh_end(s).updating,
        after_refresh_end(s).active == s.active,
        after_refresh_end(s).chosen == s.chosen,
        after_refresh_end(s).injected == s.injected,
        after_begin_listing(s).1 == !s.updating,
        after_begin_listing(s).0.updating,
        after_begin_listing(s).0.active == s.active,
        after_begin_listing(s).0.chosen == s.chosen,
        after_begin_listing(s).0.injected == s.injected,
{
}

/// Choosing the game at `index` makes it the chosen one and changes nothing
/// else; the end of a loading records success and changes nothing else.
pub proof fn lemma_choice_and_loading(s: PanelState, index: int, injected: bool)
    requires
        0 <= index < s.active.len(),
    ensures
        after_choice(s, index).chosen == Some(s.active[index]),
        after_choice(s, index).active == s.active,
        after_choice(s, index).updating == s.updating,
        after_choice(s, index).injected == s.injected,
        after_injection(s, injected).injected == (s.injected || injected),
        after_injection(s, injected).chosen == s.chosen,
        after_injection(s, injected).active == s.active,
        after_injection(s, injected).updating == s.updating,
{
}

} // verus!
