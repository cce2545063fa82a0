use vstd::prelude::*;

verus! {

/// The name of the monitor that the workbench comes with.
pub open spec fn test_monitor_name() -> Seq<char> {
    "Test Monitor"@
}

/// The monitor that the workbench comes with.
#[derive(Debug, Clone, Copy, PartialEq, Eq, Structural)]
pub struct TestMonitor {}

impl Default for TestMonitor {
    fn default() -> (m: TestMonitor)
        ensures
            m == (TestMonitor {}),
    {
        TestMonitor {}
    }
}

impl TestMonitor {
    /// Its name, under which it is opened and closed.
    pub fn name(&self) -> (n: &'static str)
        ensures
            n@ == test_monitor_name(),
    {
        "Test Monitor"
    }
}

/// How a monitor's window is drawn: its size, its behaviour, and the
/// widgets it holds (a label, a button that reports a click with a message,
/// and a line that gives the display's scale).
#[derive(Debug, Clone, Copy)]
pub struct MonitorWindow {
    pub title: &'static str,
    pub default_width: u16,
    pub default_height: u16,
    pub resizable: bool,
    pub scroll_horizontal: bool,
    pub scroll_vertical: bool,
    pub default_open: bool,
    pub collapsible: bool,
    pub label: &'static str,
    pub button: &'static str,
    pub click_message: &'static str,
    pub scale_caption: &'static str,
}

impl TestMonitor {
    /// Its window: 400 by 400 points, resizable, scrolling both ways, open
    /// at first and not collapsible.
    pub fn window(&self) -> (w: MonitorWindow)
        ensures
            w.title@ == test_monitor_name(),
            w.default_width == 400,
            w.default_height == 400,
            w.resizable,
            w.scroll_horizontal,
            w.scroll_vertical,
            w.default_open,
            !w.collapsible,
            w.label@ == "Label!"@,
            w.button@ == "button!"@,
            w.click_message@ == "boom!"@,
            w.scale_caption@ == "Pixels per point: "@,
    {
        MonitorWindow {
            title: self.name(),
            default_width: 400,
            default_height: 400,
            resizable: true,
            scroll_horizontal: true,
            scroll_vertical: true,
            default_open: true,
            collapsible: false,
            label: "Label!",
            button: "button!",
            click_message: "boom!",
            scale_caption: "Pixels per point: ",
        }
    }
}

/// The monitors registered, by name, and which of them are open.
pub struct MonitorsState {
    pub names: Seq<Seq<char>>,
    pub open: Set<Seq<char>>,
}

/// The registered monitors and the set of open ones, kept by name.
pub struct Monitors {
    names: Vec<String>,
    open: Vec<String>,
}

/// A list of strings as plain values.
pub open spec fn strings_view(v: Seq<String>) -> Seq<Seq<char>> {
    v.map_values(|s: String| s@)
}

impl View for Monitors {
    type V = MonitorsState;

    closed spec fn view(&self) -> MonitorsState {
        MonitorsState { names: strings_view(self.names@), open: strings_view(self.open@).to_set() }
    }
}

/// Only the monitor that comes with the workbench is ever open.
pub open spec fn only_test_monitor_open(s: MonitorsState) -> bool {
    forall|n: Seq<char>| s.open.contains(n) ==> n == test_monitor_name()
}

/// Asking for a monitor to be opened opens the monitor that comes with the
/// workbench, whichever name was asked for.
pub open spec fn after_enable(s: MonitorsState) -> MonitorsState {
    MonitorsState { open: s.open.insert(test_monitor_name()), ..s }
}

/// After the monitor at `index` was shown: it is closed when its window was.
pub open spec fn after_shown(s: MonitorsState, index: int, still_open: bool) -> MonitorsState {
    if still_open { s } else { MonitorsState { open: s.open.remove(s.names[index]), ..s } }
}

impl Monitors {
    /// The open set holds each name once.
    pub closed spec fn wf(&self) -> bool {
        strings_view(self.open@).no_duplicates()
    }

    /// Where `name` stands in `v`, if it does.
    fn position(v: &Vec<String>, name: &String) -> (r: Option<usize>)
        ensures
            match r {
                Some(i) => i < v.len() && v@[i as int]@ == name@,
                None => !strings_view(v@).contains(name@),
            },
    {
        let mut i: usize = 0;
        while i < v.len()
            invariant
                i <= v.len(),
                forall|k: int| 0 <= k < i ==> v@[k]@ != name@,
            decreases v.len() - i,
        {
            if v[i] == *name {
                return Some(i);
            }
            i = i + 1;
        }
        None
    }

    /// Adds `name` to the open set.
    fn open_name(&mut self, name: String)
        requires
            old(self).wf(),
        ensures
            final(self).wf(),
            final(self)@ == (MonitorsState { open: old(self)@.open.insert(name@), ..old(self)@ }),
    {
        let ghost before = strings_view(self.open@);
        match Self::position(&self.open, &name) {
            Some(i) => {
                assert(before[i as int] == name@);
                assert(before.to_set().insert(name@) =~= before.to_set());
            },
            None => {
                let ghost n = name@;
                self.open.push(name);
                assert(strings_view(self.open@) =~= before.push(n));
                proof {
                    before.lemma_push_to_set_commute(n);
                }
            },
        }
    }

    /// Removes `name` from the open set.
    fn close_name(&mut self, name: &String)
        requires
            old(self).wf(),
        ensures
            final(self).wf(),
            final(self)@ == (MonitorsState { open: old(self)@.open.remove(name@), ..old(self)@ }),
    {
        let ghost before = strings_view(self.open@);
        match Self::position(&self.open, name) {
            Some(i) => {
                self.open.remove(i);
                let ghost after = strings_view(self.open@);
                assert(after =~= before.remove(i as int));
                assert forall|x: Seq<char>| after.to_set().contains(x) <==> before.to_set().remove(name@).contains(x) by {
                    assert(before[i as int] == name@);
                    if after.contains(x) {
                        let k = choose|k: int| 0 <= k < after.len() && after[k] == x;
                        let k2 = if k < i { k } else { k + 1 };
                        assert(before[k2] == x);
                        assert(k2 != i);
                        assert(x != name@);
                        assert(before.contains(x));
                    }
                    if before.contains(x) && x != name@ {
                        let k = choose|k: int| 0 <= k < before.len() && before[k] == x;
                        if k < i {
                            assert(after[k] == x);
                        } else {
                            assert(after[k - 1] == x);
                        }
                    }
                }
                assert(after.to_set() =~= before.to_set().remove(name@));
                assert(after.no_duplicates()) by {
                    assert forall|a: int, b: int| 0 <= a < after.len() && 0 <= b < after.len() && a != b implies after[a] != after[b] by {
                        let a2 = if a < i { a } else { a + 1 };
                        let b2 = if b < i { b } else { b + 1 };
                        assert(after[a] == before[a2]);
                        assert(after[b] == before[b2]);
                    }
                }
            },
            None => {
                assert(before.to_set().remove(name@) =~= before.to_set());
            },
        }
    }

    /// The given monitors registered, with the one that comes with the
    /// workbench open.
    pub fn from_monitors(names: Vec<String>) -> (m: Monitors)
        ensures
            m@.names == strings_view(names@),
            m@.open == set![test_monitor_name()],
            m.wf(),
    {
        let mut m = Monitors { names, open: Vec::new() };
        assert(strings_view(m.open@).to_set() =~= Set::<Seq<char>>::empty());
        let name: String = TestMonitor::default().name().to_owned();
        m.open_name(name);
        assert(Set::<Seq<char>>::empty().insert(test_monitor_name()) =~= set![test_monitor_name()]);
        m
    }

    /// Asks for a monitor to be opened; the monitor that comes with the
    /// workbench is opened, whichever name is given.
    pub fn enable_monitor(&mut self, _name: String)
        requires
            old(self).wf(),
        ensures
            final(self).wf(),
            final(self)@ == after_enable(old(self)@),
    {
        let name: String = TestMonitor::default().name().to_owned();
        self.open_name(name);
    }

    /// How many monitors are registered.
    pub fn len(&self) -> (n: usize)
        ensures
            n == self@.names.len(),
    {
        self.names.len()
    }

    /// The name of the monitor at `index`.
    pub fn name(&self, index: usize) -> (n: &String)
        requires
            index < self@.names.len(),
        ensures
            n@ == self@.names[index as int],
    {
        &self.names[index]
    }

    /// Whether the monitor at `index` is open, that is, to be shown.
    pub fn is_open(&self, index: usize) -> (b: bool)
        requires
            index < self@.names.len(),
        ensures
            b == self@.open.contains(self@.names[index as int]),
    {
        let name = &self.names[index];
        match Self::position(&self.open, name) {
            Some(i) => {
                assert(strings_view(self.open@)[i as int] == name@);
                true
            },
            None => false,
        }
    }

    /// Records whether the window of the monitor at `index` is still open
    /// after it was shown; a closed one leaves the open set.
    pub fn shown(&mut self, index: usize, still_open: bool)
        requires
            old(self).wf(),
            index < old(self)@.names.len(),
        ensures
            final(self).wf(),
            final(self)@ == after_shown(old(self)@, index as int, still_open),
    {
        if !still_open {
            let name = self.names[index].clone();
            self.close_name(&name);
        }
    }
}

impl Default for Monitors {
    fn default() -> (m: Monitors)
        ensures
            m@.names == seq![test_monitor_name()],
            m@.open == set![test_monitor_name()],
            m.wf(),
    {
        let name: String = TestMonitor::default().name().to_owned();
        let names = vec![name];
        assert(strings_view(names@) =~= seq![test_monitor_name()]);
        Monitors::from_monitors(names)
    }
}

/// Whatever is done to the monitors, only the one that comes with the
/// workbench is ever open.
pub proof fn lemma_only_test_monitor_opens(s: MonitorsState, index: int, still_open: bool)
    requires
        only_test_monitor_open(s),
    ensures
        only_test_monitor_open(after_enable(s)),
        only_test_monitor_open(after_shown(s, index, still_open)),
{
}

/// A monitor whose window was closed is no longer open; asking for a
/// monitor to be opened then opens the workbench's own monitor again.
pub proof fn lemma_close_then_enable(s: MonitorsState, index: int)
    requires
        0 <= index < s.names.len(),
        s.names[index] == test_monitor_name(),
    ensures
        !after_shown(s, index, false).open.contains(s.names[index]),
        after_enable(after_shown(s, index, false)).open.contains(s.names[index]),
        after_shown(s, index, true) == s,
{
}

} // verus!

verus! {

/// A closed window takes only its own monitor's name out of the open set:
/// every other name keeps its membership; an open window changes nothing.
/// Asking for a monitor to be opened adds the workbench's monitor and keeps
/// every other name as it was; neither touches the registered names.
pub proof fn lemma_shown_closes_only_itself(s: MonitorsState, index: int, n: Seq<char>)
    requires
        0 <= index < s.names.len(),
    ensures
        after_shown(s, index, false).open.contains(n) <==> (s.open.contains(n) && n != s.names[index]),
        after_shown(s, index, true).open == s.open,
        after_shown(s, index, false).names == s.names,
        after_shown(s, index, true).names == s.names,
        after_enable(s).open.contains(n) <==> (s.open.contains(n) || n == test_monitor_name()),
        after_enable(s).names == s.names,
{
}

} // verus!
