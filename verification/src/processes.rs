use vstd::prelude::*;
use vstd::string::StringExecFns;

use crate::text::{char_vec, contains, contains_chars, decimal, ends_with, ends_with_chars, occurs_at, push_decimal};

verus! {

/// Exit code that Windows reports for a process that has not terminated.
pub const STILL_ACTIVE: u32 = 259;

/// A path names a game started from a Steam library: an executable
/// somewhere below `Steam\steamapps`.
pub open spec fn is_steam_game_path(path: Seq<char>) -> bool {
    &&& ends_with_chars(path, ".exe"@)
    &&& contains_chars(path, "Steam\\steamapps"@)
}

/// One process met while walking the system's process list: its id and,
/// when the process could be opened and its executable path read, that path.
pub struct ProcessEntry {
    pub pid: u32,
    pub path: Option<String>,
}

/// What walking the process list gave: a failure code of one of the two
/// first steps, or the processes met, in order.
pub enum ProcessScan {
    SnapshotFailed(u32),
    FirstProcessFailed(u32),
    Listed(Vec<ProcessEntry>),
}

/// Why the list of processes could not be had.
#[derive(Debug, PartialEq, Eq, Structural)]
pub enum ProcessEnumerationError {
    SnapshotFailed(u32),
    FirstProcessFailed(u32),
}

/// How the system answered when asked about a chosen process.
pub enum ExitQuery {
    /// The process could not be opened.
    OpenFailed,
    /// Its exit code could not be read.
    QueryFailed,
    /// Its exit code.
    ExitCode(u32),
}

/// A (path, pid) list as plain values.
pub open spec fn pairs_view(v: Seq<(String, u32)>) -> Seq<(Seq<char>, u32)> {
    v.map_values(|p: (String, u32)| (p.0@, p.1))
}

/// The entries that name a Steam game, as (path, pid), in the order met.
pub open spec fn steam_processes(entries: Seq<ProcessEntry>) -> Seq<(Seq<char>, u32)>
    decreases entries.len(),
{
    if entries.len() == 0 {
        seq![]
    } else {
        let prev = steam_processes(entries.drop_last());
        let e = entries.last();
        match e.path {
            Some(p) => if is_steam_game_path(p@) { prev.push((p@, e.pid)) } else { prev },
            None => prev,
        }
    }
}

/// Whether an entry names a Steam game.
pub open spec fn names_steam_game(e: ProcessEntry) -> bool {
    e.path matches Some(p) && is_steam_game_path(p@)
}

/// The selection keeps the order of the processes met: selecting from two
/// lists one after the other gives the two selections one after the other.
pub proof fn lemma_selection_keeps_order(a: Seq<ProcessEntry>, b: Seq<ProcessEntry>)
    ensures
        steam_processes(a + b) == steam_processes(a) + steam_processes(b),
    decreases b.len(),
{
    if b.len() == 0 {
        assert(a + b =~= a);
        assert(steam_processes(b) =~= seq![]);
        assert(steam_processes(a) + steam_processes(b) =~= steam_processes(a));
    } else {
        lemma_selection_keeps_order(a, b.drop_last());
        assert((a + b).drop_last() =~= a + b.drop_last());
        assert((a + b).last() == b.last());
    }
}

/// Exactly the processes that name a Steam game are offered, each with its
/// own path and pid: an entry met is offered when its path names a game,
/// and everything offered is such an entry.
pub proof fn lemma_selection_exact(entries: Seq<ProcessEntry>)
    ensures
        forall|k: int| 0 <= k < steam_processes(entries).len() ==> exists|j: int| 0 <= j < entries.len()
            && names_steam_game(#[trigger] entries[j])
            && #[trigger] steam_processes(entries)[k] == (entries[j].path.unwrap()@, entries[j].pid),
        forall|j: int| 0 <= j < entries.len() && names_steam_game(#[trigger] entries[j])
            ==> steam_processes(entries).contains((entries[j].path.unwrap()@, entries[j].pid)),
    decreases entries.len(),
{
    if entries.len() > 0 {
        let init = entries.drop_last();
        lemma_selection_exact(init);
        let prev = steam_processes(init);
        let cur = steam_processes(entries);
        assert forall|k: int| 0 <= k < cur.len() implies exists|j: int| 0 <= j < entries.len()
            && names_steam_game(#[trigger] entries[j])
            && #[trigger] cur[k] == (entries[j].path.unwrap()@, entries[j].pid) by {
            if k < prev.len() {
                let j = choose|j: int| 0 <= j < init.len() && names_steam_game(#[trigger] init[j])
                    && prev[k] == (init[j].path.unwrap()@, init[j].pid);
                assert(entries[j] == init[j]);
            } else {
                assert(entries[entries.len() - 1] == entries.last());
            }
        }
        assert forall|j: int| 0 <= j < entries.len() && names_steam_game(#[trigger] entries[j])
            implies cur.contains((entries[j].path.unwrap()@, entries[j].pid)) by {
            if j < init.len() {
                assert(init[j] == entries[j]);
                let k = choose|k: int| 0 <= k < prev.len() && prev[k] == (init[j].path.unwrap()@, init[j].pid);
                assert(cur[k] == prev[k]);
            } else {
                assert(cur[cur.len() - 1] == (entries[j].path.unwrap()@, entries[j].pid));
            }
        }
    }
}

/// The offered list is the process list filtered by "names a Steam game",
/// each entry turned into its (path, pid): every matching process appears
/// once, in order, and nothing else appears.
pub proof fn lemma_selection_is_filter(entries: Seq<ProcessEntry>)
    ensures
        steam_processes(entries) == entries.filter(|e: ProcessEntry| names_steam_game(e)).map_values(
            |e: ProcessEntry| (e.path.unwrap()@, e.pid),
        ),
        steam_processes(entries).len() == entries.filter(|e: ProcessEntry| names_steam_game(e)).len(),
    decreases entries.len(),
{
    let pred = |e: ProcessEntry| names_steam_game(e);
    let f = |e: ProcessEntry| (e.path.unwrap()@, e.pid);
    reveal_with_fuel(Seq::filter, 1);
    if entries.len() > 0 {
        lemma_selection_is_filter(entries.drop_last());
        let sub = entries.drop_last().filter(pred);
        if pred(entries.last()) {
            assert(entries.filter(pred) == sub.push(entries.last()));
            assert(sub.push(entries.last()).map_values(f) =~= sub.map_values(f).push(f(entries.last())));
        } else {
            assert(entries.filter(pred) == sub);
        }
    } else {
        assert(entries.filter(pred) =~= entries);
        assert(entries.filter(pred).map_values(f) =~= Seq::<(Seq<char>, u32)>::empty());
    }
}

/// A single process is offered at most once: once, with its own path and
/// pid, when its path names a Steam game, and not at all otherwise.
pub proof fn lemma_single_process(e: ProcessEntry)
    ensures
        names_steam_game(e) ==> steam_processes(seq![e]) == seq![(e.path.unwrap()@, e.pid)],
        !names_steam_game(e) ==> steam_processes(seq![e]).len() == 0,
        steam_processes(seq![e]).len() <= 1,
{
    assert(seq![e].drop_last() =~= Seq::<ProcessEntry>::empty());
    assert(seq![e].last() == e);
    assert(steam_processes(Seq::<ProcessEntry>::empty()) =~= Seq::<(Seq<char>, u32)>::empty());
    if names_steam_game(e) {
        assert(Seq::<(Seq<char>, u32)>::empty().push((e.path.unwrap()@, e.pid)) =~= seq![(e.path.unwrap()@, e.pid)]);
    }
}

/// A path names a Steam game exactly when its last four characters are
/// ".exe" and "Steam\steamapps" stands somewhere in it.
pub proof fn lemma_steam_path_meaning(path: Seq<char>)
    ensures
        is_steam_game_path(path) <==> (
            path.len() >= 4 && path.subrange(path.len() - 4, path.len() as int) == ".exe"@
            && exists|i: int| 0 <= i && i + "Steam\\steamapps"@.len() <= path.len()
                && #[trigger] path.subrange(i, i + "Steam\\steamapps"@.len()) == "Steam\\steamapps"@),
{
    reveal_strlit(".exe");
    reveal_strlit("Steam\\steamapps");
    let exe = ".exe"@;
    let lib = "Steam\\steamapps"@;
    if ends_with_chars(path, exe) {
        assert forall|k: int| 0 <= k < exe.len() implies path.subrange(path.len() - 4, path.len() as int)[k] == exe[k] by {
            assert(path[path.len() - exe.len() + k] == exe[k]);
        }
        assert(path.subrange(path.len() - 4, path.len() as int) =~= exe);
    }
    if path.len() >= 4 && path.subrange(path.len() - 4, path.len() as int) == exe {
        assert forall|j: int| 0 <= j < exe.len() implies #[trigger] path[path.len() - exe.len() + j] == exe[j] by {
            assert(path.subrange(path.len() - 4, path.len() as int)[j] == path[path.len() - 4 + j]);
        }
    }
    if contains_chars(path, lib) {
        let i = choose|i: int| occurs_at(path, lib, i);
        assert forall|k: int| 0 <= k < lib.len() implies path.subrange(i, i + lib.len())[k] == lib[k] by {
            assert(path[i + k] == lib[k]);
        }
        assert(path.subrange(i, i + lib.len()) =~= lib);
    }
    if exists|i: int| 0 <= i && i + lib.len() <= path.len() && #[trigger] path.subrange(i, i + lib.len()) == lib {
        let i = choose|i: int| 0 <= i && i + lib.len() <= path.len() && #[trigger] path.subrange(i, i + lib.len()) == lib;
        assert forall|j: int| 0 <= j < lib.len() implies #[trigger] path[i + j] == lib[j] by {
            assert(path.subrange(i, i + lib.len())[j] == path[i + j]);
        }
        assert(occurs_at(path, lib, i));
    }
}

/// The text of an enumeration error.
pub open spec fn error_text(e: ProcessEnumerationError) -> Seq<char> {
    match e {
        ProcessEnumerationError::SnapshotFailed(code) =>
            "Failed to create snapshot. Error code: "@ + decimal(code as nat),
        ProcessEnumerationError::FirstProcessFailed(code) =>
            "Failed to get first process. Error code: "@ + decimal(code as nat),
    }
}

/// Whether `path` names an executable inside a Steam library.
pub fn is_steam_game(path: &str) -> (b: bool)
    ensures
        b == is_steam_game_path(path@),
{
    let chars = char_vec(path);
    let exe = char_vec(".exe");
    let library = char_vec("Steam\\steamapps");
    ends_with(&chars, &exe) && contains(&chars, &library)
}

/// The Steam games among the processes met, as (path, pid), in order.
pub fn collect_steam_processes(entries: &Vec<ProcessEntry>) -> (found: Vec<(String, u32)>)
    ensures
        pairs_view(found@) == steam_processes(entries@),
{
    let mut found: Vec<(String, u32)> = Vec::new();
    let mut i: usize = 0;
    while i < entries.len()
        invariant
            i <= entries.len(),
            pairs_view(found@) == steam_processes(entries@.take(i as int)),
        decreases entries.len() - i,
    {
        assert(entries@.take(i + 1).drop_last() == entries@.take(i as int));
        let e = &entries[i];
        match &e.path {
            Some(p) => {
                if is_steam_game(p.as_str()) {
                    found.push((p.clone(), e.pid));
                }
            },
            None => {},
        }
        i = i + 1;
    }
    assert(entries@.take(i as int) == entries@);
    found
}

/// The running Steam games, or why the process list could not be had.
pub fn enumerate_active_processes(scan: &ProcessScan) -> (res: Result<Vec<(String, u32)>, ProcessEnumerationError>)
    ensures
        match scan {
            ProcessScan::SnapshotFailed(code) => res == Err::<Vec<(String, u32)>, _>(ProcessEnumerationError::SnapshotFailed(*code)),
            ProcessScan::FirstProcessFailed(code) => res == Err::<Vec<(String, u32)>, _>(ProcessEnumerationError::FirstProcessFailed(*code)),
            ProcessScan::Listed(entries) => res matches Ok(found) && pairs_view(found@) == steam_processes(entries@),
        },
{
    match scan {
        ProcessScan::SnapshotFailed(code) => Err(ProcessEnumerationError::SnapshotFailed(*code)),
        ProcessScan::FirstProcessFailed(code) => Err(ProcessEnumerationError::FirstProcessFailed(*code)),
        ProcessScan::Listed(entries) => Ok(collect_steam_processes(entries)),
    }
}

impl ProcessEnumerationError {
    /// The error's text, as it is shown to the user.
    pub fn message(&self) -> (s: String)
        ensures
            s@ == error_text(*self),
    {
        let mut s = String::new();
        match self {
            ProcessEnumerationError::SnapshotFailed(code) => {
                s.append("Failed to create snapshot. Error code: ");
                push_decimal(&mut s, *code);
            },
            ProcessEnumerationError::FirstProcessFailed(code) => {
                s.append("Failed to get first process. Error code: ");
                push_decimal(&mut s, *code);
            },
        }
        s
    }

    /// The text with which a failed refresh of the process list stops the
    /// program.
    pub fn report(&self) -> (s: String)
        ensures
            s@ == "Error enumerating active_processes: "@ + error_text(*self),
    {
        let mut s = String::new();
        s.append("Error enumerating active_processes: ");
        let m = self.message();
        s.append(m.as_str());
        s
    }
}

/// Whether a chosen process is still running, from what the system answered.
pub fn is_still_active(query: &ExitQuery) -> (b: bool)
    ensures
        b == (query matches ExitQuery::ExitCode(code) && code == STILL_ACTIVE),
{
    match query {
        ExitQuery::OpenFailed => false,
        ExitQuery::QueryFailed => false,
        ExitQuery::ExitCode(code) => *code == STILL_ACTIVE,
    }
}

} // verus!
