use vstd::prelude::*;

verus! {

/// Where the library that is loaded into the chosen process lies.
pub fn dll_path() -> (p: &'static str)
    ensures
        p@ == "C:\\atdll.dll"@,
{
    "C:\\atdll.dll"
}

/// How many bytes are reserved in the target process for the library's
/// path: the path and its terminating zero byte.
pub open spec fn path_allocation_size() -> nat {
    "C:\\atdll.dll"@.len() + 1
}

/// The call that comes next while loading the library into a process.
#[derive(Debug, Clone, Copy, PartialEq, Eq, Structural)]
pub enum InjectionStep {
    /// Open the target process.
    OpenProcess,
    /// Reserve room for the library's path in the target process.
    AllocateMemory,
    /// Write the library's path into that room.
    WritePath,
    /// Find the address of the loader routine.
    ResolveLoadLibrary,
    /// Start a thread in the target process that loads the library.
    StartThread,
    /// Nothing is left to do.
    Finished,
}

/// Why loading the library failed.
#[derive(Debug, Clone, Copy, PartialEq, Eq, Structural)]
pub enum InjectionFailure {
    OpenProcess,
    AllocateMemory,
    WritePath,
    ResolveLoadLibrary,
    StartThread,
}

/// What the caller does next.
#[derive(Debug, Clone, Copy, PartialEq, Eq, Structural)]
pub enum InjectionAction {
    /// Open process `pid` with full access.
    OpenProcess { pid: u32 },
    /// Reserve `size` bytes, readable and writable, in the opened process.
    AllocateMemory { size: usize },
    /// Write the library's path and its zero byte (`size` bytes) there.
    WritePath { size: usize },
    /// Look up the loader routine of the system library.
    ResolveLoadLibrary,
    /// Start the loader routine in the target process on the written path.
    StartThread,
    /// Report the failure and end the whole program with exit code 1.
    Exit { failure: InjectionFailure },
    /// Report the failure if there is one, close the handles named, and
    /// return whether the library was loaded.
    Finish { report: Option<InjectionFailure>, close_thread: bool, close_process: bool, injected: bool },
}

/// The message printed for a failure.
pub open spec fn failure_text(f: InjectionFailure) -> Seq<char> {
    match f {
        InjectionFailure::OpenProcess => "Failed to open target process."@,
        InjectionFailure::AllocateMemory => "Failed to allocate memory in target process."@,
        InjectionFailure::WritePath => "Failed to write DLL path into target process memory."@,
        InjectionFailure::ResolveLoadLibrary => "Failed to get address of LoadLibraryA."@,
        InjectionFailure::StartThread => "Failed to create remote thread in target process."@,
    }
}

/// The step taken on the outcome `ok` of the current call: the next step
/// and what the caller does next.
pub open spec fn transition(step: InjectionStep, ok: bool) -> (InjectionStep, InjectionAction) {
    match step {
        InjectionStep::OpenProcess => if ok {
            (InjectionStep::AllocateMemory, InjectionAction::AllocateMemory { size: path_allocation_size() as usize })
        } else {
            (InjectionStep::Finished, InjectionAction::Exit { failure: InjectionFailure::OpenProcess })
        },
        InjectionStep::AllocateMemory => if ok {
            (InjectionStep::WritePath, InjectionAction::WritePath { size: path_allocation_size() as usize })
        } else {
            (InjectionStep::Finished, InjectionAction::Exit { failure: InjectionFailure::AllocateMemory })
        },
        InjectionStep::WritePath => if ok {
            (InjectionStep::ResolveLoadLibrary, InjectionAction::ResolveLoadLibrary)
        } else {
            (InjectionStep::Finished, InjectionAction::Finish {
                report: Some(InjectionFailure::WritePath), close_thread: false, close_process: true, injected: false })
        },
        InjectionStep::ResolveLoadLibrary => if ok {
            (InjectionStep::StartThread, InjectionAction::StartThread)
        } else {
            (InjectionStep::Finished, InjectionAction::Exit { failure: InjectionFailure::ResolveLoadLibrary })
        },
        InjectionStep::StartThread => if ok {
            (InjectionStep::Finished, InjectionAction::Finish {
                report: None, close_thread: true, close_process: true, injected: true })
        } else {
            (InjectionStep::Finished, InjectionAction::Finish {
                report: Some(InjectionFailure::StartThread), close_thread: false, close_process: true, injected: false })
        },
        InjectionStep::Finished => (InjectionStep::Finished, InjectionAction::ResolveLoadLibrary),
    }
}

/// The actions taken from `step` on the outcomes `oks`, one per call, until
/// the injection is finished (later outcomes are not looked at).
pub open spec fn run(step: InjectionStep, oks: Seq<bool>) -> (InjectionStep, Seq<InjectionAction>)
    decreases oks.len(),
{
    if oks.len() == 0 || step == InjectionStep::Finished {
        (step, seq![])
    } else {
        let (next, action) = transition(step, oks[0]);
        let (last, rest) = run(next, oks.drop_first());
        (last, seq![action] + rest)
    }
}

/// Every path on which the injection returns to its caller closes the
/// target process's handle first, closes the thread's handle exactly when
/// the library was loaded, and reports a failure exactly when it was not.
pub proof fn lemma_finish_closes_handles(step: InjectionStep, ok: bool)
    ensures
        transition(step, ok).1 matches InjectionAction::Finish { report, close_thread, close_process, injected }
            ==> close_process && close_thread == injected && (injected <==> report is None),
{
}

/// Starting from the opening of the process, the injection is finished
/// after at most five calls, and its last action either ends the program
/// or returns to the caller.
pub proof fn lemma_injection_ends(oks: Seq<bool>)
    requires
        oks.len() >= 5,
    ensures
        run(InjectionStep::OpenProcess, oks).0 == InjectionStep::Finished,
        run(InjectionStep::OpenProcess, oks).1.len() >= 1,
        run(InjectionStep::OpenProcess, oks).1.last() is Exit
            || run(InjectionStep::OpenProcess, oks).1.last() is Finish,
{
    reveal_with_fuel(run, 6);
    let o1 = oks.drop_first();
    let o2 = o1.drop_first();
    let o3 = o2.drop_first();
    let o4 = o3.drop_first();
    let o5 = o4.drop_first();
    assert(o1[0] == oks[1] && o2[0] == oks[2] && o3[0] == oks[3] && o4[0] == oks[4]);
}

/// The library is reported loaded exactly when each of the five calls
/// succeeded.
pub proof fn lemma_injected_iff_all_succeed(oks: Seq<bool>)
    requires
        oks.len() == 5,
    ensures
        run(InjectionStep::OpenProcess, oks).1.last() == (InjectionAction::Finish {
            report: None, close_thread: true, close_process: true, injected: true })
            <==> (forall|i: int| 0 <= i < 5 ==> oks[i]),
{
    reveal_with_fuel(run, 6);
    let o1 = oks.drop_first();
    let o2 = o1.drop_first();
    let o3 = o2.drop_first();
    let o4 = o3.drop_first();
    let o5 = o4.drop_first();
    assert(o1[0] == oks[1] && o2[0] == oks[2] && o3[0] == oks[3] && o4[0] == oks[4]);
    if forall|i: int| 0 <= i < 5 ==> oks[i] {
        assert(oks[0] && oks[1] && oks[2] && oks[3] && oks[4]);
    }
}

/// Loading a library into a chosen process, one system call at a time.
pub struct Injection {
    pub pid: u32,
    pub step: InjectionStep,
}

impl InjectionFailure {
    /// The message printed for this failure.
    pub fn message(&self) -> (s: &'static str)
        ensures
            s@ == failure_text(*self),
    {
        match self {
            InjectionFailure::OpenProcess => "Failed to open target process.",
            InjectionFailure::AllocateMemory => "Failed to allocate memory in target process.",
            InjectionFailure::WritePath => "Failed to write DLL path into target process memory.",
            InjectionFailure::ResolveLoadLibrary => "Failed to get address of LoadLibraryA.",
            InjectionFailure::StartThread => "Failed to create remote thread in target process.",
        }
    }
}

/// The number of bytes reserved for the library's path.
fn allocation_size() -> (n: usize)
    ensures
        n == path_allocation_size(),
{
    proof {
        reveal_strlit("C:\\atdll.dll");
    }
    let n: usize = char_count(dll_path());
    n + 1
}

/// The number of characters of a short string.
fn char_count(s: &str) -> (n: usize)
    requires
        s@.len() < 64,
    ensures
        n == s@.len(),
{
    crate::text::char_vec(s).len()
}

impl Injection {
    /// Starts loading the library into process `pid`: the first call opens it.
    pub fn start(pid: u32) -> (res: (Injection, InjectionAction))
        ensures
            res.0.pid == pid,
            res.0.step == InjectionStep::OpenProcess,
            res.1 == (InjectionAction::OpenProcess { pid }),
    {
        (Injection { pid, step: InjectionStep::OpenProcess }, InjectionAction::OpenProcess { pid })
    }

    /// Whether nothing is left to do.
    pub fn is_finished(&self) -> (b: bool)
        ensures
            b == (self.step == InjectionStep::Finished),
    {
        self.step == InjectionStep::Finished
    }

    /// Takes the outcome of the current call and says what comes next.
    pub fn advance(&mut self, ok: bool) -> (action: InjectionAction)
        requires
            old(self).step != InjectionStep::Finished,
        ensures
            (final(self).step, action) == transition(old(self).step, ok),
            final(self).pid == old(self).pid,
    {
        let size = allocation_size();
        let (next, action) = match self.step {
            InjectionStep::OpenProcess => if ok {
                (InjectionStep::AllocateMemory, InjectionAction::AllocateMemory { size })
            } else {
                (InjectionStep::Finished, InjectionAction::Exit { failure: InjectionFailure::OpenProcess })
            },
            InjectionStep::AllocateMemory => if ok {
                (InjectionStep::WritePath, InjectionAction::WritePath { size })
            } else {
                (InjectionStep::Finished, InjectionAction::Exit { failure: InjectionFailure::AllocateMemory })
            },
            InjectionStep::WritePath => if ok {
                (InjectionStep::ResolveLoadLibrary, InjectionAction::ResolveLoadLibrary)
            } else {
                (InjectionStep::Finished, InjectionAction::Finish {
                    report: Some(InjectionFailure::WritePath), close_thread: false, close_process: true, injected: false })
            },
            InjectionStep::ResolveLoadLibrary => if ok {
                (InjectionStep::StartThread, InjectionAction::StartThread)
            } else {
                (InjectionStep::Finished, InjectionAction::Exit { failure: InjectionFailure::ResolveLoadLibrary })
            },
            _ => if ok {
                (InjectionStep::Finished, InjectionAction::Finish {
                    report: None, close_thread: true, close_process: true, injected: true })
            } else {
                (InjectionStep::Finished, InjectionAction::Finish {
                    report: Some(InjectionFailure::StartThread), close_thread: false, close_process: true, injected: false })
            },
        };
        self.step = next;
        action
    }
}

} // verus!

verus! {

/// When every call succeeds the calls come in this order: open the
/// process, reserve 13 bytes (the 12 characters of the path and a zero
/// byte), write them, look up the loader, start the thread; then the
/// library is reported loaded and both handles are closed.
pub proof fn lemma_call_order()
    ensures
        run(InjectionStep::OpenProcess, seq![true, true, true, true, true]).1 == seq![
            InjectionAction::AllocateMemory { size: 13 },
            InjectionAction::WritePath { size: 13 },
            InjectionAction::ResolveLoadLibrary,
            InjectionAction::StartThread,
            InjectionAction::Finish { report: None, close_thread: true, close_process: true, injected: true },
        ],
{
    reveal_strlit("C:\\atdll.dll");
    reveal_with_fuel(run, 6);
    let oks = seq![true, true, true, true, true];
    assert(oks.drop_first() =~= seq![true, true, true, true]);
    assert(oks.drop_first().drop_first() =~= seq![true, true, true]);
    assert(oks.drop_first().drop_first().drop_first() =~= seq![true, true]);
    assert(oks.drop_first().drop_first().drop_first().drop_first() =~= seq![true]);
    assert(oks.drop_first().drop_first().drop_first().drop_first().drop_first() =~= Seq::<bool>::empty());
    assert(run(InjectionStep::OpenProcess, oks).1 =~= seq![
        InjectionAction::AllocateMemory { size: 13 },
        InjectionAction::WritePath { size: 13 },
        InjectionAction::ResolveLoadLibrary,
        InjectionAction::StartThread,
        InjectionAction::Finish { report: None, close_thread: true, close_process: true, injected: true },
    ]);
}

/// A failed call ends the injection at once and names itself: a failed
/// open, reservation or lookup ends the program; a failed write or thread
/// start returns without the library loaded. A successful call never ends
/// the injection, except the thread start, which ends it with the library
/// loaded.
pub proof fn lemma_failures_end_at_once(step: InjectionStep)
    requires
        step != InjectionStep::Finished,
    ensures
        transition(step, false).0 == InjectionStep::Finished,
        step == InjectionStep::OpenProcess ==> transition(step, false).1 == (InjectionAction::Exit { failure: InjectionFailure::OpenProcess }),
        step == InjectionStep::AllocateMemory ==> transition(step, false).1 == (InjectionAction::Exit { failure: InjectionFailure::AllocateMemory }),
        step == InjectionStep::ResolveLoadLibrary ==> transition(step, false).1 == (InjectionAction::Exit { failure: InjectionFailure::ResolveLoadLibrary }),
        step == InjectionStep::WritePath ==> transition(step, false).1 == (InjectionAction::Finish {
            report: Some(InjectionFailure::WritePath), close_thread: false, close_process: true, injected: false }),
        step == InjectionStep::StartThread ==> transition(step, false).1 == (InjectionAction::Finish {
            report: Some(InjectionFailure::StartThread), close_thread: false, close_process: true, injected: false }),
        step != InjectionStep::StartThread ==> transition(step, true).0 != InjectionStep::Finished,
        !(transition(step, true).1 is Exit),
{
}

} // verus!
