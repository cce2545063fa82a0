use auto_tas::injection::{dll_path, Injection, InjectionAction, InjectionFailure, InjectionStep};

fn run(pid: u32, oks: &[bool]) -> Vec<InjectionAction> {
    let (mut inj, first) = Injection::start(pid);
    let mut actions = vec![first];
    for &ok in oks {
        if inj.is_finished() {
            break;
        }
        actions.push(inj.advance(ok));
    }
    actions
}

#[test]
fn all_calls_succeed() {
    let actions = run(42, &[true, true, true, true, true]);
    assert_eq!(
        actions,
        vec![
            InjectionAction::OpenProcess { pid: 42 },
            InjectionAction::AllocateMemory { size: 13 },
            InjectionAction::WritePath { size: 13 },
            InjectionAction::ResolveLoadLibrary,
            InjectionAction::StartThread,
            InjectionAction::Finish { report: None, close_thread: true, close_process: true, injected: true },
        ]
    );
    assert_eq!(dll_path(), "C:\\atdll.dll");
    assert_eq!(dll_path().len() + 1, 13);
}

#[test]
fn failed_open_ends_program() {
    let actions = run(1, &[false, true, true]);
    assert_eq!(actions.last(), Some(&InjectionAction::Exit { failure: InjectionFailure::OpenProcess }));
    assert_eq!(actions.len(), 2);
}

#[test]
fn failed_allocation_ends_program() {
    let actions = run(1, &[true, false]);
    assert_eq!(actions.last(), Some(&InjectionAction::Exit { failure: InjectionFailure::AllocateMemory }));
}

#[test]
fn failed_write_closes_process_and_returns_false() {
    let actions = run(1, &[true, true, false]);
    assert_eq!(
        actions.last(),
        Some(&InjectionAction::Finish {
            report: Some(InjectionFailure::WritePath),
            close_thread: false,
            close_process: true,
            injected: false
        })
    );
}

#[test]
fn failed_lookup_ends_program() {
    let actions = run(1, &[true, true, true, false]);
    assert_eq!(actions.last(), Some(&InjectionAction::Exit { failure: InjectionFailure::ResolveLoadLibrary }));
}

#[test]
fn failed_thread_closes_process_and_returns_false() {
    let actions = run(1, &[true, true, true, true, false]);
    assert_eq!(
        actions.last(),
        Some(&InjectionAction::Finish {
            report: Some(InjectionFailure::StartThread),
            close_thread: false,
            close_process: true,
            injected: false
        })
    );
}

#[test]
fn every_outcome_ends_within_five_calls() {
    for mask in 0u32..32 {
        let oks: Vec<bool> = (0..5).map(|i| mask & (1 << i) != 0).collect();
        let (mut inj, _) = Injection::start(3);
        let mut last = None;
        for &ok in &oks {
            if inj.is_finished() {
                break;
            }
            last = Some(inj.advance(ok));
        }
        assert!(inj.is_finished());
        assert_eq!(inj.step, InjectionStep::Finished);
        let injected = matches!(last, Some(InjectionAction::Finish { injected: true, .. }));
        assert_eq!(injected, mask == 31);
        if let Some(InjectionAction::Finish { close_process, close_thread, injected, report }) = last {
            assert!(close_process);
            assert_eq!(close_thread, injected);
            assert_eq!(report.is_none(), injected);
        }
    }
}

#[test]
fn failure_messages() {
    assert_eq!(InjectionFailure::OpenProcess.message(), "Failed to open target process.");
    assert_eq!(InjectionFailure::AllocateMemory.message(), "Failed to allocate memory in target process.");
    assert_eq!(InjectionFailure::WritePath.message(), "Failed to write DLL path into target process memory.");
    assert_eq!(InjectionFailure::ResolveLoadLibrary.message(), "Failed to get address of LoadLibraryA.");
    assert_eq!(InjectionFailure::StartThread.message(), "Failed to create remote thread in target process.");
}
