use auto_tas::processes::{
    collect_steam_processes, enumerate_active_processes, is_steam_game, is_still_active, ExitQuery,
    ProcessEntry, ProcessEnumerationError, ProcessScan, STILL_ACTIVE,
};
use auto_tas::text::{char_vec, contains, ends_with, push_decimal};

fn entry(pid: u32, path: Option<&str>) -> ProcessEntry {
    ProcessEntry { pid, path: path.map(|p| p.to_string()) }
}

#[test]
fn steam_game_paths_are_recognised() {
    assert!(is_steam_game("C:\\Program Files (x86)\\Steam\\steamapps\\common\\Game\\game.exe"));
    assert!(is_steam_game("D:\\Steam\\steamapps\\x.exe"));
    assert!(!is_steam_game("C:\\Windows\\System32\\notepad.exe"));
    assert!(!is_steam_game("C:\\Steam\\steamapps\\common\\readme.txt"));
    assert!(!is_steam_game("C:\\Steam\\steamapps\\common\\game.EXE"));
    assert!(!is_steam_game("C:\\steam\\steamapps\\game.exe"));
    assert!(!is_steam_game(""));
    assert!(!is_steam_game(".ex"));
}

#[test]
fn suffix_and_infix_edges() {
    let s = char_vec("abc.exe");
    assert!(ends_with(&s, &char_vec(".exe")));
    assert!(ends_with(&s, &char_vec("")));
    assert!(!ends_with(&char_vec("exe"), &char_vec(".exe")));
    assert!(contains(&s, &char_vec("c.e")));
    assert!(contains(&s, &char_vec("")));
    assert!(!contains(&s, &char_vec("exe.")));
    assert!(contains(&s, &char_vec("abc.exe")));
    assert!(!contains(&char_vec("ab"), &char_vec("abc")));
}

#[test]
fn only_steam_games_are_collected_in_order() {
    let entries = vec![
        entry(4, None),
        entry(10, Some("C:\\Steam\\steamapps\\common\\a\\a.exe")),
        entry(11, Some("C:\\Windows\\explorer.exe")),
        entry(12, None),
        entry(13, Some("E:\\Steam\\steamapps\\common\\b\\b.exe")),
    ];
    let found = collect_steam_processes(&entries);
    assert_eq!(
        found,
        vec![
            ("C:\\Steam\\steamapps\\common\\a\\a.exe".to_string(), 10),
            ("E:\\Steam\\steamapps\\common\\b\\b.exe".to_string(), 13),
        ]
    );
    assert!(collect_steam_processes(&Vec::new()).is_empty());
}

#[test]
fn selection_of_joined_lists_is_joined_selection() {
    let a = vec![entry(1, Some("C:\\Steam\\steamapps\\a.exe")), entry(2, Some("x.exe"))];
    let b = vec![entry(3, None), entry(5, Some("C:\\Steam\\steamapps\\b.exe"))];
    let mut ab = vec![entry(1, Some("C:\\Steam\\steamapps\\a.exe")), entry(2, Some("x.exe"))];
    ab.push(entry(3, None));
    ab.push(entry(5, Some("C:\\Steam\\steamapps\\b.exe")));
    let mut joined = collect_steam_processes(&a);
    joined.extend(collect_steam_processes(&b));
    assert_eq!(collect_steam_processes(&ab), joined);
}

#[test]
fn scan_failures_become_errors() {
    assert_eq!(
        enumerate_active_processes(&ProcessScan::SnapshotFailed(5)),
        Err(ProcessEnumerationError::SnapshotFailed(5))
    );
    assert_eq!(
        enumerate_active_processes(&ProcessScan::FirstProcessFailed(18)),
        Err(ProcessEnumerationError::FirstProcessFailed(18))
    );
    let listed = ProcessScan::Listed(vec![entry(7, Some("C:\\Steam\\steamapps\\g.exe"))]);
    assert_eq!(
        enumerate_active_processes(&listed),
        Ok(vec![("C:\\Steam\\steamapps\\g.exe".to_string(), 7)])
    );
}

#[test]
fn error_messages() {
    assert_eq!(
        ProcessEnumerationError::SnapshotFailed(5).message(),
        "Failed to create snapshot. Error code: 5"
    );
    assert_eq!(
        ProcessEnumerationError::FirstProcessFailed(0).message(),
        "Failed to get first process. Error code: 0"
    );
    assert_eq!(
        ProcessEnumerationError::FirstProcessFailed(4294967295).message(),
        "Failed to get first process. Error code: 4294967295"
    );
    assert_eq!(
        ProcessEnumerationError::SnapshotFailed(1450).report(),
        "Error enumerating active_processes: Failed to create snapshot. Error code: 1450"
    );
}

#[test]
fn decimal_notation() {
    for n in [0u32, 7, 10, 99, 100, 65535, 1234567890, u32::MAX] {
        let mut s = String::from("x");
        push_decimal(&mut s, n);
        assert_eq!(s, format!("x{}", n));
    }
}

#[test]
fn still_active_only_for_pending_exit_code() {
    assert_eq!(STILL_ACTIVE, 259);
    assert!(is_still_active(&ExitQuery::ExitCode(259)));
    assert!(!is_still_active(&ExitQuery::ExitCode(0)));
    assert!(!is_still_active(&ExitQuery::ExitCode(1)));
    assert!(!is_still_active(&ExitQuery::OpenFailed));
    assert!(!is_still_active(&ExitQuery::QueryFailed));
}
