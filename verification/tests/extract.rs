use mas_installer::errors::ExtractionError;
use mas_installer::events::Fraction;
use mas_installer::extract::check_entry_path;
use mas_installer::extract::plan_entry;
use mas_installer::extract::simulate_extraction_progress;
use mas_installer::extract::start_extraction;
use mas_installer::extract::EntryAction;

#[test]
fn parent_traversal_is_rejected() {
    assert!(!check_entry_path(b"../../evil.txt"));
    assert!(!check_entry_path(b".."));
    assert!(!check_entry_path(b"../a"));
    assert!(!check_entry_path(b"a/.."));
    assert!(!check_entry_path(b"a/../b"));
    assert!(!check_entry_path(b"game/../../../etc/passwd"));
}

#[test]
fn windows_form_parent_traversal_is_rejected() {
    assert!(!check_entry_path(b"..\\x"));
    assert!(!check_entry_path(b"..\\evil.txt"));
    assert!(!check_entry_path(b"a\\..\\b"));
    assert!(!check_entry_path(b"a\\.."));
    assert!(!check_entry_path(b"../..\\mixed"));
}

#[test]
fn absolute_paths_are_rejected() {
    assert!(!check_entry_path(b"/etc/passwd"));
    assert!(!check_entry_path(b"/"));
    assert!(!check_entry_path(b"\\abs"));
    assert!(!check_entry_path(b"\\"));
    assert!(!check_entry_path(b"C:\\evil.txt"));
    assert!(!check_entry_path(b"c:/evil.txt"));
    assert!(!check_entry_path(b"C:relative.txt"));
}

#[test]
fn ordinary_relative_paths_are_accepted() {
    assert!(check_entry_path(b"a/b.txt"));
    assert!(check_entry_path(b"game/scripts/chapter1.rpy"));
    assert!(check_entry_path(b"characters/"));
    assert!(check_entry_path(b""));
    // two dots that are not a whole component are just a name
    assert!(check_entry_path(b"..hidden"));
    assert!(check_entry_path(b"a..b"));
    assert!(check_entry_path(b"notes.."));
    assert!(check_entry_path(b"a/..b/c"));
    assert!(check_entry_path(b"game\\script.rpy"));
}

#[test]
fn windows_form_unsafe_entry_plans_no_action() {
    let r = plan_entry(b"..\\evil.txt", false);
    assert_eq!(
        r,
        Err(ExtractionError::UnsafeFilepath(b"..\\evil.txt".to_vec()))
    );
}

#[test]
fn unsafe_entry_plans_no_action_and_names_the_path() {
    let r = plan_entry(b"../../evil.txt", false);
    assert_eq!(
        r,
        Err(ExtractionError::UnsafeFilepath(b"../../evil.txt".to_vec()))
    );
}

#[test]
fn safe_entries_plan_the_right_action() {
    assert_eq!(plan_entry(b"game/", true), Ok(EntryAction::MakeDir));
    assert_eq!(plan_entry(b"game/script.rpy", false), Ok(EntryAction::WriteFile));
}

#[test]
fn extraction_progress_is_the_exact_sequence() {
    let fs = simulate_extraction_progress(4);
    assert_eq!(
        fs,
        vec![
            Fraction { num: 1, den: 4 },
            Fraction { num: 2, den: 4 },
            Fraction { num: 3, den: 4 },
            Fraction { num: 4, den: 4 },
        ]
    );
}

#[test]
fn abort_before_extraction_returns_success_with_no_work() {
    assert_eq!(start_extraction(true, Some(3)), Ok(None));
    assert_eq!(start_extraction(true, None), Ok(None));
}

#[test]
fn unreadable_archive_index_is_corrupt() {
    assert_eq!(start_extraction(false, None), Err(ExtractionError::CorruptArchive));
}

#[test]
fn readable_archive_opens_a_counter() {
    let p = start_extraction(false, Some(7)).unwrap().unwrap();
    assert_eq!(p.total_entries, 7);
    assert_eq!(p.index, 0);
    assert!(!p.is_done());
}
