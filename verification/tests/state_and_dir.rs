use mas_installer::dircheck::is_valid_ddlc_listing;
use mas_installer::dircheck::DirEntryInfo;
use mas_installer::state::SharedState;

fn entry(name: &str, is_dir: bool) -> DirEntryInfo {
    DirEntryInfo { name: name.to_string(), is_dir }
}

#[test]
fn a_complete_listing_is_valid() {
    let entries = vec![
        entry("characters", true),
        entry("game", true),
        entry("renpy", true),
        entry("DDLC.py", false),
        entry("DDLC.sh", false),
    ];
    assert!(is_valid_ddlc_listing(&entries));
}

#[test]
fn extra_entries_do_not_hurt() {
    let entries = vec![
        entry("savegames", true),
        entry("characters", true),
        entry("game", true),
        entry("renpy", true),
        entry("README.md", false),
        entry("DDLC.py", false),
        entry("DDLC.sh", false),
    ];
    assert!(is_valid_ddlc_listing(&entries));
}

#[test]
fn a_missing_entry_makes_the_listing_invalid() {
    let entries = vec![
        entry("characters", true),
        entry("game", true),
        entry("renpy", true),
        entry("DDLC.py", false),
    ];
    assert!(!is_valid_ddlc_listing(&entries));
}

#[test]
fn the_kind_of_each_entry_matters() {
    // the five names are present, but "game" is a file, not a directory
    let entries = vec![
        entry("characters", true),
        entry("game", false),
        entry("renpy", true),
        entry("DDLC.py", false),
        entry("DDLC.sh", false),
    ];
    assert!(!is_valid_ddlc_listing(&entries));
}

#[test]
fn an_empty_listing_is_invalid() {
    let entries: Vec<DirEntryInfo> = Vec::new();
    assert!(!is_valid_ddlc_listing(&entries));
}

#[test]
fn shared_state_starts_unaborted_and_remembers_choices() {
    let mut s = SharedState::new("/tmp/target".to_string());
    assert!(!s.get_abort_flag());
    assert!(s.get_deluxe_ver_flag());
    assert!(s.get_install_spr_flag());
    assert_eq!(s.get_extraction_dir(), "/tmp/target");

    s.set_deluxe_ver_flag(false);
    s.set_install_spr_flag(false);
    s.set_extraction_dir("/opt/game".to_string());
    assert!(!s.get_deluxe_ver_flag());
    assert!(!s.get_install_spr_flag());
    assert_eq!(s.get_extraction_dir(), "/opt/game");

    s.set_abort_flag(true);
    assert!(s.get_abort_flag());
}
