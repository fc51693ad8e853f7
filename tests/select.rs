use ferry::config::Config;
use ferry::error::FerryError;
use ferry::select::{conclude_selection, handle_select_command, SelectOutcome, SelectionMode};

fn items(v: &[&str]) -> Vec<String> {
    v.iter().map(|s| s.to_string()).collect()
}

#[test]
fn items_with_interactive_are_refused() {
    let r = handle_select_command(items(&["a"]), None, true, None, false, false);
    let e = r.unwrap_err();
    assert!(matches!(e, FerryError::ItemsWithInteractive));
    assert!(e.is_validation());
}

#[test]
fn items_with_regex_are_refused() {
    let r = handle_select_command(items(&["a"]), Some("x".into()), false, None, true, false);
    let e = r.unwrap_err();
    assert!(matches!(e, FerryError::ItemsWithRegex));
    assert!(e.is_validation());
}

#[test]
fn start_path_must_be_a_directory() {
    let r = handle_select_command(Vec::new(), Some("x".into()), false, Some("nope".into()), false, false);
    match r.unwrap_err() {
        FerryError::NotADirectory { path } => assert_eq!(path, "nope"),
        e => panic!("unexpected {:?}", e),
    }
}

#[test]
fn start_path_needs_a_mode() {
    let r = handle_select_command(items(&["a"]), None, false, Some("d".into()), false, true);
    assert!(matches!(r.unwrap_err(), FerryError::PathWithoutMode));
}

#[test]
fn interactive_uses_the_given_start() {
    let plan = handle_select_command(Vec::new(), None, true, Some("d".into()), true, true).unwrap();
    assert!(plan.dry_run);
    match plan.mode {
        SelectionMode::Interactive { start } => assert_eq!(start, "d"),
        m => panic!("unexpected {:?}", m),
    }
}

#[test]
fn regex_defaults_to_current_directory() {
    let plan = handle_select_command(Vec::new(), Some("\\.pdf$".into()), false, None, false, false).unwrap();
    match plan.mode {
        SelectionMode::Regex { start, pattern } => {
            assert_eq!(start, ".");
            assert_eq!(pattern, "\\.pdf$");
        }
        m => panic!("unexpected {:?}", m),
    }
}

#[test]
fn no_arguments_fall_back_to_the_picker() {
    let plan = handle_select_command(Vec::new(), None, false, None, false, false).unwrap();
    assert!(matches!(plan.mode, SelectionMode::Interactive { ref start } if start == "."));
}

#[test]
fn literal_items_keep_their_order() {
    let plan = handle_select_command(items(&["b", "a", "b"]), None, false, None, false, false).unwrap();
    match plan.mode {
        SelectionMode::Literal { items: named } => assert_eq!(named, vec!["b", "a", "b"]),
        m => panic!("unexpected {:?}", m),
    }
}

#[test]
fn dry_run_never_saves() {
    let sel = items(&["/a", "/b"]);
    assert!(matches!(conclude_selection(sel.clone(), true), SelectOutcome::DryRun(ref s) if *s == sel));
    assert!(matches!(conclude_selection(Vec::new(), true), SelectOutcome::NothingFound));
}

#[test]
fn selection_is_saved_without_dry_run() {
    let sel = items(&["/a"]);
    assert!(matches!(conclude_selection(sel.clone(), false), SelectOutcome::Save(ref s) if *s == sel));
    assert!(matches!(conclude_selection(Vec::new(), false), SelectOutcome::NothingFound));
}

#[test]
fn config_decides_what_is_shown() {
    let quiet = Config::new(true, false);
    assert!(!quiet.shows_normal() && !quiet.shows_warnings() && !quiet.shows_verbose());
    let loud = Config::new(false, true);
    assert!(loud.shows_normal() && loud.shows_warnings() && loud.shows_verbose());
}
