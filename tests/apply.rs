use ferry::apply::{ApplyAction, ApplyEvent, ApplyMode, ApplySession, Occupant, Removal};
use ferry::error::FerryError;

fn paths(v: &[&str]) -> Vec<String> {
    v.iter().map(|s| s.to_string()).collect()
}

#[test]
fn empty_store_does_nothing() {
    let (_, a) = ApplySession::start(ApplyMode::Copy, false, Vec::new());
    assert!(matches!(a, ApplyAction::NothingSelected));
}

#[test]
fn copy_conflict_without_force_aborts() {
    let (mut s, a) = ApplySession::start(ApplyMode::Copy, false, paths(&["/src/foo.txt"]));
    assert!(matches!(a, ApplyAction::LocateCurrentDir));
    let a = s.step(ApplyEvent::CurrentDir("/work".to_string()));
    assert!(matches!(a, ApplyAction::Inspect { ref dest } if dest == "/work/foo.txt"));
    match s.step(ApplyEvent::Inspected(Occupant::File)) {
        ApplyAction::Abort(FerryError::DestinationExists { path }) => assert_eq!(path, "/work/foo.txt"),
        a => panic!("unexpected {:?}", a),
    }
}

#[test]
fn copy_with_force_overwrites_in_place() {
    let (mut s, _) = ApplySession::start(ApplyMode::Copy, true, paths(&["/src/foo.txt"]));
    s.step(ApplyEvent::CurrentDir("/work".to_string()));
    match s.step(ApplyEvent::Inspected(Occupant::File)) {
        ApplyAction::Transfer { source, dest, removal } => {
            assert_eq!(source, "/src/foo.txt");
            assert_eq!(dest, "/work/foo.txt");
            assert_eq!(removal, Removal::Keep);
        }
        a => panic!("unexpected {:?}", a),
    }
    assert!(matches!(s.step(ApplyEvent::Succeeded), ApplyAction::ClearStore));
    assert!(matches!(s.step(ApplyEvent::Succeeded), ApplyAction::Finished));
}

#[test]
fn move_with_force_replaces_a_directory() {
    let (mut s, _) = ApplySession::start(ApplyMode::Move, true, paths(&["/src/d", "/src/e.txt"]));
    s.step(ApplyEvent::CurrentDir("/work/".to_string()));
    match s.step(ApplyEvent::Inspected(Occupant::Directory)) {
        ApplyAction::Transfer { source, dest, removal } => {
            assert_eq!(source, "/src/d");
            assert_eq!(dest, "/work/d");
            assert_eq!(removal, Removal::RemoveDirectory);
        }
        a => panic!("unexpected {:?}", a),
    }
    // the store is not cleared while an item is left
    assert!(matches!(s.step(ApplyEvent::Succeeded), ApplyAction::Inspect { ref dest } if dest == "/work/e.txt"));
    match s.step(ApplyEvent::Inspected(Occupant::File)) {
        ApplyAction::Transfer { removal, .. } => assert_eq!(removal, Removal::RemoveFile),
        a => panic!("unexpected {:?}", a),
    }
    assert!(matches!(s.step(ApplyEvent::Succeeded), ApplyAction::ClearStore));
    assert!(matches!(s.step(ApplyEvent::Succeeded), ApplyAction::Finished));
}

#[test]
fn failed_transfer_aborts_without_clearing() {
    let (mut s, _) = ApplySession::start(ApplyMode::Move, false, paths(&["/src/a", "/src/b"]));
    s.step(ApplyEvent::CurrentDir("/work".to_string()));
    s.step(ApplyEvent::Inspected(Occupant::Absent));
    match s.step(ApplyEvent::Failed("disk full".to_string())) {
        ApplyAction::Abort(FerryError::Io { message }) => assert_eq!(message, "disk full"),
        a => panic!("unexpected {:?}", a),
    }
}

#[test]
fn source_without_a_name_aborts() {
    let (mut s, _) = ApplySession::start(ApplyMode::Copy, false, paths(&["/"]));
    match s.step(ApplyEvent::CurrentDir("/work".to_string())) {
        ApplyAction::Abort(FerryError::InvalidSource { path }) => assert_eq!(path, "/"),
        a => panic!("unexpected {:?}", a),
    }
}

#[test]
fn missing_working_directory_aborts() {
    let (mut s, _) = ApplySession::start(ApplyMode::Copy, false, paths(&["/a"]));
    assert!(matches!(s.step(ApplyEvent::Failed("gone".to_string())), ApplyAction::Abort(FerryError::Io { .. })));
}
