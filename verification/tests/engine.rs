use rename_files::codec::decode;
use rename_files::codec::NativePath;
use rename_files::engine::RenameEngine;
use rename_files::engine::Step;

fn path(s: &[u8]) -> NativePath {
    decode(s.to_vec())
}

#[test]
fn scenario_rename_foo_to_bar() {
    let targets = vec![path(b"foo.txt")];
    let mut e = RenameEngine::new("foo", "bar", targets).unwrap();
    match e.next_action() {
        Step::Rename { source, dest } => {
            assert_eq!(source.bytes, b"foo.txt".to_vec());
            assert_eq!(dest.bytes, b"bar.txt".to_vec());
        },
        _ => panic!("expected a rename"),
    }
    e.record_success();
    assert!(matches!(e.next_action(), Step::Done));
}

#[test]
fn halt_on_failure_skips_remaining_targets() {
    // renaming the second target fails: the first is done, the third is
    // never attempted
    let targets = vec![path(b"a1"), path(b"b1"), path(b"c1")];
    let mut e = RenameEngine::new("1", "2", targets).unwrap();
    match e.next_action() {
        Step::Rename { source, dest } => {
            assert_eq!(source.bytes, b"a1".to_vec());
            assert_eq!(dest.bytes, b"a2".to_vec());
        },
        _ => panic!("expected a rename of the first target"),
    }
    e.record_success();
    match e.next_action() {
        Step::Rename { source, dest } => {
            assert_eq!(source.bytes, b"b1".to_vec());
            assert_eq!(dest.bytes, b"b2".to_vec());
        },
        _ => panic!("expected a rename of the second target"),
    }
    let d = e.record_failure("permission denied");
    assert_eq!(d, "b1 (1 → 2): permission denied");
    assert!(matches!(e.next_action(), Step::Halted));
    assert!(matches!(e.next_action(), Step::Halted));
}

#[test]
fn scenario_two_files_one_destination() {
    // ".*" maps both names to "same.txt": the first rename succeeds, the
    // second collides with the file the first created and fails
    let targets = vec![path(b"a.txt"), path(b"b.txt")];
    let mut e = RenameEngine::new(".*", "same.txt", targets).unwrap();
    match e.next_action() {
        Step::Rename { source, dest } => {
            assert_eq!(source.bytes, b"a.txt".to_vec());
            assert_eq!(dest.bytes, b"same.txt".to_vec());
        },
        _ => panic!("expected a rename of the first target"),
    }
    e.record_success();
    match e.next_action() {
        Step::Rename { source, dest } => {
            assert_eq!(source.bytes, b"b.txt".to_vec());
            assert_eq!(dest.bytes, b"same.txt".to_vec());
        },
        _ => panic!("expected a rename of the second target"),
    }
    let d = e.record_failure("File exists (os error 17)");
    assert_eq!(d, "b.txt (.* → same.txt): File exists (os error 17)");
    assert!(matches!(e.next_action(), Step::Halted));
}

#[test]
fn no_match_becomes_a_skip_not_a_collision() {
    let targets = vec![path(b"a.txt")];
    let mut e = RenameEngine::new("zzz", "yyy", targets).unwrap();
    match e.next_action() {
        Step::SkipSelf { source } => assert_eq!(source.bytes, b"a.txt".to_vec()),
        _ => panic!("expected a skip: the pattern does not occur in the name"),
    }
    e.record_success();
    assert!(matches!(e.next_action(), Step::Done));
}

#[test]
fn identity_substitution_becomes_a_skip() {
    // the pattern matches, but the substituted name equals the source name
    let targets = vec![path(b"a.txt")];
    let mut e = RenameEngine::new("a", "a", targets).unwrap();
    assert!(matches!(e.next_action(), Step::SkipSelf { .. }));
}

#[test]
fn bad_pattern_reports_error() {
    let r = RenameEngine::new("(", "x", vec![path(b"a")]);
    match r {
        Ok(_) => panic!("an unbalanced group must not compile"),
        Err(err) => assert!(!err.message.is_empty()),
    }
}

#[test]
fn non_text_bytes_through_engine() {
    let name = vec![0xff_u8, b'-', b'x'];
    let targets = vec![decode(name.clone())];
    let mut e = RenameEngine::new("x", "y", targets).unwrap();
    match e.next_action() {
        Step::Rename { source, dest } => {
            assert_eq!(source.bytes, name);
            assert_eq!(dest.bytes, vec![0xff_u8, b'-', b'y']);
        },
        _ => panic!("expected a rename"),
    }
}

#[test]
fn empty_target_list_is_done_at_once() {
    let e = RenameEngine::new("a", "b", Vec::new()).unwrap();
    assert!(matches!(e.next_action(), Step::Done));
}
