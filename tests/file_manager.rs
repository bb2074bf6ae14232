use flowy_editor::file_info::{CharacterEncoding, FileError, FileId, LoadOutcome};
use flowy_editor::manager::{FileManager, FileManagerConfig};

fn manager() -> FileManager {
    FileManager::new(FileManagerConfig::new("/data"))
}

fn s(text: &str) -> String {
    text.to_string()
}

#[test]
fn config_places_documents_under_doc() {
    let m = manager();
    assert_eq!(m.make_file_path("abc"), "/data/doc/abc");
}

#[test]
fn open_missing_path_is_empty_and_untracked() {
    let mut m = manager();
    let id = FileId::new("a");
    let r = m.open(&s("/tmp/none.txt"), &id, LoadOutcome::Missing);
    assert_eq!(r.unwrap(), "");
    assert!(m.get_info(&id).is_none());
    assert!(m.get_file_id("/tmp/none.txt").is_none());
}

#[test]
fn open_loaded_registers_both_maps() {
    let mut m = manager();
    let id = FileId::new("a");
    let loaded = LoadOutcome::Loaded {
        text: s("hello"),
        encoding: CharacterEncoding::Utf8WithBom,
        modified_time: 42,
    };
    let r = m.open(&s("/tmp/a.txt"), &id, loaded);
    assert_eq!(r.unwrap(), "hello");
    let info = m.get_info(&id).unwrap();
    assert_eq!(info.path, "/tmp/a.txt");
    assert_eq!(info.encoding, CharacterEncoding::Utf8WithBom);
    assert_eq!(info.modified_time, 42);
    assert!(!info.has_changed);
    assert_eq!(m.get_file_id("/tmp/a.txt").unwrap().0, "a");
}

#[test]
fn open_read_failure_is_returned_and_changes_nothing() {
    let mut m = manager();
    let id = FileId::new("a");
    let failure = FileError::Io(s("denied"), s("/tmp/a.txt"));
    match m.open(&s("/tmp/a.txt"), &id, LoadOutcome::Failed(failure)) {
        Err(FileError::Io(msg, path)) => {
            assert_eq!(msg, "denied");
            assert_eq!(path, "/tmp/a.txt");
        },
        _ => panic!("expected an I/O failure"),
    }
    assert!(m.get_info(&id).is_none());
}

#[test]
fn save_new_then_check_is_clean() {
    let mut m = manager();
    let id = FileId::new("a");
    let path = s("/tmp/a.txt");
    assert_eq!(m.prepare_save(&path, &id).unwrap(), CharacterEncoding::Utf8);
    assert!(m.save(&path, &id, Ok(7)).is_ok());
    assert!(!m.check_file(&id, 7));
    let info = m.get_info(&id).unwrap();
    assert_eq!(info.modified_time, 7);
    assert_eq!(info.encoding, CharacterEncoding::Utf8);
    assert!(!info.has_changed);
}

#[test]
fn check_detects_outside_change_and_stays_dirty() {
    let mut m = manager();
    let id = FileId::new("a");
    let path = s("/tmp/a.txt");
    m.save(&path, &id, Ok(7)).unwrap();
    assert!(m.check_file(&id, 9));
    assert!(m.get_info(&id).unwrap().has_changed);
    assert_eq!(m.get_info(&id).unwrap().modified_time, 7);
    assert!(m.check_file(&id, 7));
}

#[test]
fn check_unknown_identifier_is_false() {
    let mut m = manager();
    assert!(!m.check_file(&FileId::new("nobody"), 3));
    assert!(m.get_info(&FileId::new("nobody")).is_none());
}

#[test]
fn dirty_same_path_save_is_refused() {
    let mut m = manager();
    let id = FileId::new("a");
    let path = s("/tmp/a.txt");
    m.save(&path, &id, Ok(7)).unwrap();
    assert!(m.check_file(&id, 8));
    match m.prepare_save(&path, &id) {
        Err(FileError::HasChanged(p)) => assert_eq!(p, "/tmp/a.txt"),
        _ => panic!("expected a conflict"),
    }
    match m.save(&path, &id, Ok(11)) {
        Err(FileError::HasChanged(p)) => assert_eq!(p, "/tmp/a.txt"),
        _ => panic!("expected a conflict"),
    }
    assert_eq!(m.get_info(&id).unwrap().modified_time, 7);
    assert!(m.get_info(&id).unwrap().has_changed);
}

#[test]
fn clean_same_path_save_keeps_encoding_and_updates_time() {
    let mut m = manager();
    let id = FileId::new("a");
    let path = s("/tmp/a.txt");
    let loaded = LoadOutcome::Loaded {
        text: s("x"),
        encoding: CharacterEncoding::Utf8WithBom,
        modified_time: 1,
    };
    m.open(&path, &id, loaded).unwrap();
    assert_eq!(m.prepare_save(&path, &id).unwrap(), CharacterEncoding::Utf8WithBom);
    m.save(&path, &id, Ok(5)).unwrap();
    let info = m.get_info(&id).unwrap();
    assert_eq!(info.encoding, CharacterEncoding::Utf8WithBom);
    assert_eq!(info.modified_time, 5);
    assert_eq!(info.path, "/tmp/a.txt");
}

#[test]
fn save_as_moves_the_identifier() {
    let mut m = manager();
    let id = FileId::new("a");
    m.save(&s("/tmp/old.txt"), &id, Ok(1)).unwrap();
    assert!(m.check_file(&id, 2));
    assert_eq!(m.prepare_save(&s("/tmp/new.txt"), &id).unwrap(), CharacterEncoding::Utf8);
    m.save(&s("/tmp/new.txt"), &id, Ok(3)).unwrap();
    assert!(m.get_file_id("/tmp/old.txt").is_none());
    assert_eq!(m.get_file_id("/tmp/new.txt").unwrap().0, "a");
    let info = m.get_info(&id).unwrap();
    assert_eq!(info.path, "/tmp/new.txt");
    assert_eq!(info.modified_time, 3);
    assert!(!info.has_changed);
}

#[test]
fn failed_write_changes_nothing() {
    let mut m = manager();
    let id = FileId::new("a");
    match m.save(&s("/tmp/a.txt"), &id, Err(s("disk full"))) {
        Err(FileError::Io(msg, path)) => {
            assert_eq!(msg, "disk full");
            assert_eq!(path, "/tmp/a.txt");
        },
        _ => panic!("expected an I/O failure"),
    }
    assert!(m.get_info(&id).is_none());
    assert!(m.get_file_id("/tmp/a.txt").is_none());
}

#[test]
fn failed_save_as_keeps_old_path() {
    let mut m = manager();
    let id = FileId::new("a");
    m.save(&s("/tmp/old.txt"), &id, Ok(1)).unwrap();
    assert!(m.save(&s("/tmp/new.txt"), &id, Err(s("denied"))).is_err());
    assert_eq!(m.get_file_id("/tmp/old.txt").unwrap().0, "a");
    assert!(m.get_file_id("/tmp/new.txt").is_none());
    assert_eq!(m.get_info(&id).unwrap().path, "/tmp/old.txt");
}

#[test]
fn failed_same_path_write_keeps_time() {
    let mut m = manager();
    let id = FileId::new("a");
    m.save(&s("/tmp/a.txt"), &id, Ok(1)).unwrap();
    assert!(m.save(&s("/tmp/a.txt"), &id, Err(s("denied"))).is_err());
    assert_eq!(m.get_info(&id).unwrap().modified_time, 1);
}

#[test]
fn close_twice_is_same_as_once() {
    let mut m = manager();
    let id = FileId::new("a");
    m.save(&s("/tmp/a.txt"), &id, Ok(1)).unwrap();
    m.close(&id);
    assert!(m.get_info(&id).is_none());
    assert!(m.get_file_id("/tmp/a.txt").is_none());
    m.close(&id);
    assert!(m.get_info(&id).is_none());
    assert!(m.get_file_id("/tmp/a.txt").is_none());
}

#[test]
fn close_unknown_identifier_is_a_no_op() {
    let mut m = manager();
    let id = FileId::new("a");
    m.save(&s("/tmp/a.txt"), &id, Ok(1)).unwrap();
    m.close(&FileId::new("b"));
    assert_eq!(m.get_file_id("/tmp/a.txt").unwrap().0, "a");
}

#[test]
fn reopen_clears_the_change_mark() {
    let mut m = manager();
    let id = FileId::new("a");
    let path = s("/tmp/a.txt");
    m.save(&path, &id, Ok(1)).unwrap();
    assert!(m.check_file(&id, 2));
    let loaded = LoadOutcome::Loaded { text: s("theirs"), encoding: CharacterEncoding::Utf8, modified_time: 2 };
    assert_eq!(m.open(&path, &id, loaded).unwrap(), "theirs");
    assert!(!m.check_file(&id, 2));
    assert!(m.save(&path, &id, Ok(4)).is_ok());
}

#[test]
fn opened_text_is_returned_unchanged() {
    let mut m = manager();
    let id = FileId::new("a");
    let path = s("/tmp/a.txt");
    m.save(&path, &id, Ok(1)).unwrap();
    let loaded = LoadOutcome::Loaded { text: s("line one\nline two"), encoding: CharacterEncoding::Utf8, modified_time: 1 };
    assert_eq!(m.open(&path, &id, loaded).unwrap(), "line one\nline two");
}

#[test]
fn open_at_new_path_drops_former_path() {
    let mut m = manager();
    let id = FileId::new("a");
    m.save(&s("/tmp/q.txt"), &id, Ok(1)).unwrap();
    let loaded = LoadOutcome::Loaded { text: s("t"), encoding: CharacterEncoding::Utf8, modified_time: 2 };
    m.open(&s("/tmp/p.txt"), &id, loaded).unwrap();
    assert!(m.get_file_id("/tmp/q.txt").is_none());
    assert_eq!(m.get_file_id("/tmp/p.txt").unwrap().0, "a");
    assert_eq!(m.get_info(&id).unwrap().path, "/tmp/p.txt");
    m.close(&id);
    assert!(m.get_file_id("/tmp/p.txt").is_none());
    assert!(m.get_file_id("/tmp/q.txt").is_none());
}

#[test]
fn taking_over_a_path_untracks_its_former_owner() {
    let mut m = manager();
    let a = FileId::new("a");
    let b = FileId::new("b");
    m.save(&s("/tmp/p.txt"), &a, Ok(1)).unwrap();
    let loaded = LoadOutcome::Loaded { text: s("t"), encoding: CharacterEncoding::Utf8, modified_time: 2 };
    m.open(&s("/tmp/p.txt"), &b, loaded).unwrap();
    assert!(m.get_info(&a).is_none());
    assert_eq!(m.get_file_id("/tmp/p.txt").unwrap().0, "b");
    m.close(&a);
    assert_eq!(m.get_file_id("/tmp/p.txt").unwrap().0, "b");
}

#[test]
fn saving_onto_another_identifiers_path_takes_it_over() {
    let mut m = manager();
    let a = FileId::new("a");
    let b = FileId::new("b");
    m.save(&s("/tmp/p.txt"), &a, Ok(1)).unwrap();
    m.save(&s("/tmp/q.txt"), &b, Ok(2)).unwrap();
    m.save(&s("/tmp/p.txt"), &b, Ok(3)).unwrap();
    assert!(m.get_info(&a).is_none());
    assert!(m.get_file_id("/tmp/q.txt").is_none());
    assert_eq!(m.get_file_id("/tmp/p.txt").unwrap().0, "b");
    assert_eq!(m.get_info(&b).unwrap().path, "/tmp/p.txt");
}
