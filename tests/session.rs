use std::collections::HashMap;
use textwriter::session::{DocumentSession, SessionError, WriteRequest};
use textwriter::style::StyleApplier;

type Disk = HashMap<String, String>;

fn load(s: &mut DocumentSession, disk: &Disk, path: &str) -> Result<(), SessionError> {
    s.load(path.to_string(), disk.get(path).cloned())
}

fn perform(disk: &mut Disk, req: &WriteRequest) -> bool {
    disk.insert(req.path.clone(), req.text.clone());
    true
}

fn save(s: &mut DocumentSession, disk: &mut Disk) -> Result<(), SessionError> {
    let req = s.save()?;
    let written = perform(disk, &req);
    s.finish_save(written)
}

fn save_as(s: &mut DocumentSession, disk: &mut Disk, path: &str) -> Result<(), SessionError> {
    let req = s.save_as(path.to_string());
    let written = perform(disk, &req);
    s.finish_save_as(path.to_string(), written)
}

#[test]
fn load_then_save_writes_back_hello() {
    let mut disk = Disk::new();
    disk.insert("/tmp/a.txt".to_string(), "hello".to_string());
    let mut s = DocumentSession::new();
    assert_eq!(s.backing_path(), None);
    assert_eq!(load(&mut s, &disk, "/tmp/a.txt"), Ok(()));
    assert_eq!(s.content(), "hello");
    assert_eq!(s.backing_path(), Some("/tmp/a.txt"));
    disk.insert("/tmp/a.txt".to_string(), "overwritten".to_string());
    assert_eq!(save(&mut s, &mut disk), Ok(()));
    assert_eq!(disk.get("/tmp/a.txt").map(|t| t.as_str()), Some("hello"));
}

#[test]
fn new_apply_save_as_writes_empty_file() {
    let mut disk = Disk::new();
    let mut s = DocumentSession::new();
    let mut styles = StyleApplier::new();
    s.set_content("draft".to_string());
    s.new_document();
    assert!(styles.apply("Mono 12".to_string()));
    assert_eq!(styles.len(), 1);
    let req = s.save_as("/tmp/b.txt".to_string());
    assert_eq!(req.path, "/tmp/b.txt");
    assert_eq!(req.text, "");
    assert!(perform(&mut disk, &req));
    assert_eq!(s.finish_save_as("/tmp/b.txt".to_string(), true), Ok(()));
    assert_eq!(disk.get("/tmp/b.txt").map(|t| t.as_str()), Some(""));
    assert_eq!(s.backing_path(), Some("/tmp/b.txt"));
}

#[test]
fn load_missing_file_on_fresh_session_fails() {
    let disk = Disk::new();
    let mut s = DocumentSession::new();
    assert_eq!(load(&mut s, &disk, "/nonexistent"), Err(SessionError::ReadFailure));
    assert_eq!(s.content(), "");
    assert_eq!(s.backing_path(), None);
}

#[test]
fn load_missing_file_keeps_bound_state() {
    let mut disk = Disk::new();
    disk.insert("/tmp/a.txt".to_string(), "first".to_string());
    let mut s = DocumentSession::new();
    load(&mut s, &disk, "/tmp/a.txt").unwrap();
    s.set_content("first, edited".to_string());
    assert_eq!(load(&mut s, &disk, "/nonexistent"), Err(SessionError::ReadFailure));
    assert_eq!(s.content(), "first, edited");
    assert_eq!(s.backing_path(), Some("/tmp/a.txt"));
    assert!(s.is_modified());
}

#[test]
fn new_resets_any_state() {
    let mut disk = Disk::new();
    disk.insert("/tmp/c.txt".to_string(), "text".to_string());
    let mut s = DocumentSession::new();
    load(&mut s, &disk, "/tmp/c.txt").unwrap();
    s.set_content("more text".to_string());
    s.new_document();
    assert_eq!(s.content(), "");
    assert_eq!(s.backing_path(), None);
    assert!(!s.is_modified());
    s.new_document();
    assert_eq!(s.content(), "");
    assert_eq!(s.backing_path(), None);
}

#[test]
fn save_unbound_writes_nothing() {
    let mut disk = Disk::new();
    let mut s = DocumentSession::new();
    s.set_content("unsaved".to_string());
    assert!(matches!(s.save(), Err(SessionError::NoBackingPath)));
    assert_eq!(save(&mut s, &mut disk), Err(SessionError::NoBackingPath));
    assert_eq!(s.finish_save(true), Err(SessionError::NoBackingPath));
    assert!(disk.is_empty());
    assert_eq!(s.content(), "unsaved");
    assert_eq!(s.backing_path(), None);
    assert!(s.is_modified());
}

#[test]
fn failed_writes_change_nothing() {
    let mut s = DocumentSession::new();
    s.set_content("x".to_string());
    assert_eq!(s.finish_save_as("/tmp/d.txt".to_string(), false), Err(SessionError::WriteFailure));
    assert_eq!(s.backing_path(), None);
    assert!(s.is_modified());
    assert_eq!(s.finish_save_as("/tmp/d.txt".to_string(), true), Ok(()));
    assert!(!s.is_modified());
    s.set_content("xy".to_string());
    assert_eq!(s.finish_save(false), Err(SessionError::WriteFailure));
    assert_eq!(s.backing_path(), Some("/tmp/d.txt"));
    assert!(s.is_modified());
    assert_eq!(s.finish_save(true), Ok(()));
    assert!(!s.is_modified());
}

#[test]
fn binding_follows_last_successful_change() {
    let mut disk = Disk::new();
    disk.insert("/tmp/e.txt".to_string(), "e".to_string());
    let mut s = DocumentSession::new();
    save_as(&mut s, &mut disk, "/tmp/f.txt").unwrap();
    assert_eq!(s.backing_path(), Some("/tmp/f.txt"));
    let _ = load(&mut s, &disk, "/missing");
    assert_eq!(s.backing_path(), Some("/tmp/f.txt"));
    s.new_document();
    assert_eq!(s.backing_path(), None);
    let _ = s.finish_save_as("/tmp/g.txt".to_string(), false);
    assert_eq!(s.backing_path(), None);
    load(&mut s, &disk, "/tmp/e.txt").unwrap();
    assert_eq!(s.backing_path(), Some("/tmp/e.txt"));
    save_as(&mut s, &mut disk, "/tmp/h.txt").unwrap();
    assert_eq!(s.backing_path(), Some("/tmp/h.txt"));
    assert_eq!(disk.get("/tmp/h.txt").map(|t| t.as_str()), Some("e"));
}

#[test]
fn save_after_load_round_trips_exact_text() {
    let text = "line one\r\nline two\n\ttabbed \u{e9}\n";
    let mut disk = Disk::new();
    disk.insert("/tmp/r.txt".to_string(), text.to_string());
    let mut s = DocumentSession::new();
    load(&mut s, &disk, "/tmp/r.txt").unwrap();
    assert!(!s.is_modified());
    let req = s.save().unwrap();
    assert_eq!(req.path, "/tmp/r.txt");
    assert_eq!(req.text, text);
}
