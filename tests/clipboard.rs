use std::collections::HashMap;
use yank::clipboard::{commit, mark, EntryKind, MoveOp, PendingOperation, StoreError, Transfer, YankError};
use yank::path::{absolute, file_name};

fn b(s: &str) -> Vec<u8> {
    s.as_bytes().to_vec()
}

/// An in-memory filesystem: files by absolute path, and directories.
struct Fs {
    files: HashMap<Vec<u8>, Vec<u8>>,
    dirs: Vec<Vec<u8>>,
}

impl Fs {
    fn new() -> Fs {
        Fs { files: HashMap::new(), dirs: Vec::new() }
    }

    fn kind(&self, p: &[u8]) -> EntryKind {
        if self.files.contains_key(p) {
            EntryKind::File
        } else if self.dirs.iter().any(|d| d.as_slice() == p) {
            EntryKind::Directory
        } else {
            EntryKind::Missing
        }
    }

    fn present(&self, p: &[u8]) -> bool {
        self.kind(p) != EntryKind::Missing
    }

    fn perform(&mut self, t: &Transfer) {
        let content = self.files[&t.from].clone();
        if t.moveop == MoveOp::Move {
            self.files.remove(&t.from);
        }
        self.files.insert(t.to.clone(), content);
    }
}

fn mark_in(fs: &Fs, file: &str, cut: bool, cwd: &str) -> Result<PendingOperation, YankError> {
    let abs = absolute(&b(cwd), &b(file)).unwrap_or_default();
    mark(&b(file), cut, &b(cwd), fs.kind(&abs))
}

fn commit_in(fs: &Fs, rec: &PendingOperation, paste: Option<&str>, cwd: &str) -> Result<Transfer, YankError> {
    let exists = fs.present(&rec.object_path);
    commit(Ok(rec.clone()), paste.map(b), &b(cwd), exists)
}

fn sample_fs() -> Fs {
    let mut fs = Fs::new();
    fs.files.insert(b("/home/u/docs/a.txt"), b("hello"));
    fs.dirs.push(b("/home/u/docs"));
    fs.dirs.push(b("/home/u/work"));
    fs
}

#[test]
fn copy_round_trip() {
    let mut fs = sample_fs();
    let rec = mark_in(&fs, "docs/a.txt", false, "/home/u").unwrap();
    assert_eq!(rec.moveop, MoveOp::Copy);
    assert_eq!(rec.object_path, b("/home/u/docs/a.txt"));
    let t = commit_in(&fs, &rec, None, "/home/u/work").unwrap();
    assert_eq!(t.to, b("/home/u/work/a.txt"));
    fs.perform(&t);
    assert_eq!(fs.files[&b("/home/u/work/a.txt")], b("hello"));
    assert_eq!(fs.files[&b("/home/u/docs/a.txt")], b("hello"));
}

#[test]
fn move_round_trip() {
    let mut fs = sample_fs();
    let rec = mark_in(&fs, "/home/u/docs/a.txt", true, "/tmp").unwrap();
    assert_eq!(rec.moveop, MoveOp::Move);
    let t = commit_in(&fs, &rec, None, "/home/u/work").unwrap();
    assert_eq!(t.moveop, MoveOp::Move);
    fs.perform(&t);
    assert_eq!(fs.files[&b("/home/u/work/a.txt")], b("hello"));
    assert!(!fs.files.contains_key(&b("/home/u/docs/a.txt")));
    assert_eq!(commit_in(&fs, &rec, None, "/home/u/work").unwrap_err(), YankError::SourceNotFound);
}

#[test]
fn repeat_paste_overwrites_with_same_content() {
    let mut fs = sample_fs();
    let rec = mark_in(&fs, "docs/a.txt", false, "/home/u").unwrap();
    let first = commit_in(&fs, &rec, None, "/home/u/work").unwrap();
    fs.perform(&first);
    fs.files.insert(b("/home/u/work/a.txt"), b("edited"));
    let second = commit_in(&fs, &rec, None, "/home/u/work").unwrap();
    assert_eq!(second.from, first.from);
    assert_eq!(second.to, first.to);
    fs.perform(&second);
    assert_eq!(fs.files[&b("/home/u/work/a.txt")], b("hello"));
    assert_eq!(fs.files.len(), 2);
}

#[test]
fn empty_store_commit() {
    let r = commit(Err(StoreError::Empty), None, &b("/home/u"), true);
    assert_eq!(r.unwrap_err(), YankError::NoSourceSpecified);
    let r = commit(Err(StoreError::Empty), Some(b("x")), &b("/home/u"), false);
    assert_eq!(r.unwrap_err(), YankError::NoSourceSpecified);
}

#[test]
fn unreadable_store_commit() {
    let r = commit(Err(StoreError::Corrupt), None, &b("/home/u"), true);
    assert_eq!(r.unwrap_err(), YankError::StoreAccessFailure);
    let r = commit(Err(StoreError::Io), None, &b("/home/u"), true);
    assert_eq!(r.unwrap_err(), YankError::StoreAccessFailure);
}

#[test]
fn deleted_source_commit() {
    let mut fs = sample_fs();
    let rec = mark_in(&fs, "docs/a.txt", false, "/home/u").unwrap();
    fs.files.remove(&b("/home/u/docs/a.txt"));
    assert_eq!(commit_in(&fs, &rec, None, "/home/u").unwrap_err(), YankError::SourceNotFound);
    assert_eq!(commit_in(&fs, &rec, Some("b.txt"), "/home/u").unwrap_err(), YankError::SourceNotFound);
}

#[test]
fn explicit_destination() {
    let mut fs = sample_fs();
    let rec = mark_in(&fs, "docs/a.txt", false, "/home/u").unwrap();
    let t = commit_in(&fs, &rec, Some("work/b.bin"), "/home/u").unwrap();
    assert_eq!(t.to, b("/home/u/work/b.bin"));
    fs.perform(&t);
    assert_eq!(fs.files[&b("/home/u/work/b.bin")], b("hello"));
    assert!(!fs.files.contains_key(&b("/home/u/work/a.txt")));
    let t = commit_in(&fs, &rec, Some("/srv/c"), "/home/u").unwrap();
    assert_eq!(t.to, b("/srv/c"));
}

#[test]
fn directory_mark_is_refused() {
    let fs = sample_fs();
    assert_eq!(mark_in(&fs, "docs", false, "/home/u").unwrap_err(), YankError::UnsupportedEntryKind);
    assert_eq!(mark_in(&fs, "/home/u/work", true, "/").unwrap_err(), YankError::UnsupportedEntryKind);
}

#[test]
fn special_entry_mark_is_refused() {
    let r = mark(&b("/dev/null"), false, &b("/"), EntryKind::Other);
    assert_eq!(r.unwrap_err(), YankError::UnsupportedEntryKind);
}

#[test]
fn missing_mark_target() {
    let fs = sample_fs();
    assert_eq!(mark_in(&fs, "nope.txt", false, "/home/u").unwrap_err(), YankError::SourceNotFound);
    let r = mark(&b(""), false, &b("/home/u"), EntryKind::File);
    assert_eq!(r.unwrap_err(), YankError::SourceNotFound);
}

#[test]
fn remark_overwrites_mode_and_path() {
    let mut fs = sample_fs();
    fs.files.insert(b("/home/u/b.txt"), b("bee"));
    let first = mark_in(&fs, "docs/a.txt", false, "/home/u").unwrap();
    let second = mark_in(&fs, "b.txt", true, "/home/u").unwrap();
    assert_ne!(first.object_path, second.object_path);
    assert_eq!(second.object_path, b("/home/u/b.txt"));
    assert_eq!(second.moveop, MoveOp::Move);
}

#[test]
fn invalid_destination() {
    let rec = PendingOperation { moveop: MoveOp::Copy, object_path: b("/home/u/..") };
    let r = commit(Ok(rec.clone()), None, &b("/home/u"), true);
    assert_eq!(r.unwrap_err(), YankError::DestinationPathInvalid);
    let rec = PendingOperation { moveop: MoveOp::Copy, object_path: b("/home/u/a") };
    let r = commit(Ok(rec), Some(b("")), &b("/home/u"), true);
    assert_eq!(r.unwrap_err(), YankError::DestinationPathInvalid);
    let root = PendingOperation { moveop: MoveOp::Copy, object_path: b("/") };
    assert_eq!(commit(Ok(root), None, &b("/"), true).unwrap_err(), YankError::DestinationPathInvalid);
}

#[test]
fn destination_checked_before_source() {
    let rec = PendingOperation { moveop: MoveOp::Move, object_path: b("/x/..") };
    let r = commit(Ok(rec), None, &b("/home/u"), false);
    assert_eq!(r.unwrap_err(), YankError::DestinationPathInvalid);
}

#[test]
fn file_name_cases() {
    assert_eq!(file_name(&b("/home/u/a.txt")), Some(b("a.txt")));
    assert_eq!(file_name(&b("a.txt")), Some(b("a.txt")));
    assert_eq!(file_name(&b("/home/u/dir/")), Some(b("dir")));
    assert_eq!(file_name(&b("/home/u/dir//.")), Some(b("dir")));
    assert_eq!(file_name(&b("/home/./u")), Some(b("u")));
    assert_eq!(file_name(&b("..a")), Some(b("..a")));
    assert_eq!(file_name(&b("/home/u/..")), None);
    assert_eq!(file_name(&b("/")), None);
    assert_eq!(file_name(&b(".")), None);
    assert_eq!(file_name(&b("")), None);
}

#[test]
fn absolute_cases() {
    assert_eq!(absolute(&b("/home/u"), &b("a.txt")), Some(b("/home/u/a.txt")));
    assert_eq!(absolute(&b("/home/u/"), &b("a.txt")), Some(b("/home/u/a.txt")));
    assert_eq!(absolute(&b("/"), &b("a.txt")), Some(b("/a.txt")));
    assert_eq!(absolute(&b("/home/u"), &b("/etc/x")), Some(b("/etc/x")));
    assert_eq!(absolute(&b("/home/u"), &b("")), None);
}

#[test]
fn default_destination_in_root_cwd() {
    let rec = PendingOperation { moveop: MoveOp::Copy, object_path: b("/home/u/a.txt") };
    let t = commit(Ok(rec), None, &b("/"), true).unwrap();
    assert_eq!(t.to, b("/a.txt"));
    assert_eq!(t.from, b("/home/u/a.txt"));
}
