//! Behavior of `FileBackedValue` driven through in-memory backing stores:
//! each test hands the accessors closures that read or write a shared
//! `Option<String>` standing for the backing file's content.

use std::cell::Cell;
use std::cell::RefCell;
use std::collections::BTreeMap;
use std::path::PathBuf;
use std::rc::Rc;
use std::time::Duration;

use file_backed_value::file_needs_recomputation;
use file_backed_value::FileBackedValue;
use file_backed_value::FileBackedValueError;

type Store = Rc<RefCell<Option<String>>>;

fn reader(store: &Store) -> impl FnOnce(PathBuf) -> Result<String, std::io::Error> {
    let store = Rc::clone(store);
    move |_p: PathBuf| -> Result<String, std::io::Error> {
        match store.borrow().as_ref() {
            Some(text) => Ok(text.clone()),
            None => Err(std::io::Error::from(std::io::ErrorKind::NotFound)),
        }
    }
}

fn writer(store: &Store) -> impl FnOnce(PathBuf, String) -> Result<(), std::io::Error> {
    let store = Rc::clone(store);
    move |_p: PathBuf, text: String| -> Result<(), std::io::Error> {
        *store.borrow_mut() = Some(text);
        Ok(())
    }
}

/// A create-exclusive writer, as a real file-system driver that opens the
/// file with `create_new` behaves: it refuses to overwrite existing content.
fn exclusive_writer(store: &Store) -> impl FnOnce(PathBuf, String) -> Result<(), std::io::Error> {
    let store = Rc::clone(store);
    move |_p: PathBuf, text: String| -> Result<(), std::io::Error> {
        let mut slot = store.borrow_mut();
        if slot.is_some() {
            return Err(std::io::Error::from(std::io::ErrorKind::AlreadyExists));
        }
        *slot = Some(text);
        Ok(())
    }
}

fn no_read(_p: PathBuf) -> Result<String, std::io::Error> {
    panic!("the backing file must not be read here");
}

fn no_write(_p: PathBuf, _text: String) -> Result<(), std::io::Error> {
    panic!("the backing file must not be written here");
}

fn fresh(name: &str) -> FileBackedValue<u32> {
    FileBackedValue::new_at(name, std::path::Path::new("base"))
}

#[test]
fn write_then_read_round_trip_same_instance() {
    let store: Store = Rc::new(RefCell::new(None));
    let mut c = fresh("v");
    let r = c.insert(41, writer(&store));
    assert_eq!(r.unwrap(), &41);
    assert_eq!(store.borrow().as_deref(), Some("41"));
    let r = c.get(None, no_read);
    assert_eq!(r.unwrap(), Some(&41));
}

#[test]
fn write_then_read_round_trip_fresh_instance() {
    let store: Store = Rc::new(RefCell::new(None));
    let mut c = fresh("v");
    c.insert(1729, writer(&store)).unwrap();
    let mut c2 = fresh("v");
    let r = c2.get(None, reader(&store));
    assert_eq!(r.unwrap(), Some(&1729));
}

#[test]
fn single_read_semantics_ignores_external_changes() {
    let store: Store = Rc::new(RefCell::new(Some(String::from("1"))));
    let mut c = fresh("v");
    assert_eq!(c.get(None, reader(&store)).unwrap(), Some(&1));
    // The backing store changes behind the container's back ...
    *store.borrow_mut() = Some(String::from("2"));
    // ... but with no staleness threshold, nothing is read again.
    assert_eq!(c.get(None, no_read).unwrap(), Some(&1));
    assert_eq!(c.get_or_insert(9, None, no_read, no_write).unwrap(), &1);
}

#[test]
fn staleness_triggers_recompute_and_overwrite() {
    let store: Store = Rc::new(RefCell::new(Some(String::from("1"))));
    let mut c = fresh("v");
    assert_eq!(c.get(None, reader(&store)).unwrap(), Some(&1));
    c.set_dirty_time(Duration::from_nanos(100));
    // The file is older than the threshold: the default wins and is written
    // through, and nothing is read.
    let r = c.get_or_insert(7, Some(150), no_read, writer(&store));
    assert_eq!(r.unwrap(), &7);
    assert_eq!(store.borrow().as_deref(), Some("7"));
}

#[test]
fn stale_get_reloads_file_contents() {
    let store: Store = Rc::new(RefCell::new(Some(String::from("1"))));
    let mut c = fresh("v");
    assert_eq!(c.get(None, reader(&store)).unwrap(), Some(&1));
    c.set_dirty_time(Duration::from_nanos(100));
    *store.borrow_mut() = Some(String::from("2"));
    // Stale: the file's new contents replace the in-memory value.
    assert_eq!(c.get(Some(200), reader(&store)).unwrap(), Some(&2));
}

#[test]
fn deleted_file_counts_as_stale() {
    let store: Store = Rc::new(RefCell::new(Some(String::from("1"))));
    let mut c = fresh("v");
    assert_eq!(c.get(None, reader(&store)).unwrap(), Some(&1));
    c.set_dirty_time(Duration::from_nanos(100));
    *store.borrow_mut() = None;
    // No modification time can be determined for a deleted file, so the
    // value is recomputed.
    let r = c.get_or_insert(5, None, no_read, writer(&store));
    assert_eq!(r.unwrap(), &5);
    assert_eq!(store.borrow().as_deref(), Some("5"));
}

#[test]
fn freshness_suppresses_io() {
    let store: Store = Rc::new(RefCell::new(None));
    let mut c = fresh("v");
    c.insert(3, writer(&store)).unwrap();
    c.set_dirty_time(Duration::from_nanos(100));
    let before = store.borrow().clone();
    // Modified more recently than the threshold, value in memory: no read,
    // no write, the cached value is handed out.
    let r = c.get_or_insert(9, Some(50), no_read, no_write);
    assert_eq!(r.unwrap(), &3);
    let r = c.get_or_insert_with(
        || -> u32 { panic!("the default must not be computed here") },
        Some(50),
        no_read,
        no_write,
    );
    assert_eq!(r.unwrap(), &3);
    assert_eq!(*store.borrow(), before);
}

#[test]
fn absence_is_not_an_error() {
    let store: Store = Rc::new(RefCell::new(None));
    let mut c = fresh("v");
    let r = c.get(None, reader(&store));
    assert_eq!(r.unwrap(), None);
}

#[test]
fn io_failure_is_a_file_error() {
    let mut c = fresh("v");
    let r = c.get(None, |_p: PathBuf| -> Result<String, std::io::Error> {
        Err(std::io::Error::from(std::io::ErrorKind::PermissionDenied))
    });
    // The error the read reported comes back unmodified.
    match r {
        Err(FileBackedValueError::FileError(e)) => {
            assert_eq!(e.kind(), std::io::ErrorKind::PermissionDenied);
        },
        _ => panic!("expected a file error"),
    }
}

#[test]
fn decode_failure_is_a_json_error_and_leaves_cache_intact() {
    let store: Store = Rc::new(RefCell::new(None));
    let mut c = fresh("v");
    c.insert(7, writer(&store)).unwrap();
    c.set_dirty_time(Duration::from_nanos(100));
    *store.borrow_mut() = Some(String::from("certainly not json"));
    let r = c.get(Some(500), reader(&store));
    assert!(matches!(r, Err(FileBackedValueError::JsonError(_))));
    // The prior in-memory value is still there: a call that sees the file as
    // fresh returns it.
    assert_eq!(c.get(Some(0), no_read).unwrap(), Some(&7));
}

#[test]
fn invalidate_forces_recomputation() {
    let store: Store = Rc::new(RefCell::new(None));
    let mut c = fresh("v");
    c.insert(1, writer(&store)).unwrap();
    assert_eq!(c.set_dirty(), Some(1));
    c.set_dirty_time(Duration::from_nanos(100));
    let calls = Rc::new(Cell::new(0u32));
    let seen = Rc::clone(&calls);
    let factory = move || -> u32 {
        seen.set(seen.get() + 1);
        2
    };
    *store.borrow_mut() = None;
    let r = c.get_or_insert_with(factory, None, no_read, writer(&store));
    assert_eq!(r.unwrap(), &2);
    assert_eq!(calls.get(), 1);
    assert_eq!(store.borrow().as_deref(), Some("2"));
}

#[test]
fn set_dirty_returns_nothing_when_empty() {
    let mut c = fresh("v");
    assert_eq!(c.set_dirty(), None);
}

#[test]
fn clean_empty_cache_fills_from_file_not_default() {
    let store: Store = Rc::new(RefCell::new(Some(String::from("11"))));
    let mut c = fresh("v");
    let r = c.get_or_insert(99, None, reader(&store), no_write);
    assert_eq!(r.unwrap(), &11);
    let mut c2 = fresh("v");
    let r = c2.get_or_insert_with(
        || -> u32 { panic!("the default must not be computed here") },
        None,
        reader(&store),
        no_write,
    );
    assert_eq!(r.unwrap(), &11);
}

#[test]
fn missing_file_on_clean_fill_is_a_hard_error() {
    let store: Store = Rc::new(RefCell::new(None));
    let mut c = fresh("v");
    // No threshold, nothing cached, no file: get_or_insert owes a value that
    // only the file could supply, so this surfaces as a file error rather
    // than silently using the default.
    let r = c.get_or_insert(5, None, reader(&store), no_write);
    assert!(matches!(r, Err(FileBackedValueError::FileError(_))));
}

#[test]
fn failed_write_leaves_no_value_cached() {
    let mut c = fresh("v");
    let r = c.insert(13, |_p: PathBuf, _text: String| -> Result<(), std::io::Error> {
        Err(std::io::Error::from(std::io::ErrorKind::PermissionDenied))
    });
    assert!(matches!(r, Err(FileBackedValueError::FileError(_))));
    // The value that failed to persist was not cached.
    let store: Store = Rc::new(RefCell::new(None));
    assert_eq!(c.get(None, reader(&store)).unwrap(), None);
}

#[test]
fn exclusive_write_refuses_an_existing_file() {
    let store: Store = Rc::new(RefCell::new(None));
    let mut c = fresh("v");
    assert_eq!(c.insert(1, exclusive_writer(&store)).unwrap(), &1);
    // A second exclusive write finds the file already present and fails; the
    // first value stays cached and stored.
    let r = c.insert(2, exclusive_writer(&store));
    assert!(matches!(r, Err(FileBackedValueError::FileError(_))));
    assert_eq!(store.borrow().as_deref(), Some("1"));
    assert_eq!(c.get(None, no_read).unwrap(), Some(&1));
}

#[test]
fn unencodable_value_is_a_json_error_before_any_write() {
    let mut c: FileBackedValue<BTreeMap<Vec<u8>, u8>> =
        FileBackedValue::new_at("m", std::path::Path::new("base"));
    let mut bad = BTreeMap::new();
    bad.insert(vec![1u8], 1u8);
    // serde_json refuses maps whose keys are not strings; the write closure
    // must never run.
    let r = c.insert(bad, no_write);
    assert!(matches!(r, Err(FileBackedValueError::JsonError(_))));
}

#[test]
fn file_needs_recomputation_boundaries() {
    assert!(!file_needs_recomputation(Some(5), 10));
    assert!(!file_needs_recomputation(Some(9), 10));
    assert!(file_needs_recomputation(Some(10), 10));
    assert!(file_needs_recomputation(Some(11), 10));
    assert!(file_needs_recomputation(None, 10));
    assert!(file_needs_recomputation(Some(0), 0));
}
