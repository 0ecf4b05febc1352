//! A lazily populated, file-persisted cache for a single typed value.
//!
//! A [`FileBackedValue`] keeps at most one value of type `T` in memory,
//! backed by one file that holds the value as a JSON document. The container
//! decides when the backing file must be consulted again: never, once a value
//! has been loaded, unless a staleness threshold is configured, in which case
//! the file's age decides.
//!
//! The container itself never touches the file system: every accessor takes
//! the time since the backing file was last modified, and closures that read
//! or write the backing file, from its caller. The decisions — when to read,
//! when to recompute and write through, and how failures propagate — are all
//! made here.

use vstd::prelude::*;

use crate::external::decode_json;
use crate::external::duration_nanos;
use crate::external::encode_json;
use crate::external::join_path;
use crate::external::missing_file_error;
use crate::external::path_to_buf;
use crate::external::platform_data_dir;
use crate::external::sanitize_name;
use crate::external::split_not_found;

verus! {

/// The failures an accessor can report to its caller.
#[derive(Debug)]
pub enum FileBackedValueError {
    /// The backing file could not be read or written, for a reason other
    /// than non-existence on a read.
    FileError(std::io::Error),
    /// The backing file's content is not a valid encoding of `T`, or the
    /// value could not be encoded.
    JsonError(serde_json::Error),
}

pub type FileBackedValueResult<T> = Result<T, FileBackedValueError>;

/// What one attempt to load the backing file produced.
pub enum ReadOutcome<T> {
    /// The file exists and holds a valid encoding of this value.
    Loaded(T),
    /// The file does not exist.
    Missing,
    /// The file exists but its content could not be decoded.
    Malformed(serde_json::Error),
    /// The file could not be accessed, for a reason other than non-existence.
    Failed(std::io::Error),
}

/// A single value of type `T`, cached in memory and persisted in one file.
pub struct FileBackedValue<T> {
    dir: std::path::PathBuf,
    filename: String,
    value: Option<T>,
    dirty_time: Option<u128>,
}

/// What sanitization guarantees of the stored file name: it holds no path
/// separator, so the backing file cannot escape its directory, and it is at
/// most 255 characters long.
pub open spec fn sanitized_filename(name: String) -> bool {
    &&& name@.len() <= 255
    &&& forall|i: int| 0 <= i < name@.len() ==> name@[i] != '/'
}

/// The backing file must be recomputed once the time since its last
/// modification meets or exceeds the threshold, and also when that time
/// cannot be determined: a missing file must trigger recomputation.
pub open spec fn needs_recomputation(time_since_last_modified: Option<u128>, dirty_time: u128) -> bool {
    match time_since_last_modified {
        Some(elapsed) => elapsed >= dirty_time,
        None => true,
    }
}

/// The backing file is stale exactly when a staleness threshold is
/// configured and the file needs recomputation under it. Without a
/// threshold the file is never stale, which makes "read once" the default.
pub open spec fn is_stale(time_since_last_modified: Option<u128>, threshold: Option<u128>) -> bool {
    match threshold {
        Some(dirty_time) => needs_recomputation(time_since_last_modified, dirty_time),
        None => false,
    }
}

/// Check whether the backing file must be recomputed: its modification time
/// is `dirty_time` nanoseconds or more in the past, or could not be
/// determined at all (`None`, as for a missing file).
pub fn file_needs_recomputation(time_since_last_modified: Option<u128>, dirty_time: u128) -> (r: bool)
    ensures
        r == needs_recomputation(time_since_last_modified, dirty_time),
{
    match time_since_last_modified {
        Some(elapsed) => elapsed >= dirty_time,
        None => true,
    }
}

/// How one read of the backing file changes the cached value and what the
/// reading accessor returns: a loaded value replaces the cached one, a
/// missing file clears it, and a failure of either kind leaves it untouched
/// and is reported as the matching error.
pub open spec fn read_step<T>(
    pre: Option<T>,
    post: Option<T>,
    outcome: ReadOutcome<T>,
    r: FileBackedValueResult<Option<&T>>,
) -> bool {
    match outcome {
        ReadOutcome::Loaded(v) => post == Some(v) && (r matches Ok(Some(p)) && *p == v),
        ReadOutcome::Missing => post is None && (r matches Ok(None)),
        ReadOutcome::Malformed(e) => post == pre && (r matches Err(FileBackedValueError::JsonError(je)) && je == e),
        ReadOutcome::Failed(e) => post == pre && (r matches Err(FileBackedValueError::FileError(fe)) && fe == e),
    }
}

/// How the raw result of reading the backing file is classified: text is
/// either decoded or reported malformed, and a failure to read is either a
/// missing file or passed through as exactly the error the read reported.
pub open spec fn read_classified<T>(
    res: Result<String, std::io::Error>,
    outcome: ReadOutcome<T>,
) -> bool {
    match res {
        Ok(_) => outcome is Loaded || outcome is Malformed,
        Err(e) => outcome is Missing || outcome == ReadOutcome::<T>::Failed(e),
    }
}

/// How one fill of an empty cache from the backing file changes the cached
/// value and what `get_or_insert` and `get_or_insert_with` return for it.
/// A fill happens only when the file is not stale, so a missing file here
/// signals a broken invariant and is surfaced as a file error rather than
/// silently falling back to the default.
pub open spec fn fill_step<T>(
    pre: Option<T>,
    post: Option<T>,
    outcome: ReadOutcome<T>,
    r: FileBackedValueResult<&T>,
) -> bool {
    match outcome {
        ReadOutcome::Loaded(v) => post == Some(v) && (r matches Ok(p) && *p == v),
        ReadOutcome::Missing => post == pre && (r matches Err(FileBackedValueError::FileError(_))),
        ReadOutcome::Malformed(e) => post == pre && (r matches Err(FileBackedValueError::JsonError(je)) && je == e),
        ReadOutcome::Failed(e) => post == pre && (r matches Err(FileBackedValueError::FileError(fe)) && fe == e),
    }
}

/// How a recomputation ends: on success the recomputed value is the new
/// cached value and is returned; on failure (the value could not be encoded,
/// or the backing file could not be written) the container is left exactly
/// as it was.
pub open spec fn recompute_post<T>(
    pre: FileBackedValue<T>,
    post: FileBackedValue<T>,
    v: T,
    r: FileBackedValueResult<&T>,
) -> bool {
    &&& (r matches Ok(p) ==> post.cached() == Some(v) && *p == v)
    &&& (r is Err ==> post == pre)
}

/// Everything `insert` promises: the location and the threshold are kept,
/// and the recomputation either commits `v` or leaves the container as it
/// was.
pub open spec fn insert_post<T>(
    pre: FileBackedValue<T>,
    post: FileBackedValue<T>,
    v: T,
    r: FileBackedValueResult<&T>,
) -> bool {
    &&& post.threshold() == pre.threshold()
    &&& post.location() == pre.location()
    &&& recompute_post(pre, post, v, r)
}

/// Everything `get` promises. With a value in memory and no staleness, the
/// container is untouched and that value is returned; otherwise the backing
/// file was read and some outcome of that read took effect.
pub open spec fn get_post<T>(
    pre: FileBackedValue<T>,
    post: FileBackedValue<T>,
    time_since_last_modified: Option<u128>,
    r: FileBackedValueResult<Option<&T>>,
) -> bool {
    &&& post.threshold() == pre.threshold()
    &&& post.location() == pre.location()
    &&& (pre.cached() is Some && !is_stale(time_since_last_modified, pre.threshold()) ==> post
        == pre && (r matches Ok(Some(p)) && Some(*p) == pre.cached()))
    &&& (pre.cached() is None || is_stale(time_since_last_modified, pre.threshold())
        ==> exists|o: ReadOutcome<T>| read_step(pre.cached(), post.cached(), o, r))
}

/// Everything `get_or_insert` promises. Staleness recomputes from the given
/// default, write-through; an empty cache on a file that is not stale is
/// filled from the file; otherwise the cached value is returned and nothing
/// is touched.
pub open spec fn get_or_insert_post<T>(
    pre: FileBackedValue<T>,
    post: FileBackedValue<T>,
    default: T,
    time_since_last_modified: Option<u128>,
    r: FileBackedValueResult<&T>,
) -> bool {
    &&& post.threshold() == pre.threshold()
    &&& post.location() == pre.location()
    &&& (is_stale(time_since_last_modified, pre.threshold()) ==> recompute_post(
        pre,
        post,
        default,
        r,
    ))
    &&& (!is_stale(time_since_last_modified, pre.threshold()) && pre.cached() is None
        ==> exists|o: ReadOutcome<T>| fill_step(pre.cached(), post.cached(), o, r))
    &&& (!is_stale(time_since_last_modified, pre.threshold()) && pre.cached() is Some ==> post
        == pre && (r matches Ok(p) && Some(*p) == pre.cached()))
}

impl<T> FileBackedValue<T> {
    /// The value currently held in memory.
    pub closed spec fn cached(self) -> Option<T> {
        self.value
    }

    /// The configured staleness threshold, in nanoseconds.
    pub closed spec fn threshold(self) -> Option<u128> {
        self.dirty_time
    }

    /// Where the backing file lives: its directory and its sanitized name.
    pub closed spec fn location(self) -> (std::path::PathBuf, String) {
        (self.dir, self.filename)
    }

    /// A container for the file `filename` (sanitized) under the
    /// platform-standard per-user data directory, holding no value yet and
    /// no staleness threshold. `None` when no such directory can be
    /// determined.
    pub fn new(filename: &str) -> (r: Option<Self>)
        ensures
            r matches Some(c) ==> c.cached() is None && c.threshold() is None
                && sanitized_filename(c.location().1),
    {
        match platform_data_dir() {
            Some(dir) => Some(FileBackedValue {
                dir,
                filename: sanitize_name(filename),
                value: None,
                dirty_time: None,
            }),
            None => None,
        }
    }

    /// A container for the file `filename` (sanitized) under `dir`, holding
    /// no value yet and no staleness threshold.
    pub fn new_at(filename: &str, dir: &std::path::Path) -> (r: Self)
        ensures
            r.cached() is None,
            r.threshold() is None,
            sanitized_filename(r.location().1),
    {
        FileBackedValue {
            dir: path_to_buf(dir),
            filename: sanitize_name(filename),
            value: None,
            dirty_time: None,
        }
    }

    /// The resolved path of the backing file: the sanitized name joined to
    /// the directory. Pure plumbing: no I/O, no error.
    pub fn path(&self) -> (r: std::path::PathBuf) {
        join_path(&self.dir, self.filename.as_str())
    }

    /// From this point, a previously loaded value is treated as stale once
    /// the backing file's age meets or exceeds `dirty_time`. The cached
    /// value itself is kept.
    pub fn set_dirty_time(&mut self, dirty_time: std::time::Duration)
        ensures
            final(self).threshold() is Some,
            final(self).cached() == old(self).cached(),
            final(self).location() == old(self).location(),
    {
        self.dirty_time = Some(duration_nanos(&dirty_time));
    }

    /// Drop the in-memory value without touching the backing file, forcing
    /// the next accessor call to reload or recompute. Returns the value that
    /// was held, if any.
    pub fn set_dirty(&mut self) -> (r: Option<T>)
        ensures
            r == old(self).cached(),
            final(self).cached() is None,
            final(self).threshold() == old(self).threshold(),
            final(self).location() == old(self).location(),
    {
        self.value.take()
    }

    /// Whether the backing file is stale for this container, given the time
    /// since it was last modified (in nanoseconds; `None` when that time
    /// could not be determined).
    fn file_is_dirty(&self, time_since_last_modified: Option<u128>) -> (r: bool)
        ensures
            r == is_stale(time_since_last_modified, self.threshold()),
    {
        match self.dirty_time {
            Some(dirty_time) => file_needs_recomputation(time_since_last_modified, dirty_time),
            None => false,
        }
    }

    /// Apply the outcome of one read of the backing file to the cached
    /// value, and report what a reading accessor returns for it.
    pub fn apply_read(&mut self, outcome: ReadOutcome<T>) -> (r: FileBackedValueResult<Option<&T>>)
        ensures
            final(self).threshold() == old(self).threshold(),
            final(self).location() == old(self).location(),
            read_step(old(self).cached(), final(self).cached(), outcome, r),
    {
        match outcome {
            ReadOutcome::Loaded(v) => {
                self.value = Some(v);
                Ok(self.value.as_ref())
            },
            ReadOutcome::Missing => {
                self.value = None;
                Ok(None)
            },
            ReadOutcome::Malformed(e) => Err(FileBackedValueError::JsonError(e)),
            ReadOutcome::Failed(e) => Err(FileBackedValueError::FileError(e)),
        }
    }

    /// Apply the outcome of one read of the backing file to an accessor that
    /// owes a value: a loaded value is committed and returned, and a missing
    /// file — which a non-stale file must not be — is surfaced as a file
    /// error.
    pub fn apply_fill(&mut self, outcome: ReadOutcome<T>) -> (r: FileBackedValueResult<&T>)
        ensures
            final(self).threshold() == old(self).threshold(),
            final(self).location() == old(self).location(),
            fill_step(old(self).cached(), final(self).cached(), outcome, r),
    {
        match outcome {
            ReadOutcome::Loaded(v) => {
                self.value = Some(v);
                Ok(self.value.as_ref().unwrap())
            },
            ReadOutcome::Missing => Err(FileBackedValueError::FileError(missing_file_error())),
            ReadOutcome::Malformed(e) => Err(FileBackedValueError::JsonError(e)),
            ReadOutcome::Failed(e) => Err(FileBackedValueError::FileError(e)),
        }
    }
}

impl<T: serde::Serialize + serde::de::DeserializeOwned> FileBackedValue<T> {
    /// Read the backing file once and classify what came of it. The raw read
    /// is done by `read`, which is given the resolved path; its text, if
    /// any, is decoded here, and its error is passed through unmodified
    /// unless it only says the file does not exist.
    fn read_file<R>(&self, read: R) -> (outcome: ReadOutcome<T>) where
        R: FnOnce(std::path::PathBuf) -> Result<String, std::io::Error>,

        requires
            forall|p: std::path::PathBuf| call_requires(read, (p,)),
        ensures
            exists|p: std::path::PathBuf, res: Result<String, std::io::Error>|
                call_ensures(read, (p,), res) && read_classified(res, outcome),
    {
        let p = self.path();
        let ghost gp = p;
        let res = read(p);
        let ghost gres = res;
        let outcome = match res {
            Ok(text) => match decode_json::<T>(text.as_str()) {
                Ok(v) => ReadOutcome::Loaded(v),
                Err(e) => ReadOutcome::Malformed(e),
            },
            Err(e) => match split_not_found(e) {
                None => ReadOutcome::Missing,
                Some(other) => ReadOutcome::Failed(other),
            },
        };
        proof {
            assert(call_ensures(read, (gp,), gres) && read_classified(gres, outcome));
        }
        outcome
    }

    /// Write `value` through to the backing file and make it the cached
    /// value. The raw write is done by `write`, which is given the resolved
    /// path and the encoded text; the value is committed to memory only
    /// after the write reports success, so a value that failed to persist is
    /// never cached.
    pub fn insert<W>(&mut self, value: T, write: W) -> (r: FileBackedValueResult<&T>) where
        W: FnOnce(std::path::PathBuf, String) -> Result<(), std::io::Error>,

        requires
            forall|p: std::path::PathBuf, s: String| call_requires(write, (p, s)),
        ensures
            insert_post(*old(self), *final(self), value, r),
            r is Ok ==> exists|p: std::path::PathBuf, s: String|
                call_ensures(write, (p, s), Ok::<(), std::io::Error>(())),
    {
        match encode_json::<T>(&value) {
            Ok(text) => {
                let p = self.path();
                let ghost gp = p;
                let ghost gtext = text;
                let w = write(p, text);
                match w {
                    Ok(u) => {
                        proof {
                            assert(call_ensures(write, (gp, gtext), Ok::<(), std::io::Error>(u)));
                        }
                        self.value = Some(value);
                        Ok(self.value.as_ref().unwrap())
                    },
                    Err(e) => Err(FileBackedValueError::FileError(e)),
                }
            },
            Err(e) => Err(FileBackedValueError::JsonError(e)),
        }
    }

    /// Read-through accessor: reload from the backing file when no value is
    /// in memory or the file is stale, and hand out the cached value
    /// otherwise. Never writes. A missing file is not an error here: it is
    /// reported as `Ok(None)`, "no value yet".
    pub fn get<R>(&mut self, time_since_last_modified: Option<u128>, read: R) -> (r:
        FileBackedValueResult<Option<&T>>) where
        R: FnOnce(std::path::PathBuf) -> Result<String, std::io::Error>,

        requires
            old(self).cached() is None || is_stale(time_since_last_modified, old(self).threshold())
                ==> forall|p: std::path::PathBuf| call_requires(read, (p,)),
        ensures
            get_post(*old(self), *final(self), time_since_last_modified, r),
            old(self).cached() is None || is_stale(time_since_last_modified, old(self).threshold())
                ==> exists|p: std::path::PathBuf, res: Result<String, std::io::Error>, o: ReadOutcome<T>|
                call_ensures(read, (p,), res) && read_classified(res, o) && read_step(
                    old(self).cached(),
                    final(self).cached(),
                    o,
                    r,
                ),
    {
        if self.value.is_none() || self.file_is_dirty(time_since_last_modified) {
            let outcome = self.read_file(read);
            self.apply_read(outcome)
        } else {
            Ok(self.value.as_ref())
        }
    }

    /// Insert-or-compute accessor: a stale file makes `default` the new
    /// value, write-through, whatever was in memory; an empty cache on a
    /// file that is not stale is filled from the file; and otherwise the
    /// cached value is returned with no I/O at all.
    pub fn get_or_insert<R, W>(
        &mut self,
        default: T,
        time_since_last_modified: Option<u128>,
        read: R,
        write: W,
    ) -> (r: FileBackedValueResult<&T>) where
        R: FnOnce(std::path::PathBuf) -> Result<String, std::io::Error>,
        W: FnOnce(std::path::PathBuf, String) -> Result<(), std::io::Error>,

        requires
            is_stale(time_since_last_modified, old(self).threshold()) ==> forall|
                p: std::path::PathBuf,
                s: String,
            | call_requires(write, (p, s)),
            !is_stale(time_since_last_modified, old(self).threshold()) && old(self).cached()
                is None ==> forall|p: std::path::PathBuf| call_requires(read, (p,)),
        ensures
            get_or_insert_post(*old(self), *final(self), default, time_since_last_modified, r),
            is_stale(time_since_last_modified, old(self).threshold()) && r is Ok ==> exists|
                p: std::path::PathBuf,
                s: String,
            | call_ensures(write, (p, s), Ok::<(), std::io::Error>(())),
            !is_stale(time_since_last_modified, old(self).threshold()) && old(self).cached()
                is None ==> exists|p: std::path::PathBuf, res: Result<String, std::io::Error>, o: ReadOutcome<T>|
                call_ensures(read, (p,), res) && read_classified(res, o) && fill_step(
                    old(self).cached(),
                    final(self).cached(),
                    o,
                    r,
                ),
    {
        if self.file_is_dirty(time_since_last_modified) {
            self.insert(default, write)
        } else if self.value.is_none() {
            let outcome = self.read_file(read);
            self.apply_fill(outcome)
        } else {
            Ok(self.value.as_ref().unwrap())
        }
    }

    /// Like `get_or_insert`, but the default is computed by `default` only
    /// when a stale file actually calls for recomputation, and at most once
    /// per call: the fast paths never evaluate it.
    pub fn get_or_insert_with<F, R, W>(
        &mut self,
        default: F,
        time_since_last_modified: Option<u128>,
        read: R,
        write: W,
    ) -> (r: FileBackedValueResult<&T>) where
        F: FnOnce() -> T,
        R: FnOnce(std::path::PathBuf) -> Result<String, std::io::Error>,
        W: FnOnce(std::path::PathBuf, String) -> Result<(), std::io::Error>,

        requires
            is_stale(time_since_last_modified, old(self).threshold()) ==> call_requires(
                default,
                (),
            ) && forall|p: std::path::PathBuf, s: String| call_requires(write, (p, s)),
            !is_stale(time_since_last_modified, old(self).threshold()) && old(self).cached()
                is None ==> forall|p: std::path::PathBuf| call_requires(read, (p,)),
        ensures
            final(self).threshold() == old(self).threshold(),
            final(self).location() == old(self).location(),
            is_stale(time_since_last_modified, old(self).threshold()) ==> exists|v: T|
                call_ensures(default, (), v) && recompute_post(*old(self), *final(self), v, r),
            is_stale(time_since_last_modified, old(self).threshold()) && r is Ok ==> exists|
                p: std::path::PathBuf,
                s: String,
            | call_ensures(write, (p, s), Ok::<(), std::io::Error>(())),
            !is_stale(time_since_last_modified, old(self).threshold()) && old(self).cached()
                is None ==> exists|p: std::path::PathBuf, res: Result<String, std::io::Error>, o: ReadOutcome<T>|
                call_ensures(read, (p,), res) && read_classified(res, o) && fill_step(
                    old(self).cached(),
                    final(self).cached(),
                    o,
                    r,
                ),
            !is_stale(time_since_last_modified, old(self).threshold()) && old(self).cached()
                is Some ==> *final(self) == *old(self) && (r matches Ok(p) && Some(*p) == old(
                self,
            ).cached()),
    {
        if self.file_is_dirty(time_since_last_modified) {
            let v = default();
            let ghost gv = v;
            let r = self.insert(v, write);
            proof {
                assert(call_ensures(default, (), gv));
            }
            r
        } else if self.value.is_none() {
            let outcome = self.read_file(read);
            self.apply_fill(outcome)
        } else {
            Ok(self.value.as_ref().unwrap())
        }
    }
}

} // verus!
