//! Laws relating the accessors of [`crate::cache::FileBackedValue`], stated
//! over the same postcondition predicates that the accessors' own contracts
//! use.

use vstd::prelude::*;

use crate::cache::get_or_insert_post;
use crate::cache::get_post;
use crate::cache::insert_post;
use crate::cache::is_stale;
use crate::cache::read_step;
use crate::cache::recompute_post;
use crate::cache::FileBackedValue;
use crate::cache::FileBackedValueError;
use crate::cache::FileBackedValueResult;
use crate::cache::ReadOutcome;

verus! {

/// Write-then-read round trip, on one instance: inserting `v` and then
/// calling `get`, with no staleness threshold set, returns `v` unchanged and
/// leaves the container as the insert left it.
pub proof fn lemma_write_then_read<T>(
    s0: FileBackedValue<T>,
    s1: FileBackedValue<T>,
    s2: FileBackedValue<T>,
    v: T,
    r1: FileBackedValueResult<&T>,
    time_since_last_modified: Option<u128>,
    r2: FileBackedValueResult<Option<&T>>,
)
    requires
        insert_post(s0, s1, v, r1),
        r1 is Ok,
        s1.threshold() is None,
        get_post(s1, s2, time_since_last_modified, r2),
    ensures
        s2 == s1,
        r2 matches Ok(Some(p)) && *p == v,
{
}

/// Single-read semantics: with no staleness threshold set, once a value is
/// in memory, `get` returns that value and changes nothing — whatever the
/// backing file looks like by now.
pub proof fn lemma_single_read<T>(
    s1: FileBackedValue<T>,
    s2: FileBackedValue<T>,
    time_since_last_modified: Option<u128>,
    r: FileBackedValueResult<Option<&T>>,
)
    requires
        s1.threshold() is None,
        s1.cached() is Some,
        get_post(s1, s2, time_since_last_modified, r),
    ensures
        s2 == s1,
        r matches Ok(Some(p)) && Some(*p) == s1.cached(),
{
}

/// A file whose modification time cannot be determined — a deleted file in
/// particular — is stale under every configured threshold.
pub proof fn lemma_missing_file_is_stale(dirty_time: u128)
    ensures
        is_stale(None, Some(dirty_time)),
{
}

/// Staleness triggers recomputation: when the backing file is stale, a
/// successful `get_or_insert` makes the given default the cached value,
/// whatever was in memory before.
pub proof fn lemma_stale_recomputes<T>(
    s1: FileBackedValue<T>,
    s2: FileBackedValue<T>,
    default: T,
    time_since_last_modified: Option<u128>,
    r: FileBackedValueResult<&T>,
)
    requires
        is_stale(time_since_last_modified, s1.threshold()),
        get_or_insert_post(s1, s2, default, time_since_last_modified, r),
        r is Ok,
    ensures
        s2.cached() == Some(default),
        r matches Ok(p) && *p == default,
{
}

/// An I/O failure on read, other than non-existence, is propagated to the
/// caller unmodified — the very error the read reported — and leaves the
/// in-memory value untouched.
pub proof fn lemma_read_failure_propagates<T>(
    pre: Option<T>,
    post: Option<T>,
    e: std::io::Error,
    r: FileBackedValueResult<Option<&T>>,
)
    requires
        read_step(pre, post, ReadOutcome::Failed(e), r),
    ensures
        post == pre,
        r matches Err(FileBackedValueError::FileError(fe)) && fe == e,
{
}

/// Staleness triggers reload: when `get` does consult the backing file and
/// the read loads a value, that value replaces the in-memory one and is
/// returned.
pub proof fn lemma_reload_takes_file_contents<T>(
    pre: Option<T>,
    post: Option<T>,
    v: T,
    r: FileBackedValueResult<Option<&T>>,
)
    requires
        read_step(pre, post, ReadOutcome::Loaded(v), r),
    ensures
        post == Some(v),
        r matches Ok(Some(p)) && *p == v,
{
}

/// Freshness suppresses recomputation: with a threshold configured, a file
/// modified more recently than the threshold, and a value in memory,
/// `get_or_insert` returns that value and touches nothing.
pub proof fn lemma_fresh_returns_cached<T>(
    s1: FileBackedValue<T>,
    s2: FileBackedValue<T>,
    default: T,
    time_since_last_modified: Option<u128>,
    r: FileBackedValueResult<&T>,
)
    requires
        s1.threshold() is Some,
        time_since_last_modified matches Some(e) && e < s1.threshold().unwrap(),
        s1.cached() is Some,
        get_or_insert_post(s1, s2, default, time_since_last_modified, r),
    ensures
        s2 == s1,
        r matches Ok(p) && Some(*p) == s1.cached(),
{
}

/// Absence is not an error: a read that finds no backing file clears the
/// cache and reports "no value yet", never a failure. Together with `get`'s
/// contract this covers a freshly constructed instance, whose cache is
/// empty, so `get` consults the file.
pub proof fn lemma_absent_is_not_error<T>(
    pre: Option<T>,
    post: Option<T>,
    r: FileBackedValueResult<Option<&T>>,
)
    requires
        read_step(pre, post, ReadOutcome::<T>::Missing, r),
    ensures
        r matches Ok(None),
        post is None,
{
}

/// Decode failure leaves the cache intact: a read that finds undecodable
/// content reports a JSON error and keeps the in-memory value, and a later
/// `get` that sees the file as not stale still returns that value.
pub proof fn lemma_decode_failure_keeps_cache<T>(
    s1: FileBackedValue<T>,
    s2: FileBackedValue<T>,
    s3: FileBackedValue<T>,
    e: serde_json::Error,
    r1: FileBackedValueResult<Option<&T>>,
    time_since_last_modified: Option<u128>,
    r2: FileBackedValueResult<Option<&T>>,
)
    requires
        s1.cached() is Some,
        read_step(s1.cached(), s2.cached(), ReadOutcome::<T>::Malformed(e), r1),
        !is_stale(time_since_last_modified, s2.threshold()),
        get_post(s2, s3, time_since_last_modified, r2),
    ensures
        r1 matches Err(FileBackedValueError::JsonError(je)) && je == e,
        s2.cached() == s1.cached(),
        r2 matches Ok(Some(p)) && Some(*p) == s1.cached(),
{
}

/// Invalidation forces recomputation: after `set_dirty` dropped the
/// in-memory value, a `get_or_insert_with` that finds the backing file stale
/// computes the default by one call of the factory and, on success, caches
/// and returns exactly that result.
pub proof fn lemma_invalidate_then_recompute<T, F: FnOnce() -> T>(
    factory: F,
    s1: FileBackedValue<T>,
    s2: FileBackedValue<T>,
    s3: FileBackedValue<T>,
    time_since_last_modified: Option<u128>,
    r: FileBackedValueResult<&T>,
)
    requires
        s2.cached() is None,
        s2.threshold() == s1.threshold(),
        s2.location() == s1.location(),
        is_stale(time_since_last_modified, s2.threshold()),
        exists|v: T| call_ensures(factory, (), v) && recompute_post(s2, s3, v, r),
        r is Ok,
    ensures
        exists|v: T|
            call_ensures(factory, (), v) && s3.cached() == Some(v) && (r matches Ok(p) && *p == v),
{
    let v = choose|v: T| call_ensures(factory, (), v) && recompute_post(s2, s3, v, r);
    assert(call_ensures(factory, (), v) && s3.cached() == Some(v) && (r matches Ok(p) && *p == v));
}

} // verus!
