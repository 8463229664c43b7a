//! Time-bounded memoisation of read responses, keyed by request identity.
//!
//! An entry is served while its age is strictly below its time to live.
//! Expired entries are never swept: they stay in the map, invisible to
//! lookups, until the next write under the same key replaces them.

use std::time::Duration;
use std::time::SystemTime;
use std::time::SystemTimeError;
use vstd::hash_map::StringHashMap;
use vstd::prelude::*;

verus! {

/// Time to live, in seconds, of an entry stored without an explicit one.
pub const DEFAULT_TTL: usize = 300;

/// `std::time::SystemTime`, a reading of the wall clock. It is carried from
/// `SystemTime::now` to `SystemTime::duration_since` and never looked into.
#[verifier::external_type_specification]
#[verifier::external_body]
pub struct ExSystemTime(SystemTime);

/// `std::time::SystemTimeError`, the failure of
/// `SystemTime::duration_since`. Only its presence is used.
#[verifier::external_type_specification]
#[verifier::external_body]
pub struct ExSystemTimeError(SystemTimeError);

/// `SystemTime::now` reads the wall clock. Nothing is claimed of the value.
pub assume_specification[ SystemTime::now ]() -> (t: SystemTime);

/// `Duration::as_secs` gives the whole seconds of a duration. Durations are
/// opaque here, so nothing is claimed of the number.
pub assume_specification[ Duration::as_secs ](d: &Duration) -> (secs: u64);

/// Calls `SystemTime::duration_since` against the Unix epoch. It fails when
/// the clock stands before the epoch; nothing is claimed of either outcome.
#[verifier::external_body]
fn since_epoch(t: &SystemTime) -> (r: Result<Duration, SystemTimeError>) {
    t.duration_since(SystemTime::UNIX_EPOCH)
}

/// Seconds since the Unix epoch by the wall clock; zero for a clock that
/// stands before the epoch.
pub fn unix_seconds() -> (now: usize) {
    let t = SystemTime::now();
    match since_epoch(&t) {
        Ok(d) => {
            let secs: u64 = d.as_secs();
            #[verifier::truncate]
            (secs as usize)
        },
        Err(_) => 0,
    }
}

/// Whether an entry stamped `timestamp` with time to live `ttl` is still
/// served at time `now`: its age, which is negative when the clock has gone
/// back, is strictly below `ttl`.
pub open spec fn fresh(timestamp: int, ttl: int, now: int) -> bool {
    now - timestamp < ttl
}

/// A cached value with its creation time and time to live, both in seconds.
pub struct CacheEntry<T> {
    pub timestamp: usize,
    pub ttl: usize,
    pub item: T,
}

impl<T> CacheEntry<T> {
    /// An entry stamped with the time `now`.
    pub fn at(item: T, ttl: usize, now: usize) -> (entry: Self)
        ensures
            entry.item == item,
            entry.ttl == ttl,
            entry.timestamp == now,
    {
        CacheEntry { item, ttl, timestamp: now }
    }

    /// An entry stamped with the current time.
    pub fn new(item: T, ttl: usize) -> (entry: Self)
        ensures
            entry.item == item,
            entry.ttl == ttl,
    {
        Self::at(item, ttl, unix_seconds())
    }

    pub open spec fn fresh_at(&self, now: int) -> bool {
        fresh(self.timestamp as int, self.ttl as int, now)
    }

    /// Whether the entry is past its time to live at time `now`.
    pub fn is_expired_at(&self, now: usize) -> (expired: bool)
        ensures
            expired == !self.fresh_at(now as int),
    {
        now >= self.timestamp && now - self.timestamp >= self.ttl
    }

    /// Whether the entry is past its time to live by the wall clock: the
    /// answer of `is_expired_at` for the reading of the clock, whatever it is.
    pub fn is_expired(&self) -> (expired: bool)
        ensures
            exists|now: usize| expired == !#[trigger] self.fresh_at(now as int),
    {
        let now = unix_seconds();
        let expired = self.is_expired_at(now);
        assert(expired == !self.fresh_at(now as int));
        expired
    }
}

/// Entries by key. The view is the map of all stored entries, the expired
/// ones included.
#[verifier::reject_recursive_types(T)]
pub struct Cache<T> {
    entries: StringHashMap<CacheEntry<T>>,
}

impl<T> View for Cache<T> {
    type V = Map<Seq<char>, CacheEntry<T>>;

    closed spec fn view(&self) -> Map<Seq<char>, CacheEntry<T>> {
        self.entries@
    }
}

/// What a lookup of `key` at time `now` finds in `entries`: the stored value
/// while its entry is fresh, nothing otherwise.
pub open spec fn lookup<T>(entries: Map<Seq<char>, CacheEntry<T>>, key: Seq<char>, now: int) -> Option<T> {
    if entries.contains_key(key) && entries[key].fresh_at(now) {
        Some(entries[key].item)
    } else {
        None
    }
}

/// The entries after a write of `value` under `key` at time `now`.
pub open spec fn stored<T>(
    entries: Map<Seq<char>, CacheEntry<T>>,
    key: Seq<char>,
    value: T,
    ttl: Option<usize>,
    now: usize,
) -> Map<Seq<char>, CacheEntry<T>> {
    entries.insert(
        key,
        CacheEntry {
            timestamp: now,
            ttl: match ttl {
                Some(t) => t,
                None => DEFAULT_TTL,
            },
            item: value,
        },
    )
}

/// `after` is `before` after a write of `value` under `key` at some reading
/// of the clock.
pub open spec fn stored_now<T>(
    before: Map<Seq<char>, CacheEntry<T>>,
    key: Seq<char>,
    value: T,
    ttl: Option<usize>,
    after: Map<Seq<char>, CacheEntry<T>>,
) -> bool {
    exists|now: usize| after == #[trigger] stored(before, key, value, ttl, now)
}

/// `found` is what a lookup of `key` finds at some reading of the clock.
pub open spec fn found_now<T>(entries: Map<Seq<char>, CacheEntry<T>>, key: Seq<char>, found: Option<T>) -> bool {
    exists|now: usize| found == #[trigger] lookup(entries, key, now as int)
}

/// The value behind an optional reference.
pub open spec fn pointee<T>(r: Option<&T>) -> Option<T> {
    match r {
        Some(v) => Some(*v),
        None => None,
    }
}

impl<T> Cache<T> {
    /// An empty cache.
    pub fn new() -> (cache: Cache<T>)
        ensures
            cache@ == Map::<Seq<char>, CacheEntry<T>>::empty(),
    {
        Cache { entries: StringHashMap::new() }
    }

    /// Stores `value` under `key` at time `now`, replacing whatever was there.
    /// Without a `ttl` the entry lives for `DEFAULT_TTL` seconds.
    pub fn insert_at(&mut self, key: String, value: T, ttl: Option<usize>, now: usize)
        ensures
            final(self)@ == stored(old(self)@, key@, value, ttl, now),
    {
        let ttl: usize = match ttl {
            Some(t) => t,
            None => DEFAULT_TTL,
        };
        let entry = CacheEntry::at(value, ttl, now);
        self.entries.insert(key, entry);
    }

    /// The value stored under `key`, if its entry is fresh at time `now`. The
    /// cache itself is left as it is: an expired entry stays in the map.
    pub fn get_at(&self, key: &str, now: usize) -> (found: Option<&T>)
        ensures
            pointee(found) == lookup(self@, key@, now as int),
    {
        match self.entries.get(key) {
            Some(entry) => {
                if entry.is_expired_at(now) {
                    None
                } else {
                    Some(&entry.item)
                }
            },
            None => None,
        }
    }

    /// Stores `value` under `key` with the default time to live, stamped with
    /// the current time.
    pub fn insert(&mut self, key: String, value: T)
        ensures
            stored_now(old(self)@, key@, value, None, final(self)@),
    {
        self.insert_with_ttl(key, value, None);
    }

    /// Stores `value` under `key`, stamped with the current time, replacing
    /// whatever was there.
    pub fn insert_with_ttl(&mut self, key: String, value: T, ttl: Option<usize>)
        ensures
            stored_now(old(self)@, key@, value, ttl, final(self)@),
    {
        let now = unix_seconds();
        let ghost before = self@;
        let ghost k = key@;
        self.insert_at(key, value, ttl, now);
        assert(self@ == stored(before, k, value, ttl, now));
    }

    /// The value stored under `key`, if its entry is fresh by the wall clock:
    /// the answer of `get_at` for the reading of the clock, whatever it is.
    pub fn get(&self, key: &str) -> (found: Option<&T>)
        ensures
            found_now(self@, key@, pointee(found)),
    {
        let now = unix_seconds();
        let found = self.get_at(key, now);
        assert(pointee(found) == lookup(self@, key@, now as int));
        found
    }
}

/// A value written at time `written` is found at time `read` exactly while
/// its age is strictly below its time to live; past that the lookup finds
/// nothing, whatever was stored under the key before.
pub proof fn lemma_written_value_lives_for_ttl<T>(
    entries: Map<Seq<char>, CacheEntry<T>>,
    key: Seq<char>,
    value: T,
    ttl: usize,
    written: usize,
    read: usize,
)
    ensures
        read - written < ttl ==> lookup(stored(entries, key, value, Some(ttl), written), key, read as int)
            == Some(value),
        read - written >= ttl ==> lookup(stored(entries, key, value, Some(ttl), written), key, read as int)
            == None::<T>,
{
}

/// A write under one key changes no lookup under another.
pub proof fn lemma_write_leaves_other_keys<T>(
    entries: Map<Seq<char>, CacheEntry<T>>,
    key: Seq<char>,
    other: Seq<char>,
    value: T,
    ttl: Option<usize>,
    written: usize,
    read: int,
)
    requires
        key != other,
    ensures
        lookup(stored(entries, key, value, ttl, written), other, read) == lookup(entries, other, read),
{
}

} // verus!
