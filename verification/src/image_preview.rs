//! The preview cache of the desktop preview window: media types of served
//! images, normalised cache keys, and a bounded first-in first-out cache of
//! image bytes with exact byte accounting.
use vstd::prelude::*;
use std::sync::Arc;
use crate::image_utils::{is_raw_file, lowercase_extension, spec_is_raw_file};
use crate::text::{chars_of, path_extension, string_from_chars, unicode_lowercase};
use crate::ftp::str_eq;

verus! {

/// Most entries the cache holds.
pub const MAX_CACHE_ENTRIES: usize = 50;

/// Most bytes the cache holds (128 MiB).
pub const MAX_CACHE_BYTES: usize = 134217728;

/// The media type a preview is served with: RAW files are served as their
/// embedded JPEG, so `image/jpeg`; JPEG and HEIF extensions by their type;
/// anything else `application/octet-stream`.
pub open spec fn spec_content_type(p: Seq<char>) -> Seq<char> {
    if spec_is_raw_file(p) {
        "image/jpeg"@
    } else {
        match path_extension(p) {
            Some(e) => {
                let l = unicode_lowercase(e);
                if l == "jpg"@ || l == "jpeg"@ {
                    "image/jpeg"@
                } else if l == "heif"@ || l == "hif"@ || l == "heic"@ {
                    "image/heic"@
                } else {
                    "application/octet-stream"@
                }
            },
            None => "application/octet-stream"@,
        }
    }
}

/// The media type of the preview served for `path`.
pub fn content_type_for(path: &str) -> (r: &'static str)
    ensures
        r@ == spec_content_type(path@),
{
    if is_raw_file(path) {
        return "image/jpeg";
    }
    match lowercase_extension(path) {
        Some(l) => {
            let s = string_from_chars(l.as_slice());
            let e = s.as_str();
            if str_eq(e, "jpg") || str_eq(e, "jpeg") {
                "image/jpeg"
            } else if str_eq(e, "heif") || str_eq(e, "hif") || str_eq(e, "heic") {
                "image/heic"
            } else {
                "application/octet-stream"
            }
        },
        None => "application/octet-stream",
    }
}

/// `s` with every backslash replaced by a slash.
pub open spec fn forward_slashes(s: Seq<char>) -> Seq<char> {
    s.map_values(|c: char| if c == '\\' { '/' } else { c })
}

/// The cache key of a path: separators normalised to `/`, so that the same
/// file spelled with either separator hits the same entry.
pub fn cache_key(path: &str) -> (r: String)
    ensures
        r@ == forward_slashes(path@),
{
    let c = chars_of(path);
    let mut out: Vec<char> = Vec::new();
    let n = c.len();
    let mut i: usize = 0;
    while i < n
        invariant
            n == c@.len(),
            c@ == path@,
            i <= n,
            out@ == forward_slashes(path@.take(i as int)),
        decreases n - i,
    {
        let ch = c[i];
        out.push(if ch == '\\' { '/' } else { ch });
        i = i + 1;
        proof {
            assert(out@ =~= forward_slashes(path@.take(i as int)));
        }
    }
    assert(path@.take(n as int) =~= path@);
    string_from_chars(out.as_slice())
}

/// One cached preview.
pub struct CacheEntry {
    pub key: String,
    pub bytes: Arc<Vec<u8>>,
}

/// Value of an entry: its key and its bytes.
pub open spec fn entry_view(e: CacheEntry) -> (Seq<char>, Seq<u8>) {
    (e.key@, e.bytes@)
}

/// Total size of the entries.
pub open spec fn sum_bytes(s: Seq<(Seq<char>, Seq<u8>)>) -> nat
    decreases s.len(),
{
    if s.len() == 0 {
        0
    } else {
        sum_bytes(s.drop_last()) + s.last().1.len()
    }
}

/// The entries fit the cache's budgets.
pub open spec fn within_budget(s: Seq<(Seq<char>, Seq<u8>)>) -> bool {
    s.len() <= MAX_CACHE_ENTRIES && sum_bytes(s) <= MAX_CACHE_BYTES
}

/// The entries left after evicting the oldest ones until both budgets hold.
pub open spec fn evicted(s: Seq<(Seq<char>, Seq<u8>)>) -> Seq<(Seq<char>, Seq<u8>)>
    decreases s.len(),
{
    if s.len() == 0 || within_budget(s) {
        s
    } else {
        evicted(s.drop_first())
    }
}

/// No key occurs twice.
pub open spec fn unique_keys(s: Seq<(Seq<char>, Seq<u8>)>) -> bool {
    forall|i: int, j: int| 0 <= i < j < s.len() ==> (#[trigger] s[i]).0 != (#[trigger] s[j]).0
}

/// Some entry has `key`.
pub open spec fn has_key(s: Seq<(Seq<char>, Seq<u8>)>, key: Seq<char>) -> bool {
    exists|i: int| 0 <= i < s.len() && (#[trigger] s[i]).0 == key
}

/// Removing the first entry takes its size off the total.
proof fn lemma_sum_drop_first(s: Seq<(Seq<char>, Seq<u8>)>)
    requires
        s.len() > 0,
    ensures
        sum_bytes(s) == s[0].1.len() + sum_bytes(s.drop_first()),
    decreases s.len(),
{
    if s.len() > 1 {
        lemma_sum_drop_first(s.drop_last());
        assert(s.drop_last().drop_first() =~= s.drop_first().drop_last());
        assert(s.drop_last()[0] == s[0]);
        assert(s.drop_first().last() == s.last());
    } else {
        assert(sum_bytes(s.drop_first()) == 0);
        assert(sum_bytes(s.drop_last()) == 0);
        assert(s.last() == s[0]);
    }
}

/// Removing the entry at `i` takes its size off the total.
proof fn lemma_sum_remove(s: Seq<(Seq<char>, Seq<u8>)>, i: int)
    requires
        0 <= i < s.len(),
    ensures
        sum_bytes(s) == s[i].1.len() + sum_bytes(s.remove(i)),
    decreases s.len(),
{
    if i == s.len() - 1 {
        assert(s.remove(i) =~= s.drop_last());
    } else {
        lemma_sum_remove(s.drop_last(), i);
        assert(s.remove(i).drop_last() =~= s.drop_last().remove(i));
        assert(s.remove(i).last() == s.last());
    }
}

/// Eviction drops a prefix: what remains is a suffix of the entries.
proof fn lemma_evicted_suffix(s: Seq<(Seq<char>, Seq<u8>)>)
    ensures
        evicted(s).len() <= s.len(),
        evicted(s) == s.subrange(s.len() - evicted(s).len(), s.len() as int),
    decreases s.len(),
{
    if s.len() == 0 || within_budget(s) {
        assert(s.subrange(0, s.len() as int) =~= s);
    } else {
        let t = s.drop_first();
        lemma_evicted_suffix(t);
        assert(t.subrange(t.len() - evicted(t).len(), t.len() as int) =~= s.subrange(
            s.len() - evicted(t).len(),
            s.len() as int,
        ));
    }
}

/// An entry no larger than the byte budget, appended as the newest,
/// survives eviction as the newest entry.
proof fn lemma_newest_survives(s: Seq<(Seq<char>, Seq<u8>)>, e: (Seq<char>, Seq<u8>))
    requires
        e.1.len() <= MAX_CACHE_BYTES,
    ensures
        evicted(s.push(e)).len() > 0,
        evicted(s.push(e)).last() == e,
    decreases s.len(),
{
    let t = s.push(e);
    if within_budget(t) {
    } else if s.len() == 0 {
        assert(t =~= seq![e]);
        assert(sum_bytes(t.drop_last()) == 0) by {
            assert(t.drop_last() =~= Seq::<(Seq<char>, Seq<u8>)>::empty());
        }
        assert(within_budget(t));
    } else {
        assert(t.drop_first() =~= s.drop_first().push(e));
        lemma_newest_survives(s.drop_first(), e);
    }
}

/// What a read gives back of a write: after freshly loaded bytes for a key
/// not yet cached are inserted (and the cache evicted down to its budgets),
/// the key is cached with exactly those bytes, provided they fit the byte
/// budget on their own.
pub proof fn law_inserted_preview_is_served(s: Seq<(Seq<char>, Seq<u8>)>, key: Seq<char>, bytes: Seq<u8>)
    requires
        unique_keys(s),
        !has_key(s, key),
        bytes.len() <= MAX_CACHE_BYTES,
    ensures
        has_key(evicted(s.push((key, bytes))), key),
        forall|i: int|
            0 <= i < evicted(s.push((key, bytes))).len() && (#[trigger] evicted(s.push((key, bytes)))[i]).0
                == key ==> evicted(s.push((key, bytes)))[i].1 == bytes,
{
    let t = s.push((key, bytes));
    let r = evicted(t);
    lemma_newest_survives(s, (key, bytes));
    lemma_evicted_suffix(t);
    let k = r.len() - 1;
    assert(r[k] == (key, bytes));
    assert forall|i: int| 0 <= i < r.len() && (#[trigger] r[i]).0 == key implies r[i].1 == bytes by {
        let off = t.len() - r.len();
        assert(r[i] == t[off + i]);
        if off + i < s.len() {
            assert(t[off + i] == s[off + i]);
            assert(has_key(s, key));
        }
    }
}

/// The cached previews, oldest first, with their total size.
pub struct ImagePreviewCache {
    entries: Vec<CacheEntry>,
    total_bytes: usize,
}

impl ImagePreviewCache {
    /// Keys and sizes of the cached entries, oldest first.
    pub closed spec fn view_entries(&self) -> Seq<(Seq<char>, Seq<u8>)> {
        self.entries@.map_values(|e: CacheEntry| entry_view(e))
    }

    /// The recorded total size.
    pub closed spec fn total(&self) -> nat {
        self.total_bytes as nat
    }

    /// The accounting holds: each key once, the total equal to the sum of
    /// the entries' sizes.
    pub open spec fn wf(&self) -> bool {
        unique_keys(self.view_entries()) && self.total() == sum_bytes(self.view_entries())
    }

    /// An empty cache.
    pub fn new() -> (r: ImagePreviewCache)
        ensures
            r.view_entries().len() == 0,
            r.total() == 0,
            r.wf(),
    {
        let r = ImagePreviewCache { entries: Vec::new(), total_bytes: 0 };
        assert(r.view_entries() =~= Seq::<(Seq<char>, Seq<u8>)>::empty());
        r
    }

    /// Number of cached entries.
    pub fn len(&self) -> (r: usize)
        ensures
            r == self.view_entries().len(),
    {
        self.entries.len()
    }

    /// The recorded total size in bytes.
    pub fn total_bytes(&self) -> (r: usize)
        ensures
            r == self.total(),
    {
        self.total_bytes
    }

    fn position(&self, key: &str) -> (r: Option<usize>)
        ensures
            match r {
                Some(i) => i < self.view_entries().len() && self.view_entries()[i as int].0 == key@,
                None => !has_key(self.view_entries(), key@),
            },
    {
        let n = self.entries.len();
        let mut i: usize = 0;
        while i < n
            invariant
                n == self.entries@.len(),
                i <= n,
                forall|j: int| 0 <= j < i ==> (#[trigger] self.view_entries()[j]).0 != key@,
            decreases n - i,
        {
            if str_eq(self.entries[i].key.as_str(), key) {
                return Some(i);
            }
            i = i + 1;
        }
        None
    }

    /// Whether an entry has `key`.
    pub fn contains_key(&self, key: &str) -> (r: bool)
        ensures
            r == has_key(self.view_entries(), key@),
    {
        self.position(key).is_some()
    }

    /// The cached bytes for `key`.
    pub fn get(&self, key: &str) -> (r: Option<&Arc<Vec<u8>>>)
        ensures
            match r {
                Some(b) => exists|i: int|
                    0 <= i < self.view_entries().len() && (#[trigger] self.view_entries()[i]).0 == key@
                        && self.view_entries()[i].1 == b@,
                None => !has_key(self.view_entries(), key@),
            },
    {
        match self.position(key) {
            Some(i) => Some(&self.entries[i].bytes),
            None => None,
        }
    }

    /// Appends an entry as the newest, without evicting.
    pub fn push_entry(&mut self, key: String, bytes: Arc<Vec<u8>>)
        requires
            old(self).wf(),
            !has_key(old(self).view_entries(), key@),
            old(self).total() + bytes@.len() <= usize::MAX,
        ensures
            final(self).wf(),
            final(self).view_entries() == old(self).view_entries().push((key@, bytes@)),
            final(self).total() == old(self).total() + bytes@.len(),
    {
        let size = bytes.len();
        let ghost old_view = self.view_entries();
        let ghost content = bytes@;
        self.total_bytes = self.total_bytes + size;
        self.entries.push(CacheEntry { key, bytes });
        proof {
            let v = self.view_entries();
            assert(v =~= old_view.push((key@, content)));
            assert(v.drop_last() =~= old_view);
        }
    }

    /// Evicts the oldest entries until at most `MAX_CACHE_ENTRIES` entries
    /// and `MAX_CACHE_BYTES` bytes remain.
    pub fn evict_over_budget(&mut self)
        requires
            old(self).wf(),
        ensures
            final(self).wf(),
            final(self).view_entries() == evicted(old(self).view_entries()),
            within_budget(final(self).view_entries()),
    {
        let ghost target = evicted(self.view_entries());
        while self.entries.len() > MAX_CACHE_ENTRIES || self.total_bytes > MAX_CACHE_BYTES
            invariant
                self.wf(),
                evicted(self.view_entries()) == target,
            decreases self.entries@.len(),
        {
            proof {
                if self.view_entries().len() == 0 {
                    assert(self.total() == 0);
                }
            }
            let ghost before = self.view_entries();
            let gone = self.entries.remove(0);
            proof {
                lemma_sum_drop_first(before);
                assert(self.view_entries() =~= before.drop_first());
                assert forall|i: int, j: int| 0 <= i < j < self.view_entries().len() implies (
                #[trigger] self.view_entries()[i]).0 != (#[trigger] self.view_entries()[j]).0 by {
                    assert(self.view_entries()[i] == before[i + 1]);
                    assert(self.view_entries()[j] == before[j + 1]);
                }
            }
            self.total_bytes = self.total_bytes - gone.bytes.len();
        }
    }

    /// Caches freshly loaded bytes for `key` and evicts down to the budgets.
    /// When `key` is cached already (loaded concurrently), the cached entry
    /// stays and nothing changes; returns whether the bytes were added.
    pub fn insert_loaded(&mut self, key: String, bytes: Arc<Vec<u8>>) -> (r: bool)
        requires
            old(self).wf(),
            old(self).total() + bytes@.len() <= usize::MAX,
        ensures
            final(self).wf(),
            r == !has_key(old(self).view_entries(), key@),
            r ==> final(self).view_entries() == evicted(
                old(self).view_entries().push((key@, bytes@)),
            ),
            !r ==> final(self).view_entries() == old(self).view_entries() && final(self).total()
                == old(self).total(),
            within_budget(old(self).view_entries()) ==> within_budget(final(self).view_entries()),
    {
        if self.contains_key(key.as_str()) {
            return false;
        }
        self.push_entry(key, bytes);
        self.evict_over_budget();
        true
    }

    /// Drops the entry for `key`, if any, and its bytes from the total.
    pub fn invalidate(&mut self, key: &str)
        requires
            old(self).wf(),
        ensures
            final(self).wf(),
            !has_key(final(self).view_entries(), key@),
            match old(self).position_spec(key@) {
                Some(i) => final(self).view_entries() == old(self).view_entries().remove(i)
                    && final(self).total() == old(self).total() - old(self).view_entries()[i].1.len(),
                None => final(self).view_entries() == old(self).view_entries() && final(self).total()
                    == old(self).total(),
            },
    {
        match self.position(key) {
            Some(i) => {
                let ghost before = self.view_entries();
                proof {
                    lemma_sum_remove(before, i as int);
                    let w = choose|k: int| 0 <= k < before.len() && (#[trigger] before[k]).0 == key@;
                    assert(before[i as int].0 == key@);
                    assert(w == i);
                }
                let gone = self.entries.remove(i);
                self.total_bytes = self.total_bytes - gone.bytes.len();
                proof {
                    assert(self.view_entries() =~= before.remove(i as int));
                    assert forall|a: int, b: int| 0 <= a < b < self.view_entries().len() implies (
                    #[trigger] self.view_entries()[a]).0 != (#[trigger] self.view_entries()[b]).0 by {
                        let a2 = if a < i { a } else { a + 1 };
                        let b2 = if b < i { b } else { b + 1 };
                        assert(self.view_entries()[a] == before[a2]);
                        assert(self.view_entries()[b] == before[b2]);
                    }
                    if has_key(self.view_entries(), key@) {
                        let w = choose|k: int|
                            0 <= k < self.view_entries().len() && (#[trigger] self.view_entries()[k]).0
                                == key@;
                        let w2 = if w < i { w } else { w + 1 };
                        assert(self.view_entries()[w] == before[w2]);
                    }
                }
            },
            None => {},
        }
    }

    /// The position of the entry with `key` (keys are unique).
    pub open spec fn position_spec(&self, key: Seq<char>) -> Option<int> {
        if has_key(self.view_entries(), key) {
            Some(choose|i: int| 0 <= i < self.view_entries().len() && (#[trigger] self.view_entries()[i]).0 == key)
        } else {
            None
        }
    }

    /// In a well-formed cache, `position_spec` is the index of the one entry
    /// with `key`, or `None` when no entry has it.
    pub proof fn lemma_position_spec(&self, key: Seq<char>)
        requires
            self.wf(),
        ensures
            match self.position_spec(key) {
                Some(i) => 0 <= i < self.view_entries().len() && self.view_entries()[i].0 == key && forall|j: int|
                    0 <= j < self.view_entries().len() && #[trigger] self.view_entries()[j].0 == key ==> j == i,
                None => forall|j: int| 0 <= j < self.view_entries().len() ==> #[trigger] self.view_entries()[j].0 != key,
            },
    {
        if has_key(self.view_entries(), key) {
            let i = choose|i: int| 0 <= i < self.view_entries().len() && (#[trigger] self.view_entries()[i]).0 == key;
            assert forall|j: int| 0 <= j < self.view_entries().len() && #[trigger] self.view_entries()[j].0 == key implies j == i by {
                if j < i {
                    assert(self.view_entries()[j].0 != self.view_entries()[i].0);
                } else if j > i {
                    assert(self.view_entries()[i].0 != self.view_entries()[j].0);
                }
            }
        }
    }
}

} // verus!
