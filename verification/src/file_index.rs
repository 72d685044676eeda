//! The index of received images, newest first: insertion at the sorted
//! position, EXIF backfill of stale entries, removal, the merge of a
//! directory scan with uploads indexed meanwhile, and the current-file cursor
//! that follows these changes.
use vstd::prelude::*;
use crate::error::AppError;
use crate::ftp::str_eq;

verus! {

broadcast use vstd::seq_lib::group_to_multiset_ensures;

/// One indexed image. Times are nanoseconds since the Unix epoch; `sort_time`
/// is milliseconds since the epoch of the EXIF capture time when there is
/// one, else of the modification time.
#[derive(Debug)]
pub struct FileInfo {
    pub path: String,
    pub filename: String,
    pub exif_time: Option<i128>,
    pub modified_time: i128,
    pub sort_time: u64,
}

impl FileInfo {
    /// An identical copy.
    pub fn copy(&self) -> (r: FileInfo)
        ensures
            r == *self,
    {
        FileInfo {
            path: self.path.clone(),
            filename: self.filename.clone(),
            exif_time: self.exif_time,
            modified_time: self.modified_time,
            sort_time: self.sort_time,
        }
    }
}

/// `a` sorts before or together with `b`: a later sort time, or the same
/// sort time and a modification time no earlier.
pub open spec fn key_ge(a: FileInfo, b: FileInfo) -> bool {
    a.sort_time > b.sort_time || (a.sort_time == b.sort_time && a.modified_time >= b.modified_time)
}

/// `a` is strictly older than `b` in the index order.
pub open spec fn older(a: FileInfo, b: FileInfo) -> bool {
    a.sort_time < b.sort_time || (a.sort_time == b.sort_time && a.modified_time < b.modified_time)
}

/// Newest first: sort time descending, then modification time descending.
pub open spec fn sorted_newest_first(s: Seq<FileInfo>) -> bool {
    forall|i: int, j: int| 0 <= i < j < s.len() ==> key_ge(#[trigger] s[i], #[trigger] s[j])
}

/// No path occurs twice.
pub open spec fn unique_paths(s: Seq<FileInfo>) -> bool {
    forall|i: int, j: int| 0 <= i < j < s.len() ==> (#[trigger] s[i]).path@ != (#[trigger] s[j]).path@
}

/// Some entry has path `p`.
pub open spec fn has_path(s: Seq<FileInfo>, p: Seq<char>) -> bool {
    exists|i: int| 0 <= i < s.len() && (#[trigger] s[i]).path@ == p
}

/// The position of the first entry with path `p`.
pub open spec fn find_path(s: Seq<FileInfo>, p: Seq<char>) -> Option<int>
    decreases s.len(),
{
    if s.len() == 0 {
        None
    } else if s[0].path@ == p {
        Some(0)
    } else {
        match find_path(s.drop_first(), p) {
            Some(i) => Some(i + 1),
            None => None,
        }
    }
}

/// The position where `x` is inserted: before the first entry strictly
/// older than it (after all entries that sort with it), else at the end.
pub open spec fn insert_index(s: Seq<FileInfo>, x: FileInfo) -> int
    decreases s.len(),
{
    if s.len() == 0 {
        0
    } else if older(s[0], x) {
        0
    } else {
        insert_index(s.drop_first(), x) + 1
    }
}

/// `s` with `x` inserted at its sorted position.
pub open spec fn insert_sorted(s: Seq<FileInfo>, x: FileInfo) -> Seq<FileInfo> {
    s.insert(insert_index(s, x), x)
}

/// `s` sorted newest first by inserting its files one at a time, each after
/// the files that are not older than it, so that files with equal keys keep
/// their order (a stable sort).
pub open spec fn insertion_sorted(s: Seq<FileInfo>) -> Seq<FileInfo>
    decreases s.len(),
{
    if s.len() == 0 {
        Seq::empty()
    } else {
        insert_sorted(insertion_sorted(s.drop_last()), s.last())
    }
}

/// `k` is the first position with path `p` (`s.len()` when there is none).
proof fn lemma_find_path(s: Seq<FileInfo>, p: Seq<char>, k: int)
    requires
        0 <= k <= s.len(),
        forall|j: int| 0 <= j < k ==> (#[trigger] s[j]).path@ != p,
        k < s.len() ==> s[k].path@ == p,
    ensures
        find_path(s, p) == (if k < s.len() { Some(k) } else { None::<int> }),
    decreases s.len(),
{
    if s.len() > 0 && k > 0 {
        let t = s.drop_first();
        assert forall|j: int| 0 <= j < k - 1 implies (#[trigger] t[j]).path@ != p by {
            assert(t[j] == s[j + 1]);
        }
        if k - 1 < t.len() {
            assert(t[k - 1] == s[k]);
        }
        lemma_find_path(t, p, k - 1);
        assert(s[0].path@ != p);
    }
}

/// `k` is the first position strictly older than `x` (`s.len()` when none).
proof fn lemma_insert_index(s: Seq<FileInfo>, x: FileInfo, k: int)
    requires
        0 <= k <= s.len(),
        forall|j: int| 0 <= j < k ==> !older(#[trigger] s[j], x),
        k < s.len() ==> older(s[k], x),
    ensures
        insert_index(s, x) == k,
    decreases s.len(),
{
    if s.len() > 0 && k > 0 {
        let t = s.drop_first();
        assert forall|j: int| 0 <= j < k - 1 implies !older(#[trigger] t[j], x) by {
            assert(t[j] == s[j + 1]);
        }
        if k - 1 < t.len() {
            assert(t[k - 1] == s[k]);
        }
        lemma_insert_index(t, x, k - 1);
        assert(!older(s[0], x));
    }
}

/// `find_path` gives a position holding `p`, preceded by no other, and is
/// `None` exactly when no entry has `p`.
proof fn lemma_find_path_props(s: Seq<FileInfo>, p: Seq<char>)
    ensures
        match find_path(s, p) {
            Some(i) => 0 <= i < s.len() && s[i].path@ == p && forall|j: int|
                0 <= j < i ==> (#[trigger] s[j]).path@ != p,
            None => !has_path(s, p),
        },
    decreases s.len(),
{
    if s.len() > 0 && s[0].path@ != p {
        let t = s.drop_first();
        lemma_find_path_props(t, p);
        match find_path(t, p) {
            Some(i) => {
                assert(t[i] == s[i + 1]);
                assert forall|j: int| 0 <= j < i + 1 implies (#[trigger] s[j]).path@ != p by {
                    if j > 0 {
                        assert(s[j] == t[j - 1]);
                    }
                }
            },
            None => {
                if has_path(s, p) {
                    let w = choose|i: int| 0 <= i < s.len() && (#[trigger] s[i]).path@ == p;
                    assert(t[w - 1] == s[w]);
                }
            },
        }
    }
}

/// `insert_index` lies within the sequence and splits it into entries that
/// sort with or before `x` and entries strictly older.
proof fn lemma_insert_index_props(s: Seq<FileInfo>, x: FileInfo)
    ensures
        0 <= insert_index(s, x) <= s.len(),
        forall|j: int| 0 <= j < insert_index(s, x) ==> !older(#[trigger] s[j], x),
        insert_index(s, x) < s.len() ==> older(s[insert_index(s, x)], x),
    decreases s.len(),
{
    if s.len() > 0 && !older(s[0], x) {
        let t = s.drop_first();
        lemma_insert_index_props(t, x);
        assert forall|j: int| 0 <= j < insert_index(s, x) implies !older(#[trigger] s[j], x) by {
            if j > 0 {
                assert(s[j] == t[j - 1]);
            }
        }
        if insert_index(s, x) < s.len() {
            assert(s[insert_index(s, x)] == t[insert_index(t, x)]);
        }
    }
}

/// Inserting at the sorted position keeps a newest-first sequence sorted.
pub proof fn lemma_insert_sorted_keeps_order(s: Seq<FileInfo>, x: FileInfo)
    requires
        sorted_newest_first(s),
    ensures
        sorted_newest_first(insert_sorted(s, x)),
        insert_sorted(s, x).len() == s.len() + 1,
        insert_sorted(s, x).to_multiset() == s.to_multiset().insert(x),
{
    lemma_insert_index_props(s, x);
    let k = insert_index(s, x);
    let r = s.insert(k, x);
    assert forall|i: int, j: int| 0 <= i < j < r.len() implies key_ge(#[trigger] r[i], #[trigger] r[j]) by {
        if j < k {
            assert(r[i] == s[i] && r[j] == s[j]);
        } else if j == k {
            assert(r[i] == s[i]);
            assert(!older(s[i], x));
        } else if i == k {
            assert(r[j] == s[j - 1]);
            assert(older(s[k], x));
            if j - 1 > k {
                assert(key_ge(s[k], s[j - 1]));
            }
        } else if i < k {
            assert(r[i] == s[i] && r[j] == s[j - 1]);
        } else {
            assert(r[i] == s[i - 1] && r[j] == s[j - 1]);
        }
    }
}

/// The cursor after removing the entry at `removed` from a list now `new_len`
/// long: cleared when the list became empty, moved back when an earlier
/// entry went, clamped to the last entry when the current one was the last.
pub open spec fn spec_adjust(current: Option<usize>, removed: int, new_len: int) -> Option<usize> {
    match current {
        None => None,
        Some(c) => if new_len == 0 {
            None
        } else if removed < c {
            Some((c - 1) as usize)
        } else if removed == c && c >= new_len {
            Some((new_len - 1) as usize)
        } else {
            Some(c)
        },
    }
}

/// The cursor after an entry was inserted at `k`: an entry inserted at or
/// before it moves it one place on.
pub open spec fn cursor_after_insert(current: Option<usize>, k: int) -> Option<usize> {
    match current {
        None => None,
        Some(c) => if k <= c {
            Some((c + 1) as usize)
        } else {
            Some(c)
        },
    }
}

/// The entries before `x` is inserted: without the stale entry at `pos`
/// when there is one.
pub open spec fn add_base(s: Seq<FileInfo>, stale: Option<int>) -> Seq<FileInfo> {
    match stale {
        Some(pos) => s.remove(pos),
        None => s,
    }
}

/// The cursor after adding `x` (replacing the stale entry at `stale`, if
/// any): the removal and the insertion move it as they do, except that a
/// cursor on the stale entry follows the entry to its new position.
pub open spec fn cursor_after_add(
    current: Option<usize>,
    s: Seq<FileInfo>,
    stale: Option<int>,
    x: FileInfo,
) -> Option<usize> {
    let base = add_base(s, stale);
    let k = insert_index(base, x);
    match stale {
        Some(pos) => if current == Some(pos as usize) {
            Some(k as usize)
        } else {
            cursor_after_insert(spec_adjust(current, pos, s.len() - 1), k)
        },
        None => cursor_after_insert(current, k),
    }
}

/// Adding `x` replaces an entry with the same path only when that entry
/// lacks the EXIF time and `x` has it; an entry with the same path is
/// otherwise kept and `x` dropped.
pub open spec fn add_skipped(s: Seq<FileInfo>, x: FileInfo) -> bool {
    match find_path(s, x.path@) {
        Some(pos) => s[pos].exif_time is Some || x.exif_time is None,
        None => false,
    }
}

/// The entries after adding `x`.
pub open spec fn added(s: Seq<FileInfo>, x: FileInfo) -> Seq<FileInfo> {
    insert_sorted(add_base(s, find_path(s, x.path@)), x)
}

/// The cursor after adding `x`.
pub open spec fn cursor_added(cur: Option<usize>, s: Seq<FileInfo>, x: FileInfo) -> Option<usize> {
    cursor_after_add(cur, s, find_path(s, x.path@), x)
}

/// Removing an entry keeps the order and the uniqueness of paths.
proof fn lemma_remove_keeps(s: Seq<FileInfo>, pos: int)
    requires
        0 <= pos < s.len(),
        sorted_newest_first(s),
        unique_paths(s),
    ensures
        sorted_newest_first(s.remove(pos)),
        unique_paths(s.remove(pos)),
        forall|i: int| 0 <= i < pos ==> #[trigger] s.remove(pos)[i] == s[i],
        forall|i: int| pos <= i < s.len() - 1 ==> #[trigger] s.remove(pos)[i] == s[i + 1],
{
    let r = s.remove(pos);
    assert forall|i: int, j: int| 0 <= i < j < r.len() implies key_ge(#[trigger] r[i], #[trigger] r[j])
        && r[i].path@ != r[j].path@ by {
        let i2 = if i < pos { i } else { i + 1 };
        let j2 = if j < pos { j } else { j + 1 };
        assert(r[i] == s[i2] && r[j] == s[j2]);
    }
}

/// The entries other than the replaced one carry other paths than `x`.
proof fn lemma_add_base_lacks_path(s: Seq<FileInfo>, x: FileInfo)
    requires
        unique_paths(s),
        sorted_newest_first(s),
    ensures
        sorted_newest_first(add_base(s, find_path(s, x.path@))),
        unique_paths(add_base(s, find_path(s, x.path@))),
        forall|i: int|
            0 <= i < add_base(s, find_path(s, x.path@)).len() ==> (#[trigger] add_base(
                s,
                find_path(s, x.path@),
            )[i]).path@ != x.path@,
{
    let p = x.path@;
    lemma_find_path_props(s, p);
    let stale = find_path(s, p);
    let base = add_base(s, stale);
    match stale {
        Some(pos) => {
            lemma_remove_keeps(s, pos);
            assert forall|i: int| 0 <= i < base.len() implies (#[trigger] base[i]).path@ != p by {
                if i < pos {
                    assert(base[i] == s[i]);
                } else {
                    assert(base[i] == s[i + 1]);
                }
            }
        },
        None => {},
    }
}

/// Adding a file to a well-formed index keeps the order and the uniqueness
/// of paths, and adds exactly that file (after removing the stale entry it
/// replaces).
pub proof fn lemma_add_keeps_index(s: Seq<FileInfo>, x: FileInfo)
    requires
        sorted_newest_first(s),
        unique_paths(s),
        !add_skipped(s, x),
    ensures
        sorted_newest_first(added(s, x)),
        unique_paths(added(s, x)),
        added(s, x).to_multiset() == add_base(s, find_path(s, x.path@)).to_multiset().insert(x),
{
    lemma_add_base_lacks_path(s, x);
    let base = add_base(s, find_path(s, x.path@));
    lemma_insert_sorted_keeps_order(base, x);
    lemma_insert_index_props(base, x);
    let k = insert_index(base, x);
    let t = insert_sorted(base, x);
    assert forall|i: int, j: int| 0 <= i < j < t.len() implies (#[trigger] t[i]).path@ != (
    #[trigger] t[j]).path@ by {
        if i < k {
            assert(t[i] == base[i]);
        } else if i > k {
            assert(t[i] == base[i - 1]);
        }
        if j < k {
            assert(t[j] == base[j]);
        } else if j > k {
            assert(t[j] == base[j - 1]);
        }
    }
}

/// Adding a file keeps the cursor on the file it pointed at, or on the new
/// entry when it pointed at the stale entry that the new one replaces.
pub proof fn lemma_add_keeps_cursor(s: Seq<FileInfo>, cur: Option<usize>, x: FileInfo)
    requires
        unique_paths(s),
        cursor_valid(s, cur),
        !add_skipped(s, x),
        s.len() < usize::MAX,
    ensures
        cursor_valid(added(s, x), cursor_added(cur, s, x)),
        cur is Some && s[cur.unwrap() as int].path@ != x.path@ ==> cursor_added(cur, s, x) is Some
            && added(s, x)[cursor_added(cur, s, x).unwrap() as int] == s[cur.unwrap() as int],
        cur is Some && s[cur.unwrap() as int].path@ == x.path@ ==> cursor_added(cur, s, x) is Some
            && added(s, x)[cursor_added(cur, s, x).unwrap() as int] == x,
{
    let p = x.path@;
    lemma_find_path_props(s, p);
    let stale = find_path(s, p);
    let base = add_base(s, stale);
    lemma_insert_index_props(base, x);
    let k = insert_index(base, x);
    let t = insert_sorted(base, x);
    assert(t[k] == x);
    match cur {
        Some(c) => {
            match stale {
                Some(pos) => {
                    if c as int == pos {
                    } else {
                        assert(s[c as int].path@ != p) by {
                            if s[c as int].path@ == p {
                                if c < pos {
                                } else {
                                    assert(s[pos].path@ == s[c as int].path@);
                                }
                            }
                        }
                        let c1 = spec_adjust(cur, pos, s.len() - 1);
                        if pos < c {
                            assert(base[c - 1] == s[c as int]);
                        } else {
                            assert(base[c as int] == s[c as int]);
                        }
                        let d1 = c1.unwrap();
                        if k <= d1 {
                            assert(t[d1 + 1] == base[d1 as int]);
                        } else {
                            assert(t[d1 as int] == base[d1 as int]);
                        }
                    }
                },
                None => {
                    if k <= c {
                        assert(t[c + 1] == base[c as int]);
                    } else {
                        assert(t[c as int] == base[c as int]);
                    }
                },
            }
        },
        None => {},
    }
}

/// Removing the entry with path `p` from a well-formed index keeps it well
/// formed, leaves no entry with `p`, and keeps the cursor on the file it
/// pointed at unless that file was the one removed.
pub proof fn lemma_remove_keeps_index(s: Seq<FileInfo>, cur: Option<usize>, p: Seq<char>)
    requires
        sorted_newest_first(s),
        unique_paths(s),
        cursor_valid(s, cur),
        has_path(s, p),
    ensures
        ({
            let pos = find_path(s, p).unwrap();
            let t = s.remove(pos);
            let c2 = spec_adjust(cur, pos, s.len() - 1);
            &&& sorted_newest_first(t)
            &&& unique_paths(t)
            &&& cursor_valid(t, c2)
            &&& !has_path(t, p)
            &&& t.to_multiset() == s.to_multiset().remove(s[pos])
            &&& (cur is Some && s[cur.unwrap() as int].path@ != p ==> c2 is Some && t[c2.unwrap() as int]
                == s[cur.unwrap() as int])
        }),
{
    lemma_find_path_props(s, p);
    let pos = find_path(s, p).unwrap();
    lemma_remove_keeps(s, pos);
    let t = s.remove(pos);
    if has_path(t, p) {
        let w = choose|i: int| 0 <= i < t.len() && (#[trigger] t[i]).path@ == p;
        if w < pos {
            assert(t[w] == s[w]);
        } else {
            assert(t[w] == s[w + 1]);
        }
    }
    match cur {
        Some(c) => {
            if s[c as int].path@ != p {
                assert(c as int != pos);
                if pos < c {
                    assert(t[c - 1] == s[c as int]);
                } else {
                    assert(t[c as int] == s[c as int]);
                }
            }
        },
        None => {},
    }
}

/// Removing a file that was just added to an index without it gives back
/// the index as it was: the same entries in the same order, and the same
/// cursor.
pub proof fn law_remove_undoes_add(s: Seq<FileInfo>, cur: Option<usize>, x: FileInfo)
    requires
        sorted_newest_first(s),
        unique_paths(s),
        cursor_valid(s, cur),
        !has_path(s, x.path@),
        s.len() < usize::MAX,
    ensures
        find_path(added(s, x), x.path@) is Some,
        added(s, x).remove(find_path(added(s, x), x.path@).unwrap()) == s,
        spec_adjust(
            cursor_added(cur, s, x),
            find_path(added(s, x), x.path@).unwrap(),
            added(s, x).len() - 1,
        ) == cur,
{
    let p = x.path@;
    lemma_find_path_props(s, p);
    assert(find_path(s, p) is None);
    lemma_insert_index_props(s, x);
    let k = insert_index(s, x);
    let t = added(s, x);
    assert(t == s.insert(k, x));
    assert(t[k] == x);
    assert forall|j: int| 0 <= j < k implies (#[trigger] t[j]).path@ != p by {
        assert(t[j] == s[j]);
    }
    lemma_find_path(t, p, k);
    assert(t.remove(k) =~= s);
}

/// An indexed entry survives a scan when the scan did not see its path and
/// it was not indexed when the scan started: it was added during the scan.
pub open spec fn survives_scan(f: FileInfo, scanned: Seq<FileInfo>, pre_scan: Seq<String>) -> bool {
    !has_path(scanned, f.path@) && !(exists|i: int| 0 <= i < pre_scan.len() && (#[trigger] pre_scan[i])@ == f.path@)
}

/// The entries of `existing` that survive the scan, in their order.
pub open spec fn scan_survivors(existing: Seq<FileInfo>, scanned: Seq<FileInfo>, pre_scan: Seq<String>) -> Seq<
    FileInfo,
>
    decreases existing.len(),
{
    if existing.len() == 0 {
        Seq::empty()
    } else {
        let rest = scan_survivors(existing.drop_last(), scanned, pre_scan);
        if survives_scan(existing.last(), scanned, pre_scan) {
            rest.push(existing.last())
        } else {
            rest
        }
    }
}

/// Whether some entry has `path`.
fn path_in(files: &[FileInfo], path: &str) -> (r: bool)
    ensures
        r == has_path(files@, path@),
{
    let n = files.len();
    let mut i: usize = 0;
    while i < n
        invariant
            n == files@.len(),
            i <= n,
            forall|j: int| 0 <= j < i ==> (#[trigger] files@[j]).path@ != path@,
        decreases n - i,
    {
        if str_eq(files[i].path.as_str(), path) {
            return true;
        }
        i = i + 1;
    }
    false
}

/// Whether `path` is one of `paths`.
fn string_in(paths: &[String], path: &str) -> (r: bool)
    ensures
        r == exists|i: int| 0 <= i < paths@.len() && (#[trigger] paths@[i])@ == path@,
{
    let n = paths.len();
    let mut i: usize = 0;
    while i < n
        invariant
            n == paths@.len(),
            i <= n,
            forall|j: int| 0 <= j < i ==> (#[trigger] paths@[j])@ != path@,
        decreases n - i,
    {
        if str_eq(paths[i].as_str(), path) {
            return true;
        }
        i = i + 1;
    }
    false
}

/// The sorted insertion position of `x` in `files`.
fn insert_position_in(files: &Vec<FileInfo>, x: &FileInfo) -> (r: usize)
    ensures
        r == insert_index(files@, *x),
{
    let n = files.len();
    let mut i: usize = 0;
    while i < n
        invariant
            n == files@.len(),
            i <= n,
            forall|j: int| 0 <= j < i ==> !older(#[trigger] files@[j], *x),
        decreases n - i,
    {
        let f = &files[i];
        if f.sort_time < x.sort_time || (f.sort_time == x.sort_time && f.modified_time < x.modified_time) {
            proof {
                lemma_insert_index(files@, *x, i as int);
            }
            return i;
        }
        i = i + 1;
    }
    proof {
        lemma_insert_index(files@, *x, n as int);
    }
    n
}

/// The index of images with the viewer's current position.
#[derive(Debug)]
pub struct FileIndex {
    files: Vec<FileInfo>,
    pub current_index: Option<usize>,
}

/// The cursor is on an entry (or absent).
pub open spec fn cursor_valid(s: Seq<FileInfo>, c: Option<usize>) -> bool {
    match c {
        Some(i) => i < s.len(),
        None => true,
    }
}

impl FileIndex {
    /// The indexed files, in order.
    pub closed spec fn entries(&self) -> Seq<FileInfo> {
        self.files@
    }

    /// The current position.
    pub closed spec fn cursor(&self) -> Option<usize> {
        self.current_index
    }

    /// The index as kept by its operations: newest first, each path once,
    /// the cursor on an entry.
    pub closed spec fn wf(&self) -> bool {
        &&& sorted_newest_first(self.entries())
        &&& unique_paths(self.entries())
        &&& cursor_valid(self.entries(), self.cursor())
    }

    /// What well-formedness means.
    pub proof fn lemma_wf_iff(&self)
        ensures
            self.wf() <==> (sorted_newest_first(self.entries()) && unique_paths(self.entries())
                && cursor_valid(self.entries(), self.cursor())),
    {
    }

    /// An empty index with no current file.
    pub fn new() -> (r: FileIndex)
        ensures
            r.entries().len() == 0,
            r.cursor() is None,
            r.wf(),
    {
        FileIndex { files: Vec::new(), current_index: None }
    }

    /// The indexed files, newest first.
    pub fn files(&self) -> (r: &Vec<FileInfo>)
        ensures
            r@ == self.entries(),
    {
        &self.files
    }

    /// Replaces the files wholesale (the cursor is left as it is).
    pub fn set_files(&mut self, new_files: Vec<FileInfo>)
        ensures
            final(self).entries() == new_files@,
            final(self).cursor() == old(self).cursor(),
    {
        self.files = new_files;
    }

    /// The position of the first file with `path`.
    pub fn position_of(&self, path: &str) -> (r: Option<usize>)
        ensures
            match r {
                Some(i) => find_path(self.entries(), path@) == Some(i as int),
                None => find_path(self.entries(), path@) is None,
            },
    {
        let n = self.files.len();
        let mut i: usize = 0;
        while i < n
            invariant
                n == self.files@.len(),
                i <= n,
                forall|j: int| 0 <= j < i ==> (#[trigger] self.files@[j]).path@ != path@,
            decreases n - i,
        {
            if str_eq(self.files[i].path.as_str(), path) {
                proof {
                    lemma_find_path(self.files@, path@, i as int);
                }
                return Some(i);
            }
            i = i + 1;
        }
        proof {
            lemma_find_path(self.files@, path@, n as int);
        }
        None
    }

    /// Whether some file has `path`.
    pub fn contains_path(&self, path: &str) -> (r: bool)
        ensures
            r == has_path(self.entries(), path@),
    {
        proof {
            lemma_find_path_props(self.files@, path@);
        }
        self.position_of(path).is_some()
    }

    /// Whether a file at `path` still needs indexing: it is not indexed, or
    /// an entry for it lacks the EXIF capture time.
    pub fn needs_indexing(&self, path: &str) -> (r: bool)
        ensures
            r == (!has_path(self.entries(), path@) || exists|i: int|
                0 <= i < self.entries().len() && (#[trigger] self.entries()[i]).path@ == path@
                    && self.entries()[i].exif_time is None),
    {
        let n = self.files.len();
        let mut i: usize = 0;
        let mut found = false;
        while i < n
            invariant
                n == self.files@.len(),
                i <= n,
                found == exists|j: int| 0 <= j < i && (#[trigger] self.files@[j]).path@ == path@,
                forall|j: int|
                    0 <= j < i && (#[trigger] self.files@[j]).path@ == path@ ==> self.files@[j].exif_time
                        is Some,
            decreases n - i,
        {
            if str_eq(self.files[i].path.as_str(), path) {
                if self.files[i].exif_time.is_none() {
                    return true;
                }
                found = true;
            }
            i = i + 1;
        }
        !found
    }

    /// Where `info` would be inserted: before the first file strictly older.
    pub fn insert_position(&self, info: &FileInfo) -> (r: usize)
        ensures
            r == insert_index(self.entries(), *info),
    {
        insert_position_in(&self.files, info)
    }

    /// Moves the cursor after the entry at `removed_pos` was removed, leaving
    /// `new_len` entries.
    pub fn adjust_current_index_after_removal(current_index: &mut Option<usize>, removed_pos: usize, new_len: usize)
        ensures
            *final(current_index) == spec_adjust(*old(current_index), removed_pos as int, new_len as int),
    {
        if let Some(current) = *current_index {
            if new_len == 0 {
                *current_index = None;
            } else if removed_pos < current {
                *current_index = Some(current - 1);
            } else if removed_pos == current && current >= new_len {
                *current_index = Some(new_len - 1);
            }
        }
    }

    /// Removes the file with `path`, moving the cursor as
    /// `adjust_current_index_after_removal` does; false when no file has it.
    pub fn remove_file(&mut self, path: &str) -> (r: bool)
        ensures
            r == has_path(old(self).entries(), path@),
            match find_path(old(self).entries(), path@) {
                Some(pos) => final(self).entries() == old(self).entries().remove(pos) && final(self).cursor()
                    == spec_adjust(old(self).cursor(), pos, old(self).entries().len() - 1),
                None => final(self).entries() == old(self).entries() && final(self).cursor()
                    == old(self).cursor(),
            },
            old(self).wf() ==> final(self).wf() && !has_path(final(self).entries(), path@),
            r && old(self).wf() && old(self).cursor() is Some && old(self).entries()[old(self).cursor().unwrap() as int].path@
                != path@ ==> final(self).cursor() is Some && final(self).entries()[final(self).cursor().unwrap() as int]
                == old(self).entries()[old(self).cursor().unwrap() as int],
    {
        proof {
            lemma_find_path_props(self.files@, path@);
            if self.wf() && has_path(self.files@, path@) {
                lemma_remove_keeps_index(self.files@, self.current_index, path@);
            }
        }
        match self.position_of(path) {
            Some(pos) => {
                self.files.remove(pos);
                let new_len = self.files.len();
                Self::adjust_current_index_after_removal(&mut self.current_index, pos, new_len);
                true
            },
            None => false,
        }
    }

    /// The file at `index`; an error when it is out of bounds.
    pub fn file_at(&self, index: usize) -> (r: Result<FileInfo, AppError>)
        ensures
            index < self.entries().len() ==> r == Ok::<FileInfo, AppError>(self.entries()[index as int]),
            index >= self.entries().len() ==> (r matches Err(AppError::Other(m)) && m@
                == "Index out of bounds"@),
    {
        if index >= self.files.len() {
            return Err(AppError::Other(String::from_str("Index out of bounds")));
        }
        Ok(self.files[index].copy())
    }

    /// The newest file, if any.
    pub fn latest(&self) -> (r: Option<FileInfo>)
        ensures
            self.entries().len() == 0 ==> r is None,
            self.entries().len() > 0 ==> r == Some(self.entries()[0]),
    {
        if self.files.len() == 0 {
            None
        } else {
            Some(self.files[0].copy())
        }
    }

    /// Sets the cursor.
    pub fn set_current_index(&mut self, index: usize)
        ensures
            final(self).cursor() == Some(index),
            final(self).entries() == old(self).entries(),
    {
        self.current_index = Some(index);
    }

    /// Commits a scan: the merged files replace the index and the cursor goes
    /// to the newest file (none when empty).
    pub fn commit_scan(&mut self, merged: Vec<FileInfo>)
        ensures
            final(self).entries() == merged@,
            final(self).cursor() == (if merged@.len() == 0 { None } else { Some(0usize) }),
    {
        self.current_index = if merged.len() == 0 { None } else { Some(0) };
        self.files = merged;
    }

    /// Adds a file (an upload or a file that appeared on disk). A file whose
    /// path is indexed already is skipped unless the indexed entry lacks the
    /// EXIF time and the new one has it: then the stale entry is removed and
    /// the new one inserted. The file goes to its sorted position (before the
    /// first strictly older file), and the cursor keeps pointing at the file
    /// it pointed at. Returns whether the index changed.
    pub fn add_file(&mut self, info: FileInfo) -> (r: bool)
        requires
            old(self).entries().len() < usize::MAX,
            old(self).cursor() matches Some(c) ==> c < usize::MAX,
        ensures
            r == !add_skipped(old(self).entries(), info),
            !r ==> final(self).entries() == old(self).entries() && final(self).cursor() == old(self).cursor(),
            r ==> final(self).entries() == insert_sorted(
                add_base(old(self).entries(), find_path(old(self).entries(), info.path@)),
                info,
            ),
            r ==> final(self).cursor() == cursor_after_add(
                old(self).cursor(),
                old(self).entries(),
                find_path(old(self).entries(), info.path@),
                info,
            ),
            r && old(self).wf() ==> final(self).wf(),
            r && old(self).wf() ==> final(self).entries().to_multiset() == add_base(
                old(self).entries(),
                find_path(old(self).entries(), info.path@),
            ).to_multiset().insert(info),
            r && old(self).wf() && old(self).cursor() is Some && old(self).entries()[old(self).cursor().unwrap() as int].path@
                != info.path@ ==> final(self).cursor() is Some && final(self).entries()[final(self).cursor().unwrap() as int]
                == old(self).entries()[old(self).cursor().unwrap() as int],
            r && old(self).wf() && old(self).cursor() is Some && old(self).entries()[old(self).cursor().unwrap() as int].path@
                == info.path@ ==> final(self).cursor() is Some && final(self).entries()[final(self).cursor().unwrap() as int]
                == info,
    {
        proof {
            lemma_find_path_props(self.files@, info.path@);
            if self.wf() && !add_skipped(self.files@, info) {
                lemma_add_keeps_index(self.files@, info);
                lemma_add_keeps_cursor(self.files@, self.current_index, info);
            }
        }
        let found = self.position_of(info.path.as_str());
        let mut was_current = false;
        if let Some(pos) = found {
            let existing_has_exif = self.files[pos].exif_time.is_some();
            was_current = match self.current_index {
                Some(c) => c == pos,
                None => false,
            };
            if existing_has_exif || info.exif_time.is_none() {
                return false;
            }
            self.files.remove(pos);
            let new_len = self.files.len();
            Self::adjust_current_index_after_removal(&mut self.current_index, pos, new_len);
        }
        let insert_pos = self.insert_position(&info);
        proof {
            lemma_insert_index_props(self.files@, info);
        }
        self.files.insert(insert_pos, info);
        if let Some(current) = self.current_index {
            if insert_pos <= current {
                self.current_index = Some(current + 1);
            }
        }
        if was_current {
            self.current_index = Some(insert_pos);
        }
        true
    }

    /// Merges a directory scan with the index: the scanned files (with their
    /// fresh metadata), plus the indexed files added while the scan ran (path
    /// neither scanned nor indexed when the scan started); files indexed
    /// before the scan but no longer found are dropped. The result is sorted
    /// newest first.
    pub fn merge_scan_result(scanned: Vec<FileInfo>, existing: &[FileInfo], pre_scan_paths: &[String]) -> (r: Vec<
        FileInfo,
    >)
        ensures
            r@ == insertion_sorted(scanned@ + scan_survivors(existing@, scanned@, pre_scan_paths@)),
            sorted_newest_first(r@),
            r@.to_multiset() == (scanned@ + scan_survivors(existing@, scanned@, pre_scan_paths@)).to_multiset(),
    {
        let ghost survivors = scan_survivors(existing@, scanned@, pre_scan_paths@);
        let mut merged: Vec<FileInfo> = Vec::new();
        let sn = scanned.len();
        let mut i: usize = 0;
        while i < sn
            invariant
                sn == scanned@.len(),
                i <= sn,
                merged@ == scanned@.take(i as int),
            decreases sn - i,
        {
            merged.push(scanned[i].copy());
            i = i + 1;
            proof {
                assert(merged@ =~= scanned@.take(i as int));
            }
        }
        assert(merged@ =~= scanned@);
        let en = existing.len();
        let mut e: usize = 0;
        while e < en
            invariant
                en == existing@.len(),
                e <= en,
                merged@ == scanned@ + scan_survivors(existing@.take(e as int), scanned@, pre_scan_paths@),
            decreases en - e,
        {
            let f = &existing[e];
            let keep = !path_in(scanned.as_slice(), f.path.as_str()) && !string_in(
                pre_scan_paths,
                f.path.as_str(),
            );
            proof {
                assert(existing@.take(e + 1).drop_last() =~= existing@.take(e as int));
                assert(existing@.take(e + 1).last() == existing@[e as int]);
            }
            if keep {
                merged.push(f.copy());
            }
            e = e + 1;
        }
        assert(existing@.take(en as int) =~= existing@);
        let mut result: Vec<FileInfo> = Vec::new();
        let mn = merged.len();
        let mut m: usize = 0;
        while m < mn
            invariant
                mn == merged@.len(),
                m <= mn,
                sorted_newest_first(result@),
                result@.to_multiset() == merged@.take(m as int).to_multiset(),
                result@.len() == m,
                result@ == insertion_sorted(merged@.take(m as int)),
            decreases mn - m,
        {
            let x = merged[m].copy();
            let k = insert_position_in(&result, &x);
            let ghost before = result@;
            proof {
                lemma_insert_index_props(result@, x);
                lemma_insert_sorted_keeps_order(result@, x);
                assert(merged@.take(m + 1) =~= merged@.take(m as int).push(x));
                assert(merged@.take(m + 1).drop_last() =~= merged@.take(m as int));
            }
            result.insert(k, x);
            proof {
                assert(result@ == insert_sorted(before, x));
                assert(insertion_sorted(merged@.take(m + 1)) == insert_sorted(
                    insertion_sorted(merged@.take(m as int)),
                    x,
                ));
            }
            m = m + 1;
        }
        assert(merged@.take(mn as int) =~= merged@);
        result
    }

    /// What the frontend is told after a change: how many files, and the
    /// newest file's name.
    pub fn change_summary(&self) -> (r: (usize, Option<String>))
        ensures
            r.0 == self.entries().len(),
            self.entries().len() == 0 ==> r.1 is None,
            self.entries().len() > 0 ==> (r.1 matches Some(n) && n@ == self.entries()[0].filename@),
    {
        let latest = if self.files.len() == 0 {
            None
        } else {
            Some(self.files[0].filename.clone())
        };
        (self.files.len(), latest)
    }

    /// Moves the viewer to the file at `index`. An index out of bounds is an
    /// error; a file that `file_exists` reports gone is removed from the index
    /// (as `remove_file` does) and reported as not found; otherwise the
    /// cursor moves to it and it is returned.
    pub fn navigate_to<F: Fn(&str) -> bool>(&mut self, index: usize, file_exists: F) -> (r: Result<FileInfo, AppError>)
        requires
            forall|p: &str| #[trigger] file_exists.requires((p,)),
        ensures
            index >= old(self).entries().len() ==> (r matches Err(AppError::Other(m)) && m@
                == "Index out of bounds"@) && final(self).entries() == old(self).entries() && final(self).cursor()
                == old(self).cursor(),
            index < old(self).entries().len() && r is Ok ==> r == Ok::<FileInfo, AppError>(
                old(self).entries()[index as int],
            ) && final(self).entries() == old(self).entries() && final(self).cursor() == Some(index) && exists|
                s: &str,
            | s@ == old(self).entries()[index as int].path@ && #[trigger] file_exists.ensures((s,), true),
            index < old(self).entries().len() && r is Err ==> exists|s: &str|
                s@ == old(self).entries()[index as int].path@ && #[trigger] file_exists.ensures((s,), false),
            index < old(self).entries().len() && r is Err ==> (r matches Err(AppError::Other(m)) && m@
                == "File not found: "@ + old(self).entries()[index as int].path@) && final(self).entries()
                == old(self).entries().remove(find_path(old(self).entries(), old(self).entries()[index as int].path@).unwrap())
                && final(self).cursor() == spec_adjust(
                    old(self).cursor(),
                    find_path(old(self).entries(), old(self).entries()[index as int].path@).unwrap(),
                    old(self).entries().len() - 1,
                ),
    {
        let file = match self.file_at(index) {
            Ok(f) => f,
            Err(e) => {
                return Err(e);
            },
        };
        if !file_exists(file.path.as_str()) {
            proof {
                lemma_find_path_props(self.files@, file.path@);
                assert(has_path(self.files@, file.path@)) by {
                    assert(self.files@[index as int].path@ == file.path@);
                }
            }
            self.remove_file(file.path.as_str());
            let s = String::from_str("File not found: ");
            return Err(AppError::Other(s.concat(file.path.as_str())));
        }
        self.current_index = Some(index);
        Ok(file)
    }
}

} // verus!
