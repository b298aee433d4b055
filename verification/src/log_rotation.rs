//! Which dump files, orphaned work directories and orphaned temporary files are old
//! enough to be removed.
//!
//! Times are nanoseconds since the epoch. The cutoff is the time before which something
//! is too old; without one, where the age reaches back further than time does, nothing is
//! removed.
use vstd::prelude::*;

use crate::proxy_headers::header_name_eq;
use crate::text;

verus! {

/// What is known of one entry of a directory. A field is `None` where it could not be
/// read.
#[derive(Debug, Clone)]
pub struct DirEntry {
    /// The extension of the path.
    pub extension: Option<String>,
    /// The name of the entry.
    pub name: Option<String>,
    /// Whether the entry is a regular file.
    pub is_file: Option<bool>,
    /// When the entry was modified.
    pub modified: Option<i128>,
}

/// What is known of one directory under the work root.
#[derive(Debug, Clone)]
pub struct WorkDir {
    /// Whether the entry is a directory.
    pub is_dir: Option<bool>,
    /// When the directory was modified.
    pub modified: Option<i128>,
    /// When its entries were modified.
    pub entries: Vec<Option<i128>>,
}

/// Whether a file of this extension may be removed.
pub open spec fn eligible(extension: Option<Seq<char>>) -> bool {
    match extension {
        Some(t) => text::ascii_lower_seq(t) == text::ascii_lower_seq("json"@)
            || text::ascii_lower_seq(t) == text::ascii_lower_seq("ndjson"@),
        None => false,
    }
}

/// Whether something that was modified then is older than the cutoff. What has no time,
/// and everything where there is no cutoff, is kept.
pub open spec fn older(modified: Option<i128>, cutoff: Option<i128>) -> bool {
    match modified {
        Some(m) => match cutoff {
            Some(c) => m < c,
            None => false,
        },
        None => false,
    }
}

/// The later of two times.
pub open spec fn later(a: Option<i128>, b: Option<i128>) -> Option<i128> {
    match a {
        Some(x) => match b {
            Some(y) => if x < y {
                Some(y)
            } else {
                Some(x)
            },
            None => Some(x),
        },
        None => b,
    }
}

/// The latest of `own` and the first `n` of `entries`.
pub open spec fn latest(own: Option<i128>, entries: Seq<Option<i128>>, n: int) -> Option<i128>
    decreases n,
{
    if n <= 0 || n > entries.len() {
        own
    } else {
        later(latest(own, entries, n - 1), entries[n - 1])
    }
}

impl DirEntry {
    /// Whether it is a dump file that is too old.
    pub open spec fn is_old_dump(self, cutoff: Option<i128>) -> bool {
        eligible(text::opt_view(self.extension)) && self.is_file == Some(true) && older(
            self.modified,
            cutoff,
        )
    }

    /// Whether it is a temporary artifact that is too old.
    pub open spec fn is_old_tmp(self, cutoff: Option<i128>) -> bool {
        (self.name matches Some(name) && text::has_suffix(name@, ".json.tmp"@)) && self.is_file
            == Some(true) && older(self.modified, cutoff)
    }
}

impl WorkDir {
    /// When anything in the directory was last modified.
    pub open spec fn activity(self) -> Option<i128> {
        latest(self.modified, self.entries@, self.entries@.len() as int)
    }

    /// Whether it is a work directory that is too old.
    pub open spec fn is_orphan(self, cutoff: Option<i128>) -> bool {
        self.is_dir == Some(true) && older(self.activity(), cutoff)
    }
}

/// Whether a file of this extension may be removed.
pub fn is_eligible_extension(extension: Option<&str>) -> (r: bool)
    ensures
        r == eligible(text::opt_str_view(extension)),
{
    match extension {
        Some(t) => header_name_eq(t, "json") || header_name_eq(t, "ndjson"),
        None => false,
    }
}

/// Whether something is older than the cutoff.
pub fn is_older_than_cutoff(modified: Option<i128>, cutoff: Option<i128>) -> (r: bool)
    ensures
        r == older(modified, cutoff),
{
    match (modified, cutoff) {
        (Some(m), Some(c)) => m < c,
        _ => false,
    }
}

/// When anything in a work directory was last modified.
pub fn newest_mtime(own: Option<i128>, entries: &Vec<Option<i128>>) -> (r: Option<i128>)
    ensures
        r == latest(own, entries@, entries@.len() as int),
{
    let mut newest: Option<i128> = own;
    let mut i: usize = 0;
    while i < entries.len()
        invariant
            i <= entries@.len(),
            newest == latest(own, entries@, i as int),
        decreases entries@.len() - i,
    {
        newest = match (newest, entries[i]) {
            (Some(a), Some(b)) => if a < b {
                Some(b)
            } else {
                Some(a)
            },
            (Some(a), None) => Some(a),
            (None, other) => other,
        };
        i += 1;
    }
    newest
}

/// The indices, in order, of those of the first `n` entries that `old` says to remove.
pub open spec fn chosen(old: Seq<bool>, n: int) -> Seq<usize>
    decreases n,
{
    if n <= 0 || n > old.len() {
        Seq::empty()
    } else if old[n - 1] {
        chosen(old, n - 1).push((n - 1) as usize)
    } else {
        chosen(old, n - 1)
    }
}

/// The dump files to remove, by their index.
pub fn dump_files_to_remove(entries: &Vec<DirEntry>, cutoff: Option<i128>) -> (r: Vec<usize>)
    ensures
        r@ == chosen(
            entries@.map_values(|e: DirEntry| e.is_old_dump(cutoff)),
            entries@.len() as int,
        ),
{
    let ghost old = entries@.map_values(|e: DirEntry| e.is_old_dump(cutoff));
    let mut out: Vec<usize> = Vec::new();
    let mut i: usize = 0;
    while i < entries.len()
        invariant
            i <= entries@.len(),
            old == entries@.map_values(|e: DirEntry| e.is_old_dump(cutoff)),
            out@ == chosen(old, i as int),
        decreases entries@.len() - i,
    {
        let e = &entries[i];
        let extension = match &e.extension {
            Some(t) => Some(t.as_str()),
            None => None,
        };
        let is_file = match e.is_file {
            Some(b) => b,
            None => false,
        };
        if is_eligible_extension(extension) && is_file && is_older_than_cutoff(e.modified, cutoff) {
            out.push(i);
        }
        i += 1;
    }
    out
}

/// The temporary artifacts to remove, by their index.
pub fn tmp_files_to_remove(entries: &Vec<DirEntry>, cutoff: Option<i128>) -> (r: Vec<usize>)
    ensures
        r@ == chosen(
            entries@.map_values(|e: DirEntry| e.is_old_tmp(cutoff)),
            entries@.len() as int,
        ),
{
    let ghost old = entries@.map_values(|e: DirEntry| e.is_old_tmp(cutoff));
    let mut out: Vec<usize> = Vec::new();
    let mut i: usize = 0;
    while i < entries.len()
        invariant
            i <= entries@.len(),
            old == entries@.map_values(|e: DirEntry| e.is_old_tmp(cutoff)),
            out@ == chosen(old, i as int),
        decreases entries@.len() - i,
    {
        let e = &entries[i];
        let is_tmp = match &e.name {
            Some(name) => text::ends_with(name.as_str(), ".json.tmp"),
            None => false,
        };
        let is_file = match e.is_file {
            Some(b) => b,
            None => false,
        };
        if is_tmp && is_file && is_older_than_cutoff(e.modified, cutoff) {
            out.push(i);
        }
        i += 1;
    }
    out
}

/// The work directories to remove, by their index.
pub fn work_dirs_to_remove(dirs: &Vec<WorkDir>, cutoff: Option<i128>) -> (r: Vec<usize>)
    ensures
        r@ == chosen(dirs@.map_values(|d: WorkDir| d.is_orphan(cutoff)), dirs@.len() as int),
{
    let ghost old = dirs@.map_values(|d: WorkDir| d.is_orphan(cutoff));
    let mut out: Vec<usize> = Vec::new();
    let mut i: usize = 0;
    while i < dirs.len()
        invariant
            i <= dirs@.len(),
            old == dirs@.map_values(|d: WorkDir| d.is_orphan(cutoff)),
            out@ == chosen(old, i as int),
        decreases dirs@.len() - i,
    {
        let d = &dirs[i];
        let is_dir = match d.is_dir {
            Some(b) => b,
            None => false,
        };
        if is_dir && is_older_than_cutoff(newest_mtime(d.modified, &d.entries), cutoff) {
            out.push(i);
        }
        i += 1;
    }
    out
}

/// How many of the first `n` removals succeeded.
pub open spec fn successes(removed: Seq<bool>, n: int) -> int
    decreases n,
{
    if n <= 0 || n > removed.len() {
        0
    } else {
        successes(removed, n - 1) + if removed[n - 1] {
            1int
        } else {
            0
        }
    }
}

/// How many removals succeeded; one that failed is not counted.
pub fn count_removed(removed: &Vec<bool>) -> (r: usize)
    ensures
        r == successes(removed@, removed@.len() as int),
{
    let mut count: usize = 0;
    let mut i: usize = 0;
    while i < removed.len()
        invariant
            i <= removed@.len(),
            count <= i,
            count == successes(removed@, i as int),
        decreases removed@.len() - i,
    {
        if removed[i] {
            count += 1;
        }
        i += 1;
    }
    count
}

/// The age in seconds after which something is too old. Without hours, or with none,
/// nothing is cleaned up.
pub fn max_age_seconds(max_age_hours: Option<u64>) -> (r: Option<u64>)
    ensures
        r == match max_age_hours {
            Some(hours) => if hours == 0 {
                None
            } else if hours * 3600 > u64::MAX {
                Some(u64::MAX)
            } else {
                Some((hours * 3600) as u64)
            },
            None => None,
        },
{
    match max_age_hours {
        Some(hours) => if hours == 0 {
            None
        } else {
            match hours.checked_mul(3600) {
                Some(seconds) => Some(seconds),
                None => Some(u64::MAX),
            }
        },
        None => None,
    }
}

proof fn lemma_chosen(old: Seq<bool>, n: int, k: int)
    requires
        0 <= n <= old.len(),
        old.len() <= usize::MAX,
        0 <= k < chosen(old, n).len(),
    ensures
        0 <= chosen(old, n)[k] < n,
        old[chosen(old, n)[k] as int],
    decreases n,
{
    if n > 0 {
        if old[n - 1] && k == chosen(old, n).len() - 1 {
        } else {
            lemma_chosen(old, n - 1, k);
        }
    }
}

/// A work directory that anything was written to at or after the cutoff is never
/// removed.
pub proof fn law_active_work_dir_is_kept(dir: WorkDir, cutoff: i128, i: int)
    requires
        0 <= i < dir.entries@.len(),
        dir.entries@[i] matches Some(m) && m >= cutoff,
    ensures
        !dir.is_orphan(Some(cutoff)),
{
    lemma_latest_is_late(dir.modified, dir.entries@, dir.entries@.len() as int, i);
}

proof fn lemma_latest_is_late(own: Option<i128>, entries: Seq<Option<i128>>, n: int, i: int)
    requires
        0 <= i < n <= entries.len(),
        entries[i] is Some,
    ensures
        latest(own, entries, n) matches Some(m) && m >= entries[i]->0,
    decreases n,
{
    if i < n - 1 {
        lemma_latest_is_late(own, entries, n - 1, i);
    }
}

/// Only an entry that is too old is ever removed, and each of those is.
pub proof fn law_exactly_the_old_are_removed(old: Seq<bool>, i: int)
    requires
        0 <= i < old.len() <= usize::MAX,
    ensures
        chosen(old, old.len() as int).contains(i as usize) == old[i],
{
    let all = chosen(old, old.len() as int);
    if all.contains(i as usize) {
        let k = choose|k: int| 0 <= k < all.len() && all[k] == i as usize;
        lemma_chosen(old, old.len() as int, k);
    }
    if old[i] {
        lemma_old_is_chosen(old, old.len() as int, i);
    }
}

proof fn lemma_old_is_chosen(old: Seq<bool>, n: int, i: int)
    requires
        0 <= i < n <= old.len() <= usize::MAX,
        old[i],
    ensures
        chosen(old, n).contains(i as usize),
    decreases n,
{
    let c = chosen(old, n);
    if i == n - 1 {
        assert(c[c.len() - 1] == i as usize);
    } else {
        lemma_old_is_chosen(old, n - 1, i);
        let before = chosen(old, n - 1);
        let k = choose|k: int| 0 <= k < before.len() && before[k] == i as usize;
        assert(c[k] == i as usize);
    }
}

/// A dump file is removed just where it is a regular file of one of the two extensions,
/// and was modified before the cutoff.
pub proof fn law_old_dumps_are_removed(e: DirEntry, cutoff: Option<i128>)
    ensures
        e.is_old_dump(cutoff) <==> (e.is_file == Some(true) && e.modified is Some && cutoff is Some
            && e.modified->0 < cutoff->0 && e.extension is Some && (text::ascii_lower_seq(
            (e.extension->0)@,
        ) == "json"@ || text::ascii_lower_seq((e.extension->0)@) == "ndjson"@)),
{
    reveal_strlit("json");
    reveal_strlit("ndjson");
    assert(text::ascii_lower_seq("json"@) =~= "json"@);
    assert(text::ascii_lower_seq("ndjson"@) =~= "ndjson"@);
}

/// A temporary artifact is removed just where it is a regular file of that name, and was
/// modified before the cutoff.
pub proof fn law_old_artifacts_are_removed(e: DirEntry, cutoff: Option<i128>)
    ensures
        e.is_old_tmp(cutoff) <==> (e.is_file == Some(true) && e.modified is Some && cutoff is Some
            && e.modified->0 < cutoff->0 && e.name is Some && text::has_suffix(
            (e.name->0)@,
            ".json.tmp"@,
        )),
{
}

proof fn lemma_latest(own: Option<i128>, entries: Seq<Option<i128>>, n: int)
    requires
        0 <= n <= entries.len(),
    ensures
        own is Some ==> latest(own, entries, n) is Some && latest(own, entries, n)->0 >= own->0,
        forall|k: int|
            0 <= k < n && (#[trigger] entries[k]) is Some ==> latest(own, entries, n) is Some
                && latest(own, entries, n)->0 >= entries[k]->0,
        latest(own, entries, n) is Some ==> latest(own, entries, n) == own || exists|k: int|
            0 <= k < n && latest(own, entries, n) == #[trigger] entries[k],
    decreases n,
{
    if n > 0 {
        lemma_latest(own, entries, n - 1);
        let before = latest(own, entries, n - 1);
        assert(latest(own, entries, n) == later(before, entries[n - 1]));
        if latest(own, entries, n) == entries[n - 1] {
        } else if before is Some && before != own {
            let k = choose|k: int| 0 <= k < n - 1 && before == #[trigger] entries[k];
            assert(latest(own, entries, n) == entries[k]);
        }
    }
}

/// A work directory was last active when it, or the latest of its entries, was modified.
pub proof fn law_activity_is_the_latest(dir: WorkDir, k: int)
    ensures
        dir.modified is Some ==> dir.activity() is Some && dir.activity()->0 >= dir.modified->0,
        0 <= k < dir.entries@.len() && dir.entries@[k] is Some ==> dir.activity() is Some
            && dir.activity()->0 >= dir.entries@[k]->0,
        dir.activity() is Some ==> dir.activity() == dir.modified || exists|j: int|
            0 <= j < dir.entries@.len() && dir.activity() == #[trigger] dir.entries@[j],
{
    lemma_latest(dir.modified, dir.entries@, dir.entries@.len() as int);
}

/// A work directory is removed just where it is a directory and was last active before the
/// cutoff.
pub proof fn law_inactive_work_dirs_are_removed(dir: WorkDir, cutoff: Option<i128>)
    ensures
        dir.is_orphan(cutoff) <==> (dir.is_dir == Some(true) && dir.activity() is Some
            && cutoff is Some && dir.activity()->0 < cutoff->0),
{
}

/// Each removal that succeeded counts once, and one that failed not at all.
pub proof fn law_removals_are_counted(removed: Seq<bool>, n: int, k: int)
    requires
        0 <= k < n <= removed.len(),
        !removed[k],
    ensures
        successes(removed.update(k, true), n) == successes(removed, n) + 1,
        0 <= successes(removed, n) < n,
        (forall|j: int| 0 <= j < n ==> !removed[j]) ==> successes(removed, n) == 0,
    decreases n,
{
    if k < n - 1 {
        law_removals_are_counted(removed, n - 1, k);
    } else {
        lemma_same_successes(removed, removed.update(k, true), n - 1);
        if n > 1 && (forall|j: int| 0 <= j < n ==> !removed[j]) {
            law_removals_are_counted(removed, n - 1, 0);
        }
    }
}

proof fn lemma_same_successes(a: Seq<bool>, b: Seq<bool>, n: int)
    requires
        0 <= n <= a.len(),
        a.len() == b.len(),
        forall|j: int| 0 <= j < n ==> a[j] == b[j],
    ensures
        successes(a, n) == successes(b, n),
        0 <= successes(a, n) <= n,
    decreases n,
{
    if n > 0 {
        lemma_same_successes(a, b, n - 1);
    }
}

/// A file is looked at by its extension alone, whatever the case: that of JSON, or of JSON by
/// lines.
pub proof fn law_extension_decides(t: Seq<char>)
    ensures
        eligible(Some(t)) <==> text::ascii_lower_seq(t) == "json"@ || text::ascii_lower_seq(t)
            == "ndjson"@,
        !eligible(None),
{
    reveal_strlit("json");
    reveal_strlit("ndjson");
    assert(text::ascii_lower_seq("json"@) =~= "json"@);
    assert(text::ascii_lower_seq("ndjson"@) =~= "ndjson"@);
}

/// What was changed before the cutoff is old; what was changed at an unknown time never is.
pub proof fn law_old_is_before_the_cutoff(m: i128, c: i128)
    ensures
        older(Some(m), Some(c)) <==> m < c,
        !older(None, Some(c)),
        !older(Some(m), None),
{
}

} // verus!
