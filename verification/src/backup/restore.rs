//! Unpacking snapshots and listing the snapshots in a directory.
use vstd::prelude::*;
use vstd::multiset::Multiset;
use vstd::string::StringExecFns;

use crate::backup::compress::{decode_all, zstd_decoded};
use crate::backup::error::{BackupError, BackupResult};
use crate::text::{lemma_text_lt_order, text_chars, text_less, text_lt};

verus! {

/// Unpacks snapshots and lists them.
pub struct RestoreEngine;

/// One entry of a backup directory as the caller read it.
#[derive(Debug, Clone, PartialEq)]
pub struct BackupDirEntry {
    /// The file name, with any bytes that are not UTF-8 replaced.
    pub name: String,
    /// Whether the file name is valid UTF-8 as it stands.
    pub name_is_utf8: bool,
    pub is_file: bool,
    pub size: u64,
}

/// Whether a file name's extension, in the sense of `Path::extension` (the
/// part after the last `.`, where that `.` is not the name's first
/// character), is `backup`.
pub open spec fn has_backup_extension(name: Seq<char>) -> bool {
    name.len() > 7 && name.subrange(name.len() - 7, name.len() as int) == ".backup"@
}

/// The name a listed entry is shown under.
pub open spec fn listed_name(e: BackupDirEntry) -> Seq<char> {
    if e.name_is_utf8 {
        e.name@
    } else {
        "unknown"@
    }
}

/// Whether an entry is listed as a backup.
pub open spec fn is_listed(e: BackupDirEntry) -> bool {
    e.is_file && has_backup_extension(e.name@)
}

/// The (name, size) of every listed entry, in directory order.
pub open spec fn listed(s: Seq<BackupDirEntry>) -> Seq<(Seq<char>, u64)>
    decreases s.len(),
{
    if s.len() == 0 {
        Seq::empty()
    } else if is_listed(s.last()) {
        listed(s.drop_last()).push((listed_name(s.last()), s.last().size))
    } else {
        listed(s.drop_last())
    }
}

pub open spec fn pair_views(s: Seq<(String, u64)>) -> Seq<(Seq<char>, u64)> {
    s.map_values(|p: (String, u64)| (p.0@, p.1))
}

/// Whether a file name has the extension `backup`.
pub fn is_backup_file_name(name: &str) -> (r: bool)
    ensures
        r == has_backup_extension(name@),
{
    let chars = text_chars(name);
    let n = chars.len();
    if n <= 7 {
        return false;
    }
    let suffix = ['.', 'b', 'a', 'c', 'k', 'u', 'p'];
    proof {
        reveal_strlit(".backup");
    }
    let mut k: usize = 0;
    while k < 7
        invariant
            chars@ == name@,
            n == chars@.len(),
            n > 7,
            suffix@ == ".backup"@,
            0 <= k <= 7,
            forall|q: int| 0 <= q < k ==> chars@[n - 7 + q] == ".backup"@[q],
        decreases 7 - k,
    {
        if chars[n - 7 + k] != suffix[k] {
            assert(name@.subrange(n - 7, n as int)[k as int] != ".backup"@[k as int]);
            return false;
        }
        k = k + 1;
    }
    assert(name@.subrange(n - 7, n as int) =~= ".backup"@);
    true
}

/// The message prefix of a failed decompression.
pub open spec fn decompress_failure_prefix() -> Seq<char> {
    "Failed to decompress: "@
}

impl RestoreEngine {
    /// Unpacks stored snapshot bytes into the database file's bytes; bytes
    /// that do not decompress are refused with a compression error.
    pub fn restore_backup(compressed: &[u8]) -> (r: BackupResult<Vec<u8>>)
        ensures
            match zstd_decoded(compressed@) {
                Some(d) => r matches Ok(v) && v@ == d,
                None => r matches Err(BackupError::CompressionError(m))
                    && decompress_failure_prefix().is_prefix_of(m@),
            },
    {
        match decode_all(compressed) {
            Ok(v) => Ok(v),
            Err(e) => {
                let m = String::from_str("Failed to decompress: ").concat(e.as_str());
                proof {
                    assert(m@.subrange(0, decompress_failure_prefix().len() as int)
                        =~= decompress_failure_prefix());
                }
                Err(BackupError::CompressionError(m))
            },
        }
    }

    /// The backups among a directory's entries, by (name, size), newest name
    /// first: regular files with the extension `backup`, named as read (or
    /// "unknown" when the name is not UTF-8), sorted by name in descending
    /// byte order.
    pub fn list_backups(entries: &Vec<BackupDirEntry>) -> (r: Vec<(String, u64)>)
        ensures
            pair_views(r@).to_multiset() == listed(entries@).to_multiset(),
            forall|i: int, j: int|
                0 <= i < j < r@.len() ==> !text_lt(#[trigger] r@[i].0@, #[trigger] r@[j].0@),
    {
        broadcast use vstd::seq_lib::group_to_multiset_ensures;

        // Keep the backups.
        let mut rest: Vec<(String, u64)> = Vec::new();
        let mut i: usize = 0;
        assert(entries@.take(0) =~= Seq::<BackupDirEntry>::empty());
        while i < entries.len()
            invariant
                0 <= i <= entries@.len(),
                pair_views(rest@) == listed(entries@.take(i as int)),
            decreases entries@.len() - i,
        {
            let e = &entries[i];
            proof {
                assert(entries@.take(i + 1).drop_last() =~= entries@.take(i as int));
                assert(entries@.take(i + 1).last() == *e);
            }
            if e.is_file && is_backup_file_name(e.name.as_str()) {
                let name = if e.name_is_utf8 {
                    e.name.clone()
                } else {
                    String::from_str("unknown")
                };
                let ghost old_rest = rest@;
                rest.push((name, e.size));
                assert(pair_views(rest@) =~= pair_views(old_rest).push((listed_name(*e), e.size)));
            }
            i = i + 1;
        }
        assert(entries@.take(entries@.len() as int) =~= entries@);
        let ghost all = pair_views(rest@);
        // Order them, largest name first.
        let mut out: Vec<(String, u64)> = Vec::new();
        while rest.len() > 0
            invariant
                pair_views(out@).to_multiset().add(pair_views(rest@).to_multiset())
                    == all.to_multiset(),
                forall|a: int, b: int|
                    0 <= a < b < out@.len() ==> !text_lt(#[trigger] out@[a].0@, #[trigger] out@[b].0@),
                forall|a: int, k: int|
                    0 <= a < out@.len() && 0 <= k < rest@.len() ==> !text_lt(
                        #[trigger] out@[a].0@,
                        #[trigger] rest@[k].0@,
                    ),
            decreases rest@.len(),
        {
            let mut best: usize = 0;
            let mut j: usize = 1;
            proof {
                lemma_text_lt_order(rest@[0].0@, rest@[0].0@, rest@[0].0@);
            }
            while j < rest.len()
                invariant
                    0 <= best < j <= rest@.len(),
                    forall|k: int| 0 <= k < j ==> !text_lt(rest@[best as int].0@, #[trigger] rest@[k].0@),
                decreases rest@.len() - j,
            {
                if text_less(rest[best].0.as_str(), rest[j].0.as_str()) {
                    proof {
                        assert forall|k: int| 0 <= k < j + 1 implies !text_lt(
                            rest@[j as int].0@,
                            #[trigger] rest@[k].0@,
                        ) by {
                            lemma_text_lt_order(rest@[best as int].0@, rest@[j as int].0@, rest@[k].0@);
                            lemma_text_lt_order(rest@[j as int].0@, rest@[k].0@, rest@[j as int].0@);
                            if text_lt(rest@[j as int].0@, rest@[k].0@) {
                                lemma_text_lt_order(rest@[best as int].0@, rest@[j as int].0@, rest@[k].0@);
                            }
                        }
                    }
                    best = j;
                }
                j = j + 1;
            }
            let ghost old_rest = rest@;
            let ghost old_out = out@;
            let item = rest.remove(best);
            out.push(item);
            proof {
                assert(pair_views(rest@) =~= pair_views(old_rest).remove(best as int));
                assert(pair_views(out@) =~= pair_views(old_out).push((item.0@, item.1)));
                assert(pair_views(old_rest)[best as int] == (item.0@, item.1));
                broadcast use vstd::multiset::group_multiset_axioms;
                vstd::seq_lib::to_multiset_remove(pair_views(old_rest), best as int);
                vstd::seq_lib::to_multiset_build(pair_views(old_out), (item.0@, item.1));
                vstd::seq_lib::to_multiset_contains(pair_views(old_rest), (item.0@, item.1));
                assert(pair_views(old_rest).contains((item.0@, item.1)));
                assert(pair_views(out@).to_multiset().add(pair_views(rest@).to_multiset())
                    =~= pair_views(old_out).to_multiset().add(pair_views(old_rest).to_multiset()));
                assert forall|a: int, b: int|
                    0 <= a < b < out@.len() implies !text_lt(#[trigger] out@[a].0@, #[trigger] out@[b].0@) by {
                    if b < old_out.len() {
                        assert(out@[a] == old_out[a]);
                        assert(out@[b] == old_out[b]);
                    } else {
                        assert(out@[a] == old_out[a]);
                        assert(out@[b] == item);
                    }
                }
                assert forall|a: int, k: int|
                    0 <= a < out@.len() && 0 <= k < rest@.len() implies !text_lt(
                        #[trigger] out@[a].0@,
                        #[trigger] rest@[k].0@,
                    ) by {
                    let k0 = if k < best { k } else { k + 1 };
                    assert(rest@[k] == old_rest[k0]);
                    if a < old_out.len() {
                        assert(out@[a] == old_out[a]);
                    } else {
                        assert(out@[a] == item);
                    }
                }
            }
        }
        proof {
            assert(pair_views(rest@).to_multiset() =~= Multiset::empty());
            assert(pair_views(out@).to_multiset().add(Multiset::empty()) =~= pair_views(out@).to_multiset());
        }
        out
    }
}

} // verus!
