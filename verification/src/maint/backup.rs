//! Backups: how archives are named and found, which are kept, and how sizes read.
//!
//! Writing and deleting archives is the caller's.

use vstd::prelude::*;
use crate::clock::{format_stamp_compact, in_range, stamp_compact};
use crate::config::{join_path, path_join};
use crate::maint::types::BackupInfo;
use crate::numfmt::{format_scaled, scaled_fixed};
use crate::text::{decimal, ends_with, ends_with_seq, owned, starts_with, starts_with_seq, u64_to_string};

verus! {

/// Errors of backup handling.
#[derive(Debug)]
pub enum BackupError {
    /// A file operation failed (the system's message).
    Io(String),
    /// The backup directory is missing.
    DirectoryNotFound(String),
    /// The named file is missing.
    SourceNotFound(String),
    /// The archive could not be written.
    ArchiveError(String),
}

/// The message of a backup error, as `Display` renders it.
pub open spec fn backup_error_text(e: BackupError) -> Seq<char> {
    match e {
        BackupError::Io(m) => "IO error: "@ + m@,
        BackupError::DirectoryNotFound(p) => "backup directory does not exist: "@ + p@,
        BackupError::SourceNotFound(p) => "source file not found: "@ + p@,
        BackupError::ArchiveError(m) => "failed to create backup archive: "@ + m@,
    }
}

impl BackupError {
    /// The error's message.
    pub fn message(&self) -> (r: String)
        ensures
            r@ == backup_error_text(*self),
    {
        match self {
            BackupError::Io(m) => owned("IO error: ").concat(m.as_str()),
            BackupError::DirectoryNotFound(p) => owned("backup directory does not exist: ").concat(p.as_str()),
            BackupError::SourceNotFound(p) => owned("source file not found: ").concat(p.as_str()),
            BackupError::ArchiveError(m) => owned("failed to create backup archive: ").concat(m.as_str()),
        }
    }
}

/// Whether a file name is one of ours: `henry_backup_*.tar.gz`.
pub open spec fn is_backup_name(name: Seq<char>) -> bool {
    starts_with_seq(name, "henry_backup_"@) && ends_with_seq(name, ".tar.gz"@)
}

/// The archive name for a backup made at `now`.
pub open spec fn backup_name_spec(now: int) -> Seq<char> {
    "henry_backup_"@ + stamp_compact(now) + ".tar.gz"@
}

/// The total size of the entries that are backup archives (`henry_backup_*.tar.gz`).
pub open spec fn size_sum(s: Seq<BackupInfo>) -> nat
    decreases s.len(),
{
    if s.len() == 0 {
        0
    } else {
        size_sum(s.drop_last()) + if is_backup_name(s.last().name@) { s.last().size as nat } else { 0 }
    }
}

/// Backup manager.
pub struct BackupManager {
    backup_dir: String,
    max_backups: usize,
}

impl BackupManager {
    /// The directory holding the backups.
    pub closed spec fn dir(self) -> Seq<char> {
        self.backup_dir@
    }

    /// How many backups are kept.
    pub closed spec fn keep(self) -> usize {
        self.max_backups
    }

    /// A manager for the directory, keeping at most `max_backups` archives.
    pub fn new(backup_dir: &str, max_backups: usize) -> (r: BackupManager)
        ensures
            r.dir() == backup_dir@,
            r.keep() == max_backups,
    {
        BackupManager { backup_dir: owned(backup_dir), max_backups }
    }

    /// Whether a file name is one of our archives.
    pub fn is_backup_name(name: &str) -> (r: bool)
        ensures
            r == is_backup_name(name@),
    {
        starts_with(name, "henry_backup_") && ends_with(name, ".tar.gz")
    }

    /// The archive name for a backup made at `now`.
    pub fn backup_name_at(now: i64) -> (r: String)
        requires
            in_range(now as int),
        ensures
            r@ == backup_name_spec(now as int),
    {
        owned("henry_backup_").concat(format_stamp_compact(now).as_str()).concat(".tar.gz")
    }

    /// Where an archive of the given name lives.
    pub fn backup_path(&self, name: &str) -> (r: String)
        ensures
            r@ == path_join(self.dir(), name@),
    {
        join_path(self.backup_dir.as_str(), name)
    }

    /// The backups, newest first (stable for equal times).
    pub fn sort_newest_first(list: Vec<BackupInfo>) -> (r: Vec<BackupInfo>)
        ensures
            r@.len() == list@.len(),
            r@.to_multiset() == list@.to_multiset(),
            forall|i: int, j: int| 0 <= i < j < r@.len() ==> (#[trigger] r@[i]).created_at >= (#[trigger] r@[j]).created_at,
    {
        let ghost all = list@;
        let mut rest = list;
        let mut sorted: Vec<BackupInfo> = Vec::new();
        proof {
            broadcast use vstd::multiset::group_multiset_axioms;
            broadcast use vstd::seq_lib::group_to_multiset_ensures;
            assert(Seq::<BackupInfo>::empty().to_multiset().add(all.to_multiset()) =~= all.to_multiset());
        }
        while rest.len() > 0
            invariant
                sorted@.to_multiset().add(rest@.to_multiset()) == all.to_multiset(),
                sorted@.len() + rest@.len() == all.len(),
                forall|i: int, j: int| 0 <= i < j < sorted@.len() ==> (#[trigger] sorted@[i]).created_at >= (#[trigger] sorted@[j]).created_at,
            decreases rest@.len(),
        {
            let ghost rest_before = rest@;
            let ghost sorted_before = sorted@;
            let item = rest.remove(0);
            proof {
                vstd::seq_lib::to_multiset_remove(rest_before, 0);
                vstd::seq_lib::to_multiset_contains(rest_before, item);
                assert(rest_before.contains(item)) by { assert(rest_before[0] == item); }
            }
            let t = item.created_at;
            let mut pos: usize = 0;
            while pos < sorted.len() && sorted[pos].created_at >= t
                invariant
                    pos <= sorted@.len(),
                    forall|a: int| 0 <= a < pos ==> (#[trigger] sorted@[a]).created_at >= t,
                decreases sorted@.len() - pos,
            {
                pos = pos + 1;
            }
            let ghost before = sorted@;
            sorted.insert(pos, item);
            proof {
                assert forall|a: int, b: int| 0 <= a < b < sorted@.len() implies
                    (#[trigger] sorted@[a]).created_at >= (#[trigger] sorted@[b]).created_at by {
                    if b < pos {
                        assert(sorted@[a] == before[a] && sorted@[b] == before[b]);
                    } else if b == pos {
                        assert(sorted@[a] == before[a]);
                    } else if a < pos {
                        assert(sorted@[a] == before[a] && sorted@[b] == before[b - 1]);
                        assert(before[pos as int].created_at < t);
                        assert(before[pos as int].created_at >= before[b - 1].created_at || pos as int == b - 1);
                    } else if a == pos {
                        assert(sorted@[b] == before[b - 1]);
                        assert(before[pos as int].created_at < t);
                        assert(before[pos as int].created_at >= before[b - 1].created_at || pos as int == b - 1);
                    } else {
                        assert(sorted@[a] == before[a - 1] && sorted@[b] == before[b - 1]);
                    }
                }
                assert(sorted@ == before.insert(pos as int, item));
                vstd::seq_lib::to_multiset_insert(before, pos as int, item);
                broadcast use vstd::multiset::group_multiset_axioms;
                assert(sorted@.to_multiset().add(rest@.to_multiset()) =~= all.to_multiset());
            }
        }
        sorted
    }

    /// The archives beyond the newest `keep`, which are removed; the listing must be
    /// newest first.
    pub fn excess_backups(&self, newest_first: Vec<BackupInfo>) -> (r: Vec<BackupInfo>)
        ensures
            r@ == if newest_first@.len() <= self.keep() { Seq::<BackupInfo>::empty() } else { newest_first@.skip(self.keep() as int) },
    {
        if newest_first.len() <= self.max_backups {
            return Vec::new();
        }
        let mut v = newest_first;
        let out = v.split_off(self.max_backups);
        out
    }

    /// The total size of the backup archives among the entries: those named
    /// `henry_backup_*.tar.gz`; other files are not counted.
    pub fn total_backup_size(list: &Vec<BackupInfo>) -> (r: u64)
        requires
            size_sum(list@) <= u64::MAX,
        ensures
            r == size_sum(list@),
    {
        let mut total: u64 = 0;
        let mut i: usize = 0;
        while i < list.len()
            invariant
                i <= list.len(),
                size_sum(list@) <= u64::MAX,
                total == size_sum(list@.take(i as int)),
            decreases list.len() - i,
        {
            assert(list@.take(i + 1).drop_last() =~= list@.take(i as int));
            proof {
                lemma_size_sum_prefix(list@, i as int + 1);
            }
            if BackupManager::is_backup_name(list[i].name.as_str()) {
                total = total + list[i].size;
            }
            i = i + 1;
        }
        assert(list@.take(list@.len() as int) =~= list@);
        total
    }

    /// The backup directory.
    pub fn backup_dir(&self) -> (r: &str)
        ensures
            r@ == self.dir(),
    {
        self.backup_dir.as_str()
    }

    /// How many backups are kept.
    pub fn max_backups(&self) -> (r: usize)
        ensures
            r == self.keep(),
    {
        self.max_backups
    }
}

/// A prefix's sizes add up to no more than the whole list's.
proof fn lemma_size_sum_prefix(s: Seq<BackupInfo>, n: int)
    requires
        0 <= n <= s.len(),
    ensures
        size_sum(s.take(n)) <= size_sum(s),
    decreases s.len() - n,
{
    if n < s.len() {
        lemma_size_sum_prefix(s, n + 1);
        assert(s.take(n + 1).drop_last() =~= s.take(n));
    } else {
        assert(s.take(n) =~= s);
    }
}

/// `format_backup_size`: binary units with two decimals and a space (`GB`, `MB`,
/// `KB`), plain bytes below 1024.
pub open spec fn format_backup_size_spec(bytes: nat) -> Seq<char> {
    if bytes >= 0x4000_0000 {
        scaled_fixed(bytes, 30, 2) + " GB"@
    } else if bytes >= 0x10_0000 {
        scaled_fixed(bytes, 20, 2) + " MB"@
    } else if bytes >= 0x400 {
        scaled_fixed(bytes, 10, 2) + " KB"@
    } else {
        decimal(bytes) + " B"@
    }
}

/// Formats a byte count for display.
pub fn format_backup_size(bytes: u64) -> (r: String)
    ensures
        r@ == format_backup_size_spec(bytes as nat),
{
    if bytes >= 0x4000_0000 {
        format_scaled(bytes, 30, 2).concat(" GB")
    } else if bytes >= 0x10_0000 {
        format_scaled(bytes, 20, 2).concat(" MB")
    } else if bytes >= 0x400 {
        format_scaled(bytes, 10, 2).concat(" KB")
    } else {
        u64_to_string(bytes).concat(" B")
    }
}

// ---------------------------------------------------------------------------
// Laws
// ---------------------------------------------------------------------------

/// Pruning a newest-first list keeps the newest backups: every kept backup is at
/// least as recent as every one removed, and exactly the surplus is removed.
pub proof fn law_retention_keeps_newest(list: Seq<BackupInfo>, keep: usize, a: int, b: int)
    requires
        forall|i: int, j: int| 0 <= i < j < list.len() ==> (#[trigger] list[i]).created_at >= (#[trigger] list[j]).created_at,
        list.len() > keep,
        0 <= a < keep,
        0 <= b < list.skip(keep as int).len(),
    ensures
        list.take(keep as int)[a].created_at >= list.skip(keep as int)[b].created_at,
        list.skip(keep as int).len() == list.len() - keep,
{
    assert(list.take(keep as int)[a] == list[a]);
    assert(list.skip(keep as int)[b] == list[keep + b]);
}

} // verus!
