//! Log rotation: which files are logs, which need rotating, what rotated files are
//! called and which old ones go.
//!
//! Reading, compressing, renaming and deleting files is the caller's.

use vstd::prelude::*;
use crate::clock::{format_stamp_compact, in_range, stamp_compact};
use crate::config::{join_path, path_join};
use crate::text::{contains, contains_seq, ends_with, ends_with_seq, owned};

verus! {

/// Errors of log rotation.
#[derive(Debug)]
pub enum LogRotationError {
    /// A file operation failed (the system's message).
    Io(String),
    /// The log directory is missing.
    DirectoryNotFound(String),
}

/// The message of a rotation error, as `Display` renders it.
pub open spec fn log_rotation_error_text(e: LogRotationError) -> Seq<char> {
    match e {
        LogRotationError::Io(m) => "IO error: "@ + m@,
        LogRotationError::DirectoryNotFound(p) => "log directory does not exist: "@ + p@,
    }
}

impl LogRotationError {
    /// The error's message.
    pub fn message(&self) -> (r: String)
        ensures
            r@ == log_rotation_error_text(*self),
    {
        match self {
            LogRotationError::Io(m) => owned("IO error: ").concat(m.as_str()),
            LogRotationError::DirectoryNotFound(p) => owned("log directory does not exist: ").concat(p.as_str()),
        }
    }
}

/// Result of a log rotation.
#[derive(Debug)]
pub struct RotationResult {
    /// Number of files rotated.
    pub files_rotated: usize,
    /// Number of old files deleted.
    pub files_deleted: usize,
    /// Total bytes processed.
    pub bytes_processed: u64,
}

impl Default for RotationResult {
    fn default() -> (r: RotationResult)
        ensures
            r.files_rotated == 0 && r.files_deleted == 0 && r.bytes_processed == 0,
    {
        RotationResult { files_rotated: 0, files_deleted: 0, bytes_processed: 0 }
    }
}

/// Whether a file is a live log: it ends in `.log` and was not rotated.
pub open spec fn is_live_log(name: Seq<char>) -> bool {
    ends_with_seq(name, ".log"@) && !contains_seq(name, ".rotated."@)
}

/// Whether a file is a rotated log.
pub open spec fn is_rotated_log(name: Seq<char>) -> bool {
    contains_seq(name, ".rotated."@)
}

/// The name a log with stem `stem` gets when rotated at `now`.
pub open spec fn rotated_name_spec(stem: Seq<char>, now: int, compress: bool) -> Seq<char> {
    stem + ".rotated."@ + stamp_compact(now) + if compress { ".log.gz"@ } else { ".log"@ }
}

/// Log rotation manager.
pub struct LogRotator {
    log_dir: String,
    max_log_files: usize,
    max_log_size: u64,
    compress_rotated: bool,
}

impl LogRotator {
    /// The directory of the logs.
    pub closed spec fn dir(self) -> Seq<char> {
        self.log_dir@
    }

    /// How many rotated files are kept.
    pub closed spec fn keep(self) -> usize {
        self.max_log_files
    }

    /// The size from which a log is rotated.
    pub closed spec fn size_limit(self) -> u64 {
        self.max_log_size
    }

    /// Whether rotated logs are compressed.
    pub closed spec fn compresses(self) -> bool {
        self.compress_rotated
    }

    /// A rotator for the directory that compresses rotated logs.
    pub fn new(log_dir: &str, max_log_files: usize, max_log_size: u64) -> (r: LogRotator)
        ensures
            r.dir() == log_dir@,
            r.keep() == max_log_files,
            r.size_limit() == max_log_size,
            r.compresses(),
    {
        LogRotator { log_dir: owned(log_dir), max_log_files, max_log_size, compress_rotated: true }
    }

    /// The rotator with compression on or off.
    pub fn with_compression(self, compress: bool) -> (r: LogRotator)
        ensures
            r.compresses() == compress,
            r.dir() == self.dir(),
            r.keep() == self.keep(),
            r.size_limit() == self.size_limit(),
    {
        let mut r = self;
        r.compress_rotated = compress;
        r
    }

    /// Whether a file is a live log.
    pub fn is_live_log(name: &str) -> (r: bool)
        ensures
            r == is_live_log(name@),
    {
        ends_with(name, ".log") && !contains(name, ".rotated.")
    }

    /// Whether a file is a rotated log.
    pub fn is_rotated_log(name: &str) -> (r: bool)
        ensures
            r == is_rotated_log(name@),
    {
        contains(name, ".rotated.")
    }

    /// Whether a log of this size is rotated.
    pub fn needs_rotation(&self, size: u64) -> (r: bool)
        ensures
            r == (size >= self.size_limit()),
    {
        size >= self.max_log_size
    }

    /// The name a log with the given stem gets when rotated at `now`.
    pub fn rotated_name_at(&self, stem: &str, now: i64) -> (r: String)
        requires
            in_range(now as int),
        ensures
            r@ == rotated_name_spec(stem@, now as int, self.compresses()),
    {
        let s = owned(stem).concat(".rotated.").concat(format_stamp_compact(now).as_str());
        if self.compress_rotated { s.concat(".log.gz") } else { s.concat(".log") }
    }

    /// Where a rotated file of that name lives.
    pub fn rotated_path(&self, name: &str) -> (r: String)
        ensures
            r@ == path_join(self.dir(), name@),
    {
        join_path(self.log_dir.as_str(), name)
    }

    /// Counts a rotated file of the given size into the result.
    pub fn count_rotation(result: &mut RotationResult, size: u64)
        requires
            old(result).files_rotated < usize::MAX,
            old(result).bytes_processed + size <= u64::MAX,
        ensures
            final(result).files_rotated == old(result).files_rotated + 1,
            final(result).bytes_processed == old(result).bytes_processed + size,
            final(result).files_deleted == old(result).files_deleted,
    {
        result.files_rotated = result.files_rotated + 1;
        result.bytes_processed = result.bytes_processed + size;
    }

    /// How many of the rotated files (oldest first) are removed: all but the newest `keep`.
    pub fn excess_rotated(&self, rotated_count: usize) -> (r: usize)
        ensures
            r == if rotated_count > self.keep() { rotated_count - self.keep() } else { 0 },
    {
        if rotated_count > self.max_log_files { rotated_count - self.max_log_files } else { 0 }
    }

    /// The rotated files' indices sorted oldest first (stable), given their
    /// modification times.
    pub fn oldest_first(times: &Vec<i64>) -> (r: Vec<usize>)
        ensures
            r@.len() == times@.len(),
            forall|i: int| 0 <= i < r@.len() ==> (#[trigger] r@[i]) < times@.len(),
            forall|i: int, j: int| 0 <= i < j < r@.len() ==> times@[#[trigger] r@[i] as int] <= times@[#[trigger] r@[j] as int],
            forall|i: int, j: int| 0 <= i < j < r@.len() ==> #[trigger] r@[i] != #[trigger] r@[j],
    {
        let mut order: Vec<usize> = Vec::new();
        let mut k: usize = 0;
        while k < times.len()
            invariant
                k <= times.len(),
                order@.len() == k,
                forall|i: int| 0 <= i < order@.len() ==> (#[trigger] order@[i]) < k,
                forall|i: int, j: int| 0 <= i < j < order@.len() ==> times@[#[trigger] order@[i] as int] <= times@[#[trigger] order@[j] as int],
                forall|i: int, j: int| 0 <= i < j < order@.len() ==> #[trigger] order@[i] != #[trigger] order@[j],
            decreases times.len() - k,
        {
            let t = times[k];
            let mut pos: usize = 0;
            while pos < order.len() && times[order[pos]] <= t
                invariant
                    pos <= order@.len(),
                    forall|i: int| 0 <= i < order@.len() ==> (#[trigger] order@[i]) < k,
                    k < times@.len(),
                    forall|a: int| 0 <= a < pos ==> times@[#[trigger] order@[a] as int] <= t,
                decreases order@.len() - pos,
            {
                pos = pos + 1;
            }
            let ghost before = order@;
            order.insert(pos, k);
            proof {
                assert forall|a: int, b: int| 0 <= a < b < order@.len() implies
                    times@[#[trigger] order@[a] as int] <= times@[#[trigger] order@[b] as int] by {
                    if b < pos {
                        assert(order@[a] == before[a] && order@[b] == before[b]);
                    } else if b == pos {
                        assert(order@[a] == before[a]);
                    } else if a < pos {
                        assert(order@[a] == before[a] && order@[b] == before[b - 1]);
                        if a < b - 1 {
                            assert(times@[before[a] as int] <= times@[before[b - 1] as int]);
                        }
                    } else if a == pos {
                        assert(order@[b] == before[b - 1]);
                        assert(times@[before[pos as int] as int] > t);
                        if (pos as int) < b - 1 {
                            assert(times@[before[pos as int] as int] <= times@[before[b - 1] as int]);
                        }
                    } else {
                        assert(order@[a] == before[a - 1] && order@[b] == before[b - 1]);
                    }
                }
                assert forall|a: int, b: int| 0 <= a < b < order@.len() implies #[trigger] order@[a] != #[trigger] order@[b] by {
                    if a == pos {
                        assert(order@[b] == before[b - 1]);
                    } else if b == pos {
                        assert(order@[a] == before[a]);
                    } else if a < pos && b < pos {
                        assert(order@[a] == before[a] && order@[b] == before[b]);
                    } else if a < pos {
                        assert(order@[a] == before[a] && order@[b] == before[b - 1]);
                    } else {
                        assert(order@[a] == before[a - 1] && order@[b] == before[b - 1]);
                    }
                }
            }
            k = k + 1;
        }
        order
    }

    /// The log directory.
    pub fn log_dir(&self) -> (r: &str)
        ensures
            r@ == self.dir(),
    {
        self.log_dir.as_str()
    }

    /// How many rotated files are kept.
    pub fn max_log_files(&self) -> (r: usize)
        ensures
            r == self.keep(),
    {
        self.max_log_files
    }

    /// The size from which a log is rotated.
    pub fn max_log_size(&self) -> (r: u64)
        ensures
            r == self.size_limit(),
    {
        self.max_log_size
    }
}

} // verus!
