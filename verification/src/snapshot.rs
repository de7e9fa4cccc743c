//! The read-only copies of file contexts that the agent hands to the GUI.

use vstd::prelude::*;

use crate::file_context::{
    copy_opt_string, FileContext, FileContextKey, FileContextView, FileTime, FileVerdict, KeyView,
    ScanSummary,
};
use crate::signatures::FileFlags;

verus! {

/// The key under which a snapshot lists a context.
#[derive(Debug, Clone)]
pub enum FileContextKeySnapshot {
    FileIndex(u64),
    Path(String),
}

/// A file flag as shown to the GUI.
#[derive(Debug, Clone, Copy, PartialEq, Eq, Structural)]
pub enum FileFlagSnapshot {
    FileWriteSuccess,
    WhiteListed,
    BlackListed,
    StaticScanMalicious,
    StaticScanSuspicious,
    StaticScanBeneign,
    InAutoStartLocation,
    InTempLocation,
    RenamedToExecutable,
    FileCreateSuccess,
}

/// A scan verdict as shown to the GUI.
#[derive(Debug, Clone, Copy, PartialEq, Eq, Structural)]
pub enum FileVerdictSnapshot {
    Benign,
    Suspicious,
    Malicious,
}

/// A scan summary as shown to the GUI.
#[derive(Debug, Clone, Copy, PartialEq, Eq, Structural)]
pub struct FileScanSummarySnapshot {
    pub verdict: FileVerdictSnapshot,
    pub threat_score: i32,
    pub file_size: u64,
    pub mod_time: FileTime,
    pub file_index: Option<u64>,
}

/// A file context as shown to the GUI.
#[derive(Debug, Clone)]
pub struct FileContextSnapshot {
    pub key: FileContextKeySnapshot,
    pub normalized_file_path: Option<String>,
    pub file_index: Option<u64>,
    pub last_write_process: Option<String>,
    pub last_write_time: Option<FileTime>,
    pub last_rename_time: Option<FileTime>,
    pub original_name: Option<String>,
    pub matching_flags: Vec<FileFlagSnapshot>,
    pub last_scan_summary: Option<FileScanSummarySnapshot>,
}

/// The view of a snapshot key.
pub open spec fn key_snapshot_view(k: FileContextKeySnapshot) -> KeyView {
    match k {
        FileContextKeySnapshot::FileIndex(i) => KeyView::FileIndex(i),
        FileContextKeySnapshot::Path(p) => KeyView::Path(p@),
    }
}

/// How a flag is shown; the unset flag is not shown.
pub open spec fn flag_snapshot_of(f: FileFlags) -> Option<FileFlagSnapshot> {
    match f {
        FileFlags::Unset => None,
        FileFlags::FileWriteSuccess => Some(FileFlagSnapshot::FileWriteSuccess),
        FileFlags::WhiteListed => Some(FileFlagSnapshot::WhiteListed),
        FileFlags::BlackListed => Some(FileFlagSnapshot::BlackListed),
        FileFlags::StaticScanMalicious => Some(FileFlagSnapshot::StaticScanMalicious),
        FileFlags::StaticScanSuspicious => Some(FileFlagSnapshot::StaticScanSuspicious),
        FileFlags::StaticScanBeneign => Some(FileFlagSnapshot::StaticScanBeneign),
        FileFlags::InAutoStartLocation => Some(FileFlagSnapshot::InAutoStartLocation),
        FileFlags::InTempLocation => Some(FileFlagSnapshot::InTempLocation),
        FileFlags::RenamedToExecutable => Some(FileFlagSnapshot::RenamedToExecutable),
        FileFlags::FileCreateSuccess => Some(FileFlagSnapshot::FileCreateSuccess),
    }
}

/// The flags as shown: each shown flag once, in order of first occurrence.
pub open spec fn flag_snapshots_of(flags: Seq<FileFlags>) -> Seq<FileFlagSnapshot>
    decreases flags.len(),
{
    if flags.len() == 0 {
        seq![]
    } else {
        let prev = flag_snapshots_of(flags.drop_last());
        match flag_snapshot_of(flags.last()) {
            Some(s) => if prev.contains(s) {
                prev
            } else {
                prev.push(s)
            },
            None => prev,
        }
    }
}

/// How a scan summary is shown.
pub open spec fn summary_snapshot_of(s: ScanSummary) -> FileScanSummarySnapshot {
    FileScanSummarySnapshot {
        verdict: match s.verdict {
            FileVerdict::Benign => FileVerdictSnapshot::Benign,
            FileVerdict::Suspicious => FileVerdictSnapshot::Suspicious,
            FileVerdict::Malicious => FileVerdictSnapshot::Malicious,
        },
        threat_score: s.threat_score,
        file_size: s.file_size,
        mod_time: s.mod_time,
        file_index: s.file_index,
    }
}

/// Whether `snap` shows context `c` under key `k`.
pub open spec fn shows(snap: FileContextSnapshot, k: KeyView, c: FileContextView) -> bool {
    &&& key_snapshot_view(snap.key) == k
    &&& match snap.normalized_file_path {
        Some(p) => c.normalized_file_path == Some(p@),
        None => c.normalized_file_path is None,
    }
    &&& snap.file_index == c.file_index
    &&& match snap.last_write_process {
        Some(p) => c.last_write_process == Some(p@),
        None => c.last_write_process is None,
    }
    &&& snap.last_write_time == c.last_write_time
    &&& snap.last_rename_time == c.last_rename_time
    &&& match snap.original_name {
        Some(p) => c.original_name == Some(p@),
        None => c.original_name is None,
    }
    &&& snap.matching_flags@ == flag_snapshots_of(c.matching_flags)
    &&& snap.last_scan_summary == match c.last_scan_summary {
        Some(s) => Some(summary_snapshot_of(s)),
        None => None,
    }
}

/// The key a context is listed under: its first file-index alias, else its
/// first alias, else an empty path.
pub open spec fn listed_key(aliases: Seq<KeyView>) -> KeyView {
    match first_index_alias(aliases) {
        Some(k) => k,
        None => if aliases.len() > 0 {
            aliases[0]
        } else {
            KeyView::Path(seq![])
        },
    }
}

/// The first file-index alias of a list is one of its file-index aliases,
/// and there is none exactly when the list has no file-index alias.
pub proof fn lemma_first_index_alias(aliases: Seq<KeyView>)
    ensures
        match first_index_alias(aliases) {
            Some(k) => k is FileIndex && aliases.contains(k),
            None => forall|i: int| 0 <= i < aliases.len() ==> !(#[trigger] aliases[i] is FileIndex),
        },
    decreases aliases.len(),
{
    if aliases.len() > 0 && !(aliases[0] is FileIndex) {
        let rest = aliases.drop_first();
        lemma_first_index_alias(rest);
        match first_index_alias(rest) {
            Some(k) => {
                let j = choose|j: int| 0 <= j < rest.len() && rest[j] == k;
                assert(aliases[j + 1] == k);
            },
            None => {
                assert forall|i: int| 0 <= i < aliases.len() implies !(#[trigger] aliases[i] is FileIndex) by {
                    if i > 0 {
                        assert(aliases[i] == rest[i - 1]);
                    }
                }
            },
        }
    } else if aliases.len() > 0 {
        assert(aliases[0] == aliases[0]);
    }
}

/// The first file-index alias in a list.
pub open spec fn first_index_alias(aliases: Seq<KeyView>) -> Option<KeyView>
    decreases aliases.len(),
{
    if aliases.len() == 0 {
        None
    } else if aliases[0] is FileIndex {
        Some(aliases[0])
    } else {
        first_index_alias(aliases.drop_first())
    }
}

/// The key a context is listed under, chosen among its aliases.
pub fn snapshot_key(aliases: &Vec<FileContextKey>) -> (r: FileContextKey)
    ensures
        r@ == listed_key(aliases@.map_values(|k: FileContextKey| k@)),
{
    let ghost vs = aliases@.map_values(|k: FileContextKey| k@);
    let n = aliases.len();
    let mut i: usize = 0;
    assert(vs.subrange(0, n as int) =~= vs);
    while i < n
        invariant
            0 <= i <= n,
            n == aliases@.len(),
            vs == aliases@.map_values(|k: FileContextKey| k@),
            first_index_alias(vs) == first_index_alias(vs.subrange(i as int, n as int)),
        decreases n - i,
    {
        let ghost rest = vs.subrange(i as int, n as int);
        assert(rest[0] == aliases@[i as int]@);
        if aliases[i].is_file_index() {
            return aliases[i].copy_key();
        }
        assert(rest.drop_first() =~= vs.subrange(i + 1, n as int));
        i = i + 1;
    }
    if n > 0 {
        aliases[0].copy_key()
    } else {
        let r = FileContextKey::Path(String::new());
        assert(r@ == KeyView::Path(seq![]));
        r
    }
}

/// How a flag is shown; the unset flag is not shown.
pub fn file_flag_snapshot(flag: FileFlags) -> (r: Option<FileFlagSnapshot>)
    ensures
        r == flag_snapshot_of(flag),
{
    match flag {
        FileFlags::Unset => None,
        FileFlags::FileWriteSuccess => Some(FileFlagSnapshot::FileWriteSuccess),
        FileFlags::WhiteListed => Some(FileFlagSnapshot::WhiteListed),
        FileFlags::BlackListed => Some(FileFlagSnapshot::BlackListed),
        FileFlags::StaticScanMalicious => Some(FileFlagSnapshot::StaticScanMalicious),
        FileFlags::StaticScanSuspicious => Some(FileFlagSnapshot::StaticScanSuspicious),
        FileFlags::StaticScanBeneign => Some(FileFlagSnapshot::StaticScanBeneign),
        FileFlags::InAutoStartLocation => Some(FileFlagSnapshot::InAutoStartLocation),
        FileFlags::InTempLocation => Some(FileFlagSnapshot::InTempLocation),
        FileFlags::RenamedToExecutable => Some(FileFlagSnapshot::RenamedToExecutable),
        FileFlags::FileCreateSuccess => Some(FileFlagSnapshot::FileCreateSuccess),
    }
}

fn snapshots_contain(v: &Vec<FileFlagSnapshot>, s: FileFlagSnapshot) -> (r: bool)
    ensures
        r == v@.contains(s),
{
    let mut i: usize = 0;
    while i < v.len()
        invariant
            0 <= i <= v@.len(),
            forall|j: int| 0 <= j < i ==> v@[j] != s,
        decreases v@.len() - i,
    {
        if v[i] == s {
            assert(v@[i as int] == s);
            return true;
        }
        i = i + 1;
    }
    false
}

/// The flags as shown: each shown flag once, in order of first occurrence.
pub fn file_flag_snapshots(flags: &[FileFlags]) -> (r: Vec<FileFlagSnapshot>)
    ensures
        r@ == flag_snapshots_of(flags@),
{
    let mut snapshots: Vec<FileFlagSnapshot> = Vec::new();
    let mut i: usize = 0;
    while i < flags.len()
        invariant
            0 <= i <= flags@.len(),
            snapshots@ == flag_snapshots_of(flags@.subrange(0, i as int)),
        decreases flags@.len() - i,
    {
        let ghost prefix = flags@.subrange(0, i + 1);
        assert(prefix.drop_last() =~= flags@.subrange(0, i as int));
        assert(prefix.last() == flags@[i as int]);
        match file_flag_snapshot(flags[i]) {
            Some(s) => {
                if !snapshots_contain(&snapshots, s) {
                    snapshots.push(s);
                }
            },
            None => {},
        }
        i = i + 1;
    }
    assert(flags@.subrange(0, flags@.len() as int) =~= flags@);
    snapshots
}

/// How a scan summary is shown.
pub fn scan_summary_snapshot(scan: &ScanSummary) -> (r: FileScanSummarySnapshot)
    ensures
        r == summary_snapshot_of(*scan),
{
    FileScanSummarySnapshot {
        verdict: match scan.verdict {
            FileVerdict::Benign => FileVerdictSnapshot::Benign,
            FileVerdict::Suspicious => FileVerdictSnapshot::Suspicious,
            FileVerdict::Malicious => FileVerdictSnapshot::Malicious,
        },
        threat_score: scan.threat_score,
        file_size: scan.file_size,
        mod_time: scan.mod_time,
        file_index: scan.file_index,
    }
}

fn opt_str_to_string(o: Option<&str>) -> (r: Option<String>)
    ensures
        match o {
            Some(s) => r matches Some(t) && t@ == s@,
            None => r is None,
        },
{
    match o {
        Some(s) => Some(String::from_str(s)),
        None => None,
    }
}

/// The snapshot of context `context` listed under `key`.
pub fn file_context_snapshot(key: &FileContextKey, context: &FileContext) -> (r: FileContextSnapshot)
    ensures
        shows(r, key@, context@),
{
    let key_snapshot = match key {
        FileContextKey::FileIndex(i) => FileContextKeySnapshot::FileIndex(*i),
        FileContextKey::Path(p) => FileContextKeySnapshot::Path(p.clone()),
    };
    let summary = match context.last_scan_summary() {
        Some(s) => Some(scan_summary_snapshot(s)),
        None => None,
    };
    FileContextSnapshot {
        key: key_snapshot,
        normalized_file_path: opt_str_to_string(context.normalized_file_path()),
        file_index: context.file_index(),
        last_write_process: opt_str_to_string(context.last_write_process()),
        last_write_time: context.last_write_time(),
        last_rename_time: context.last_rename_time(),
        original_name: opt_str_to_string(context.original_name()),
        matching_flags: file_flag_snapshots(context.flags()),
        last_scan_summary: summary,
    }
}

} // verus!
