//! File contexts: what the agent has learned about one file (its path, its
//! NTFS index, its writers, renames, flags and latest static scan), the keys
//! under which a context is found, and the partial updates that telemetry
//! applies to it.

use vstd::prelude::*;

use crate::signatures::FileFlags;

verus! {

/// A point in time as seconds and nanoseconds after the UNIX epoch.
#[derive(Debug, Clone, Copy, PartialEq, Eq, Structural)]
pub struct FileTime {
    pub secs: u64,
    pub nanos: u32,
}

/// Outcome of a static scan of a file.
#[derive(Debug, Clone, Copy, PartialEq, Eq, Structural)]
pub enum FileVerdict {
    Benign,
    Suspicious,
    Malicious,
}

/// The latest static scan result recorded for a file.
#[derive(Debug, Clone, Copy, PartialEq, Eq, Structural)]
pub struct ScanSummary {
    pub verdict: FileVerdict,
    pub threat_score: i32,
    pub file_size: u64,
    pub mod_time: FileTime,
    pub file_index: Option<u64>,
}

/// Stable lookup key for file context entries.
#[derive(Debug, Clone)]
pub enum FileContextKey {
    /// NTFS file index when available.
    FileIndex(u64),
    /// Canonicalized path fallback when stable file identity is unavailable.
    Path(String),
}

/// The mathematical value of a [`FileContextKey`].
pub enum KeyView {
    FileIndex(u64),
    Path(Seq<char>),
}

impl View for FileContextKey {
    type V = KeyView;

    open spec fn view(&self) -> KeyView {
        match self {
            FileContextKey::FileIndex(i) => KeyView::FileIndex(*i),
            FileContextKey::Path(p) => KeyView::Path(p@),
        }
    }
}

/// The view of an optional string.
pub open spec fn opt_str(o: Option<String>) -> Option<Seq<char>> {
    match o {
        Some(s) => Some(s@),
        None => None,
    }
}

/// Copies an optional string.
pub fn copy_opt_string(o: &Option<String>) -> (r: Option<String>)
    ensures
        r == *o,
{
    match o {
        Some(s) => Some(s.clone()),
        None => None,
    }
}

/// Copies a list of file flags.
pub fn copy_flags(v: &Vec<FileFlags>) -> (r: Vec<FileFlags>)
    ensures
        r@ == v@,
{
    let mut r: Vec<FileFlags> = Vec::new();
    let mut i: usize = 0;
    while i < v.len()
        invariant
            0 <= i <= v@.len(),
            r@ == v@.subrange(0, i as int),
        decreases v@.len() - i,
    {
        r.push(v[i]);
        assert(v@.subrange(0, i + 1) =~= v@.subrange(0, i as int).push(v@[i as int]));
        i = i + 1;
    }
    assert(v@.subrange(0, v@.len() as int) =~= v@);
    r
}

impl FileContextKey {
    /// A copy of this key.
    pub fn copy_key(&self) -> (r: FileContextKey)
        ensures
            r == *self,
            r@ == self@,
    {
        match self {
            FileContextKey::FileIndex(i) => FileContextKey::FileIndex(*i),
            FileContextKey::Path(p) => FileContextKey::Path(p.clone()),
        }
    }

    /// Whether two keys denote the same key.
    pub fn same_key(&self, other: &FileContextKey) -> (r: bool)
        ensures
            r == (self@ == other@),
    {
        match self {
            FileContextKey::FileIndex(a) => match other {
                FileContextKey::FileIndex(b) => *a == *b,
                FileContextKey::Path(_) => false,
            },
            FileContextKey::Path(a) => match other {
                FileContextKey::FileIndex(_) => false,
                FileContextKey::Path(b) => {
                    let same: bool = a.eq(b);
                    same
                },
            },
        }
    }

    /// Whether this key is a file-index key.
    pub fn is_file_index(&self) -> (r: bool)
        ensures
            r == (self@ is FileIndex),
    {
        match self {
            FileContextKey::FileIndex(_) => true,
            FileContextKey::Path(_) => false,
        }
    }
}

/// Partial file telemetry update data.
#[derive(Debug, Clone)]
pub struct FileTelemetryUpdate {
    /// Current normalized file path when observed.
    pub normalized_file_path: Option<String>,
    /// NTFS file index when available.
    pub file_index: Option<u64>,
    /// Process image responsible for the latest write.
    pub last_write_process: Option<String>,
    /// Timestamp of the latest observed write.
    pub last_write_time: Option<FileTime>,
    /// Timestamp of the latest observed rename.
    pub last_rename_time: Option<FileTime>,
    /// Original file name before a rename when observed.
    pub original_name: Option<String>,
    /// Matching flags on the file.
    pub matching_flags: Option<Vec<FileFlags>>,
}

/// The mathematical value of a [`FileContext`].
pub struct FileContextView {
    pub normalized_file_path: Option<Seq<char>>,
    pub file_index: Option<u64>,
    pub last_write_process: Option<Seq<char>>,
    pub last_write_time: Option<FileTime>,
    pub last_rename_time: Option<FileTime>,
    pub original_name: Option<Seq<char>>,
    pub last_scan_summary: Option<ScanSummary>,
    pub matching_flags: Seq<FileFlags>,
}

/// Contextual information about a file used during correlation.
#[derive(Debug, Clone)]
pub struct FileContext {
    normalized_file_path: Option<String>,
    file_index: Option<u64>,
    last_write_process: Option<String>,
    last_write_time: Option<FileTime>,
    last_rename_time: Option<FileTime>,
    original_name: Option<String>,
    last_scan_summary: Option<ScanSummary>,
    matching_flags: Vec<FileFlags>,
}

impl View for FileContext {
    type V = FileContextView;

    closed spec fn view(&self) -> FileContextView {
        FileContextView {
            normalized_file_path: opt_str(self.normalized_file_path),
            file_index: self.file_index,
            last_write_process: opt_str(self.last_write_process),
            last_write_time: self.last_write_time,
            last_rename_time: self.last_rename_time,
            original_name: opt_str(self.original_name),
            last_scan_summary: self.last_scan_summary,
            matching_flags: self.matching_flags@,
        }
    }
}

/// The context of a file nothing is known about yet.
pub open spec fn empty_context() -> FileContextView {
    FileContextView {
        normalized_file_path: None,
        file_index: None,
        last_write_process: None,
        last_write_time: None,
        last_rename_time: None,
        original_name: None,
        last_scan_summary: None,
        matching_flags: seq![],
    }
}

/// A field of a partial update replaces the old value where present.
pub open spec fn overwrite<T>(new: Option<T>, old: Option<T>) -> Option<T> {
    match new {
        Some(v) => Some(v),
        None => old,
    }
}

/// A telemetry update as a change of context: fields that are present
/// replace the old ones, flags are appended.
pub open spec fn telemetry_applied(c: FileContextView, u: FileTelemetryUpdate) -> FileContextView {
    FileContextView {
        normalized_file_path: overwrite(opt_str(u.normalized_file_path), c.normalized_file_path),
        file_index: overwrite(u.file_index, c.file_index),
        last_write_process: overwrite(opt_str(u.last_write_process), c.last_write_process),
        last_write_time: overwrite(u.last_write_time, c.last_write_time),
        last_rename_time: overwrite(u.last_rename_time, c.last_rename_time),
        original_name: overwrite(opt_str(u.original_name), c.original_name),
        last_scan_summary: c.last_scan_summary,
        matching_flags: match u.matching_flags {
            Some(f) => c.matching_flags + f@,
            None => c.matching_flags,
        },
    }
}

/// Recording a scan summary: its file index (when known) and the summary
/// itself replace the old ones.
pub open spec fn scan_summary_applied(c: FileContextView, s: ScanSummary) -> FileContextView {
    FileContextView {
        file_index: overwrite(s.file_index, c.file_index),
        last_scan_summary: Some(s),
        ..c
    }
}

/// Flags appended to a context.
pub open spec fn flags_applied(c: FileContextView, f: Seq<FileFlags>) -> FileContextView {
    FileContextView { matching_flags: c.matching_flags + f, ..c }
}

/// Whether a flag is one of the high-risk flags.
pub open spec fn is_high_risk_flag(f: FileFlags) -> bool {
    f == FileFlags::BlackListed || f == FileFlags::StaticScanMalicious || f
        == FileFlags::StaticScanSuspicious
}

/// A context belongs to the protected tier when it carries a high-risk flag,
/// its latest scan was suspicious or malicious, or it sits in a temporary
/// location and was renamed to an executable.
pub open spec fn context_is_high_priority(c: FileContextView) -> bool {
    let flags = c.matching_flags;
    ||| exists|i: int| 0 <= i < flags.len() && is_high_risk_flag(#[trigger] flags[i])
    ||| (match c.last_scan_summary {
        Some(s) => s.verdict == FileVerdict::Suspicious || s.verdict == FileVerdict::Malicious,
        None => false,
    })
    ||| flags.contains(FileFlags::InTempLocation) && flags.contains(FileFlags::RenamedToExecutable)
}

fn flags_contain(flags: &Vec<FileFlags>, f: FileFlags) -> (r: bool)
    ensures
        r == flags@.contains(f),
{
    let mut i: usize = 0;
    while i < flags.len()
        invariant
            0 <= i <= flags@.len(),
            forall|j: int| 0 <= j < i ==> flags@[j] != f,
        decreases flags@.len() - i,
    {
        if flags[i] == f {
            assert(flags@[i as int] == f);
            return true;
        }
        i = i + 1;
    }
    false
}

impl FileContext {
    /// The context of a file nothing is known about yet.
    pub fn empty() -> (r: FileContext)
        ensures
            r@ == empty_context(),
    {
        let r = FileContext {
            normalized_file_path: None,
            file_index: None,
            last_write_process: None,
            last_write_time: None,
            last_rename_time: None,
            original_name: None,
            last_scan_summary: None,
            matching_flags: Vec::new(),
        };
        assert(r@.matching_flags =~= seq![]);
        r
    }

    /// A copy of this context.
    pub fn duplicate(&self) -> (r: FileContext)
        ensures
            r@ == self@,
    {
        FileContext {
            normalized_file_path: copy_opt_string(&self.normalized_file_path),
            file_index: self.file_index,
            last_write_process: copy_opt_string(&self.last_write_process),
            last_write_time: self.last_write_time,
            last_rename_time: self.last_rename_time,
            original_name: copy_opt_string(&self.original_name),
            last_scan_summary: self.last_scan_summary,
            matching_flags: copy_flags(&self.matching_flags),
        }
    }

    /// Returns the current normalized file path if known.
    pub fn normalized_file_path(&self) -> (r: Option<&str>)
        ensures
            match r {
                Some(s) => self@.normalized_file_path == Some(s@),
                None => self@.normalized_file_path is None,
            },
    {
        match &self.normalized_file_path {
            Some(s) => Some(s.as_str()),
            None => None,
        }
    }

    /// Returns the current file index if known.
    pub fn file_index(&self) -> (r: Option<u64>)
        ensures
            r == self@.file_index,
    {
        self.file_index
    }

    /// Returns the process image responsible for the latest write if known.
    pub fn last_write_process(&self) -> (r: Option<&str>)
        ensures
            match r {
                Some(s) => self@.last_write_process == Some(s@),
                None => self@.last_write_process is None,
            },
    {
        match &self.last_write_process {
            Some(s) => Some(s.as_str()),
            None => None,
        }
    }

    /// Returns the timestamp of the latest observed write if known.
    pub fn last_write_time(&self) -> (r: Option<FileTime>)
        ensures
            r == self@.last_write_time,
    {
        self.last_write_time
    }

    /// Returns the timestamp of the latest observed rename if known.
    pub fn last_rename_time(&self) -> (r: Option<FileTime>)
        ensures
            r == self@.last_rename_time,
    {
        self.last_rename_time
    }

    /// Returns the original file name before rename if known.
    pub fn original_name(&self) -> (r: Option<&str>)
        ensures
            match r {
                Some(s) => self@.original_name == Some(s@),
                None => self@.original_name is None,
            },
    {
        match &self.original_name {
            Some(s) => Some(s.as_str()),
            None => None,
        }
    }

    /// Returns the latest static scan summary if known.
    pub fn last_scan_summary(&self) -> (r: Option<&ScanSummary>)
        ensures
            match r {
                Some(s) => self@.last_scan_summary == Some(*s),
                None => self@.last_scan_summary is None,
            },
    {
        match &self.last_scan_summary {
            Some(s) => Some(s),
            None => None,
        }
    }

    /// Returns the accumulated correlation flags.
    pub fn flags(&self) -> (r: &[FileFlags])
        ensures
            r@ == self@.matching_flags,
    {
        self.matching_flags.as_slice()
    }

    /// Adds correlation flags to this context.
    pub fn apply_flags(&mut self, flags: Vec<FileFlags>)
        ensures
            final(self)@ == flags_applied(old(self)@, flags@),
    {
        let mut flags = flags;
        self.matching_flags.append(&mut flags);
    }

    /// Records a scan summary: its file index, when known, and the summary.
    pub fn apply_scan_summary(&mut self, summary: ScanSummary)
        ensures
            final(self)@ == scan_summary_applied(old(self)@, summary),
    {
        if let Some(file_index) = summary.file_index {
            self.file_index = Some(file_index);
        }
        self.last_scan_summary = Some(summary);
    }

    /// Merges a telemetry update: present fields replace the old ones (the
    /// path canonicalized as the file system resolves it now), flags are
    /// appended.
    pub fn apply_telemetry(&mut self, update: FileTelemetryUpdate)
        ensures
            update.normalized_file_path is None ==> final(self)@ == telemetry_applied(
                old(self)@,
                update,
            ),
            update.normalized_file_path is Some ==> exists|p: String|
                final(self)@ == telemetry_applied(
                    old(self)@,
                    (FileTelemetryUpdate { normalized_file_path: Some(p), ..update }),
                ),
    {
        let ghost u0 = update;
        let mut u = update;
        match u.normalized_file_path {
            Some(path) => {
                let canonical = crate::canonical::fsc_canonicalize_path(path.as_str());
                u.normalized_file_path = Some(canonical);
                assert(u == (FileTelemetryUpdate { normalized_file_path: Some(canonical), ..u0 }));
                self.apply_canonical_telemetry(u);
            },
            None => {
                self.apply_canonical_telemetry(u);
            },
        }
    }

    /// Merges a telemetry update whose path is already canonical: present
    /// fields replace the old ones, flags are appended.
    pub fn apply_canonical_telemetry(&mut self, update: FileTelemetryUpdate)
        ensures
            final(self)@ == telemetry_applied(old(self)@, update),
            update.normalized_file_path matches Some(p) ==> final(self)@.normalized_file_path == Some(
                p@,
            ),
            update.normalized_file_path is None ==> final(self)@.normalized_file_path == old(
                self,
            )@.normalized_file_path,
    {
        let ghost u = update;
        let FileTelemetryUpdate {
            normalized_file_path,
            file_index,
            last_write_process,
            last_write_time,
            last_rename_time,
            original_name,
            matching_flags,
        } = update;
        if let Some(path) = normalized_file_path {
            self.normalized_file_path = Some(path);
        }
        if let Some(index) = file_index {
            self.file_index = Some(index);
        }
        if let Some(process) = last_write_process {
            self.last_write_process = Some(process);
        }
        if let Some(write_time) = last_write_time {
            self.last_write_time = Some(write_time);
        }
        if let Some(rename_time) = last_rename_time {
            self.last_rename_time = Some(rename_time);
        }
        if let Some(name) = original_name {
            self.original_name = Some(name);
        }
        if let Some(flags) = matching_flags {
            self.apply_flags(flags);
        }
        assert(self@ == telemetry_applied(old(self)@, u));
    }

    /// Whether this context belongs to the protected cache tier.
    pub fn is_high_priority(&self) -> (r: bool)
        ensures
            r == context_is_high_priority(self@),
    {
        let has_temp_location = flags_contain(&self.matching_flags, FileFlags::InTempLocation);
        let renamed_to_executable = flags_contain(
            &self.matching_flags,
            FileFlags::RenamedToExecutable,
        );
        let mut high_risk_flag = false;
        let mut i: usize = 0;
        while i < self.matching_flags.len()
            invariant
                0 <= i <= self.matching_flags@.len(),
                high_risk_flag == exists|j: int|
                    0 <= j < i && is_high_risk_flag(#[trigger] self.matching_flags@[j]),
            decreases self.matching_flags@.len() - i,
        {
            let f = self.matching_flags[i];
            if f == FileFlags::BlackListed || f == FileFlags::StaticScanMalicious || f
                == FileFlags::StaticScanSuspicious {
                high_risk_flag = true;
            }
            proof {
                if high_risk_flag {
                    if is_high_risk_flag(f) {
                        assert(is_high_risk_flag(self.matching_flags@[i as int]));
                    }
                } else {
                    assert forall|j: int|
                        0 <= j < i + 1 implies !is_high_risk_flag(
                        #[trigger] self.matching_flags@[j],
                    ) by {
                        if j == i {
                        }
                    }
                }
            }
            i = i + 1;
        }
        let high_risk_scan = match &self.last_scan_summary {
            Some(summary) => match summary.verdict {
                FileVerdict::Suspicious | FileVerdict::Malicious => true,
                FileVerdict::Benign => false,
            },
            None => false,
        };
        high_risk_flag || high_risk_scan || (has_temp_location && renamed_to_executable)
    }
}

/// A telemetry update replaces every field it carries, whatever the context
/// held before (the path of a renamed file becomes the new path), keeps
/// every field it does not carry, leaves the scan summary alone and appends
/// its flags after the old ones.
pub proof fn law_telemetry_replaces_what_it_carries(c: FileContextView, u: FileTelemetryUpdate)
    ensures
        u.normalized_file_path matches Some(p) ==> telemetry_applied(c, u).normalized_file_path == Some(
            p@,
        ),
        u.normalized_file_path is None ==> telemetry_applied(c, u).normalized_file_path
            == c.normalized_file_path,
        u.file_index matches Some(i) ==> telemetry_applied(c, u).file_index == Some(i),
        u.file_index is None ==> telemetry_applied(c, u).file_index == c.file_index,
        u.last_write_process matches Some(p) ==> telemetry_applied(c, u).last_write_process == Some(
            p@,
        ),
        u.last_write_process is None ==> telemetry_applied(c, u).last_write_process
            == c.last_write_process,
        u.last_write_time matches Some(t) ==> telemetry_applied(c, u).last_write_time == Some(t),
        u.last_write_time is None ==> telemetry_applied(c, u).last_write_time == c.last_write_time,
        u.last_rename_time matches Some(t) ==> telemetry_applied(c, u).last_rename_time == Some(t),
        u.last_rename_time is None ==> telemetry_applied(c, u).last_rename_time == c.last_rename_time,
        u.original_name matches Some(n) ==> telemetry_applied(c, u).original_name == Some(n@),
        u.original_name is None ==> telemetry_applied(c, u).original_name == c.original_name,
        telemetry_applied(c, u).last_scan_summary == c.last_scan_summary,
        telemetry_applied(c, u).matching_flags.len() >= c.matching_flags.len(),
        telemetry_applied(c, u).matching_flags.subrange(0, c.matching_flags.len() as int)
            == c.matching_flags,
        u.matching_flags matches Some(f) ==> telemetry_applied(c, u).matching_flags.subrange(
            c.matching_flags.len() as int,
            telemetry_applied(c, u).matching_flags.len() as int,
        ) == f@,
        u.matching_flags is None ==> telemetry_applied(c, u).matching_flags == c.matching_flags,
{
    let f = telemetry_applied(c, u).matching_flags;
    assert(f.subrange(0, c.matching_flags.len() as int) =~= c.matching_flags);
    if let Some(g) = u.matching_flags {
        assert(f.subrange(c.matching_flags.len() as int, f.len() as int) =~= g@);
    }
}

} // verus!
