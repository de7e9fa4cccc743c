//! Turning sensor telemetry into context updates: file-system events from the
//! minifilter and hook events from the user-mode hooks.

use vstd::prelude::*;

use crate::canonical::fsc_canonicalize_path;
use crate::file_context::{FileContextKey, FileTelemetryUpdate, FileTime, KeyView};
use crate::process_context::ProcessContextUpdate;
use crate::signatures::{get_location_flags, location_flags, FileFlags, ProcessFlags};
use crate::text::{decode_utf16_lossy, utf16_lossy};

verus! {

/// What a rename asked for: its flags and the new name, NUL-padded.
#[derive(Debug, Clone)]
pub struct RenameMeta {
    pub flags: u32,
    pub new_file_path: Vec<u16>,
}

/// A change to a file other than a write.
#[derive(Debug, Clone)]
pub enum FsModOperation {
    Rename(RenameMeta),
}

/// The kinds of file-system event the minifilter reports.
#[derive(Debug, Clone)]
pub enum FsEventType {
    FileOpen,
    FileCreate,
    FileWrite,
    FileModify(FsModOperation),
    FileDelete,
}

/// A file-system event as the minifilter reports it.
#[derive(Debug, Clone)]
pub struct GalateaFsEvent {
    pub process_id: u64,
    pub process_start_key: u64,
    pub request_id: u64,
    /// The NTFS file index, or 0 when the volume could not give one.
    pub file_index: u64,
    pub event_type: FsEventType,
    /// The path as UTF-16, ended by a NUL when shorter than the buffer.
    pub file_path: Vec<u16>,
}

/// The units of a path before its first NUL, or all of them.
pub open spec fn before_nul(units: Seq<u16>) -> Seq<u16> {
    if exists|i: int| 0 <= i < units.len() && units[i] == 0 {
        let i = choose|i: int|
            0 <= i < units.len() && units[i] == 0 && forall|j: int| 0 <= j < i ==> units[j] != 0;
        units.subrange(0, i)
    } else {
        units
    }
}

/// The text of a path from its units before the first NUL.
pub fn fs_event_path(units: &[u16]) -> (r: String)
    ensures
        r@ == utf16_lossy(before_nul(units@)),
{
    let n = units.len();
    let mut end: usize = 0;
    while end < n && units[end] != 0
        invariant
            0 <= end <= n,
            n == units@.len(),
            forall|j: int| 0 <= j < end ==> units@[j] != 0,
        decreases n - end,
    {
        end = end + 1;
    }
    proof {
        if end < n {
            assert(units@[end as int] == 0);
            let i = choose|i: int|
                0 <= i < units@.len() && units@[i] == 0 && forall|j: int|
                    0 <= j < i ==> units@[j] != 0;
            if i < end {
                assert(units@[i] != 0);
            }
            if end < i {
                assert(units@[end as int] != 0);
            }
            assert(i == end);
        } else {
            assert(units@.subrange(0, n as int) =~= units@);
        }
    }
    decode_utf16_lossy(vstd::slice::slice_subrange(units, 0, end))
}

/// A file index reported as 0 means none could be obtained.
pub open spec fn reported_index(raw: u64) -> Option<u64> {
    if raw != 0 {
        Some(raw)
    } else {
        None
    }
}

/// The telemetry of a write to the file at an already canonical path: the
/// path, the file index, the time of the write, and the write flag followed
/// by the flags of the path's location.
pub open spec fn write_update(path: Seq<char>, file_index: Option<u64>, now: FileTime, update: FileTelemetryUpdate) -> bool {
    &&& update.normalized_file_path matches Some(p) && p@ == path
    &&& update.file_index == file_index
    &&& update.last_write_process is None
    &&& update.last_write_time == Some(now)
    &&& update.last_rename_time is None
    &&& update.original_name is None
    &&& update.matching_flags matches Some(f) && f@ == seq![FileFlags::FileWriteSuccess]
        + location_flags(path)
}

/// The context key and telemetry of a write to the file at an already
/// canonical path, observed at `now`.
pub fn write_telemetry_for(path: String, file_index: Option<u64>, now: FileTime) -> (r: (
    FileContextKey,
    FileTelemetryUpdate,
))
    ensures
        r.0@ == match file_index {
            Some(i) => KeyView::FileIndex(i),
            None => KeyView::Path(path@),
        },
        write_update(path@, file_index, now, r.1),
{
    let mut matching_flags: Vec<FileFlags> = Vec::new();
    matching_flags.push(FileFlags::FileWriteSuccess);
    let mut location = get_location_flags(path.as_str());
    matching_flags.append(&mut location);
    let key = FileContextKey::from_canonical_identity(path.clone(), file_index);
    let update = FileTelemetryUpdate {
        normalized_file_path: Some(path),
        file_index,
        last_write_process: None,
        last_write_time: Some(now),
        last_rename_time: None,
        original_name: None,
        matching_flags: Some(matching_flags),
    };
    (key, update)
}

/// What a file-system event tells the file context cache: for a write, the
/// key and telemetry of the written file (its path canonicalized as the file
/// system resolves it now); nothing for other events.
pub fn fs_event_telemetry(event: &GalateaFsEvent, now: FileTime) -> (r: Option<
    (FileContextKey, FileTelemetryUpdate),
>)
    ensures
        !(event.event_type is FileWrite) ==> r is None,
        event.event_type is FileWrite ==> (r matches Some((key, update)) && exists|
            p: Seq<char>,
        |
            {
                &&& key@ == match reported_index(event.file_index) {
                    Some(i) => KeyView::FileIndex(i),
                    None => KeyView::Path(p),
                }
                &&& write_update(p, reported_index(event.file_index), now, update)
            }),
{
    match event.event_type {
        FsEventType::FileWrite => {
            let path = fs_event_path(event.file_path.as_slice());
            let file_index = if event.file_index != 0 {
                Some(event.file_index)
            } else {
                None
            };
            let normalized = fsc_canonicalize_path(path.as_str());
            let ghost p = normalized@;
            let r = write_telemetry_for(normalized, file_index, now);
            assert(write_update(p, reported_index(event.file_index), now, r.1));
            Some(r)
        },
        _ => None,
    }
}

/// The hook event that reports a process opening another process.
pub const HOOK_EVENT_OPEN_PROCESS: u16 = 0;

/// The hook event that reports a process allocating memory in another.
pub const HOOK_EVENT_ALLOCATE_VIRTUAL_MEMORY: u16 = 1;

/// The flag a hook event sets on the acting process, if it is one the
/// agent knows.
pub open spec fn hook_event_flag(event_id: u16) -> Option<ProcessFlags> {
    if event_id == HOOK_EVENT_OPEN_PROCESS {
        Some(ProcessFlags::OpenedRemoteProcess)
    } else if event_id == HOOK_EVENT_ALLOCATE_VIRTUAL_MEMORY {
        Some(ProcessFlags::AllocedVMemInRemoteProcess)
    } else {
        None
    }
}

/// The update a hook event makes to the acting process's context: only its
/// flag, for the events the agent knows.
pub fn hook_event_update(event_id: u16) -> (r: Option<ProcessContextUpdate>)
    ensures
        match hook_event_flag(event_id) {
            None => r is None,
            Some(f) => r matches Some(u) && {
                &&& u.pid is None
                &&& u.process_start_key is None
                &&& u.behavioural_score is None
                &&& u.image_path is None
                &&& u.image_context_key is None
                &&& u.matching_flags matches Some(v) && v@ == seq![f]
            },
        },
{
    let flag = if event_id == HOOK_EVENT_OPEN_PROCESS {
        ProcessFlags::OpenedRemoteProcess
    } else if event_id == HOOK_EVENT_ALLOCATE_VIRTUAL_MEMORY {
        ProcessFlags::AllocedVMemInRemoteProcess
    } else {
        return None;
    };
    let mut flags: Vec<ProcessFlags> = Vec::new();
    flags.push(flag);
    assert(flags@ =~= seq![flag]);
    Some(
        ProcessContextUpdate {
            pid: None,
            process_start_key: None,
            behavioural_score: None,
            image_path: None,
            image_context_key: None,
            matching_flags: Some(flags),
        },
    )
}

} // verus!
