//! The decisions of the file-system minifilter: which operations it follows
//! and reports to the agent, how it reads a rename request, and which client
//! it lets connect to its port.

use vstd::prelude::*;

use crate::sensor::{event_image, event_image_path};
use crate::telemetry::{FsEventType, GalateaFsEvent};

verus! {

/// Process IDs up to this belong to the kernel's own processes, which the
/// filter leaves alone.
pub const SYSTEM_PID_MAX: u64 = 4;

/// Whether the filter asks to see the end of an operation.
#[derive(Debug, Clone, Copy, PartialEq, Eq, Structural)]
pub enum PreopStatus {
    WithCallback,
    NoCallback,
}

/// Whether to follow a create to its end: not for the agent's own files and
/// not for the kernel's processes.
pub open spec fn follows_create(is_agent: bool, pid: u64) -> bool {
    !is_agent && pid > SYSTEM_PID_MAX
}

/// Whether to follow a create to its end.
pub fn pre_create_status(is_agent: bool, pid: u64) -> (r: PreopStatus)
    ensures
        r == if follows_create(is_agent, pid) {
            PreopStatus::WithCallback
        } else {
            PreopStatus::NoCallback
        },
{
    if is_agent || pid <= SYSTEM_PID_MAX {
        PreopStatus::NoCallback
    } else {
        PreopStatus::WithCallback
    }
}

/// What a completed create did to its file.
#[derive(Debug, Clone, Copy, PartialEq, Eq, Structural)]
pub enum CreateDisposition {
    Superseded,
    Opened,
    Created,
    Overwritten,
    Other,
}

/// Whether a completed create is reported: it succeeded, made or replaced
/// the file, the file has a name, and the caller is not the agent.
pub open spec fn create_reported(
    is_agent: bool,
    status: i32,
    disposition: CreateDisposition,
    has_name: bool,
) -> bool {
    &&& !is_agent
    &&& (disposition == CreateDisposition::Created || disposition == CreateDisposition::Superseded
        || disposition == CreateDisposition::Overwritten)
    &&& status >= 0
    &&& has_name
}

/// Whether a completed create is reported.
pub fn reports_create(is_agent: bool, status: i32, disposition: CreateDisposition, has_name: bool) -> (r:
    bool)
    ensures
        r == create_reported(is_agent, status, disposition, has_name),
{
    if is_agent {
        return false;
    }
    let made = match disposition {
        CreateDisposition::Created | CreateDisposition::Superseded
        | CreateDisposition::Overwritten => true,
        _ => false,
    };
    made && status >= 0 && has_name
}

/// Whether a write is reported: the file has a name, the caller is neither
/// the agent nor one of the kernel's processes.
pub open spec fn write_reported(is_agent: bool, has_name: bool, pid: u64) -> bool {
    !is_agent && has_name && pid > SYSTEM_PID_MAX
}

/// Whether a write is reported.
pub fn reports_write(is_agent: bool, has_name: bool, pid: u64) -> (r: bool)
    ensures
        r == write_reported(is_agent, has_name, pid),
{
    !is_agent && has_name && pid > SYSTEM_PID_MAX
}

/// The class of a set-information request.
#[derive(Debug, Clone, Copy, PartialEq, Eq, Structural)]
pub enum SetInfoClass {
    Rename,
    RenameEx,
    RenameBypassAccessCheck,
    RenameExBypassAccessCheck,
    Other,
}

/// The number of UTF-16 units of the new name that a rename request
/// carries, at most 259: none when the buffer of `length` bytes cannot
/// hold the name it announces (whose bytes start at `name_offset`) or the
/// name has an odd number of bytes.
pub open spec fn rename_name_units_spec(length: nat, name_offset: nat, requested_bytes: nat) -> Option<nat> {
    if length < name_offset + 2 {
        None
    } else if requested_bytes > length - name_offset || requested_bytes % 2 != 0 {
        None
    } else if requested_bytes / 2 < 259 {
        Some(requested_bytes / 2)
    } else {
        Some(259)
    }
}

/// The number of UTF-16 units of the new name that a rename request carries.
pub fn rename_name_units(length: usize, name_offset: usize, requested_bytes: usize) -> (r: Option<usize>)
    ensures
        match r {
            Some(n) => rename_name_units_spec(length as nat, name_offset as nat, requested_bytes as nat) == Some(n as nat),
            None => rename_name_units_spec(length as nat, name_offset as nat, requested_bytes as nat) is None,
        },
{
    if length < 2 || length - 2 < name_offset {
        return None;
    }
    let available = length - name_offset;
    if requested_bytes > available || requested_bytes % 2 != 0 {
        return None;
    }
    let units = requested_bytes / 2;
    if units < 259 {
        Some(units)
    } else {
        Some(259)
    }
}

/// The flags reported for a rename: for a plain rename, replace-if-exists
/// as its flag; for the extended classes, the request's own flags.
pub open spec fn rename_flags_spec(class: SetInfoClass, replace_if_exists: bool, ex_flags: u32) -> u32 {
    if class == SetInfoClass::Rename {
        if replace_if_exists {
            FILE_RENAME_REPLACE_IF_EXISTS
        } else {
            0
        }
    } else {
        ex_flags
    }
}

/// The flag of a rename that replaces an existing file.
pub const FILE_RENAME_REPLACE_IF_EXISTS: u32 = 0x1;

/// The flags reported for a rename.
pub fn rename_flags(class: SetInfoClass, replace_if_exists: bool, ex_flags: u32) -> (r: u32)
    ensures
        r == rename_flags_spec(class, replace_if_exists, ex_flags),
{
    match class {
        SetInfoClass::Rename => if replace_if_exists {
            FILE_RENAME_REPLACE_IF_EXISTS
        } else {
            0
        },
        _ => ex_flags,
    }
}

/// Whether a set-information request is a rename.
pub open spec fn is_rename(class: SetInfoClass) -> bool {
    class != SetInfoClass::Other
}

/// Whether a rename is reported: the request is well formed, the file has
/// a name, and the caller is neither the agent nor one of the kernel's
/// processes.
pub open spec fn rename_reported(
    is_agent: bool,
    class: SetInfoClass,
    well_formed: bool,
    has_name: bool,
    pid: u64,
) -> bool {
    !is_agent && is_rename(class) && well_formed && has_name && pid > SYSTEM_PID_MAX
}

/// Whether a rename is reported.
pub fn reports_rename(is_agent: bool, class: SetInfoClass, well_formed: bool, has_name: bool, pid: u64) -> (r:
    bool)
    ensures
        r == rename_reported(is_agent, class, well_formed, has_name, pid),
{
    let rename = match class {
        SetInfoClass::Other => false,
        _ => true,
    };
    !is_agent && rename && well_formed && has_name && pid > SYSTEM_PID_MAX
}

/// The event reported for an operation on the file named `name`.
pub fn fs_event(
    pid: u64,
    start_key: u64,
    event_type: FsEventType,
    name: &[u16],
    file_index: u64,
) -> (r: GalateaFsEvent)
    ensures
        r.process_id == pid,
        r.process_start_key == start_key,
        r.request_id == 0,
        r.event_type == event_type,
        r.file_path@ == event_image(name@),
        r.file_index == file_index,
{
    GalateaFsEvent {
        process_id: pid,
        process_start_key: start_key,
        request_id: 0,
        file_index,
        event_type,
        file_path: event_image_path(name),
    }
}

/// Whether a client may connect to the filter's port: only while no other
/// client is connected.
pub fn accepts_client(connected: bool) -> (r: bool)
    ensures
        r == !connected,
{
    !connected
}

} // verus!
