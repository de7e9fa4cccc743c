//! The decisions of the kernel sensor: which images skip the freeze, which
//! processes wait for a verdict, how events reach the agent (through the one
//! pending request, else a bounded queue), how the agent's requests are
//! answered, and what a frozen thread does once its wait ends.
//!
//! The kernel performs each decision: it completes requests, queues APCs
//! and terminates or resumes threads as told.

use vstd::prelude::*;

use crate::scan_flow::GalateaEvent;
use crate::text::chars_of;

verus! {

/// Most events queued for the agent; later ones are dropped.
pub const MAX_QUEUED_EVENTS: usize = 1000;

/// The number of UTF-16 units in an event's image path buffer.
pub const IMAGE_PATH_UNITS: usize = 260;

/// Upper-cases an ASCII letter held in a UTF-16 unit.
pub open spec fn upper_unit(c: u16) -> u16 {
    if 97 <= c <= 122 {
        (c - 32) as u16
    } else {
        c
    }
}

/// Upper-cases an ASCII letter held in a UTF-16 unit.
pub fn to_upper(c: u16) -> (r: u16)
    ensures
        r == upper_unit(c),
{
    if c >= 97 && c <= 122 {
        c - 32
    } else {
        c
    }
}

/// Whether `haystack` starts with `needle`, ignoring ASCII case.
pub open spec fn starts_with_nocase(haystack: Seq<u16>, needle: Seq<u16>) -> bool {
    haystack.len() >= needle.len() && forall|i: int|
        0 <= i < needle.len() ==> upper_unit(#[trigger] haystack[i]) == upper_unit(needle[i])
}

/// Whether `haystack` starts with `needle`, ignoring ASCII case.
pub fn starts_with_ignore_case(haystack: &[u16], needle: &[u16]) -> (r: bool)
    ensures
        r == starts_with_nocase(haystack@, needle@),
{
    if haystack.len() < needle.len() {
        return false;
    }
    let mut i: usize = 0;
    while i < needle.len()
        invariant
            needle@.len() <= haystack@.len(),
            0 <= i <= needle@.len(),
            forall|k: int| 0 <= k < i ==> upper_unit(#[trigger] haystack@[k]) == upper_unit(needle@[k]),
        decreases needle@.len() - i,
    {
        if to_upper(haystack[i]) != to_upper(needle[i]) {
            return false;
        }
        i = i + 1;
    }
    true
}

/// The UTF-16 units of an ASCII text.
pub open spec fn ascii_units(s: Seq<char>) -> Seq<u16> {
    s.map_values(|c: char| c as u32 as u16)
}

/// The UTF-16 units of an ASCII text.
fn wide(s: &str) -> (r: Vec<u16>)
    ensures
        r@ == ascii_units(s@),
{
    let chars = chars_of(s);
    let mut out: Vec<u16> = Vec::new();
    let mut i: usize = 0;
    while i < chars.len()
        invariant
            0 <= i <= chars@.len(),
            chars@ == s@,
            out@ == ascii_units(s@).subrange(0, i as int),
        decreases chars@.len() - i,
    {
        let c = chars[i];
        out.push(c as u32 as u16);
        assert(ascii_units(s@).subrange(0, i + 1) =~= ascii_units(s@).subrange(0, i as int).push(
            c as u32 as u16,
        ));
        i = i + 1;
    }
    assert(ascii_units(s@).subrange(0, chars@.len() as int) =~= ascii_units(s@));
    out
}

/// The system directories whose images skip the freeze.
pub open spec fn allowlisted_prefixes() -> Seq<Seq<char>> {
    seq![
        "\\??\\C:\\Windows\\System32\\"@,
        "\\??\\C:\\Windows\\SysWOW64\\"@,
        "\\SystemRoot\\System32\\"@,
        "\\SystemRoot\\SysWOW64\\"@,
    ]
}

/// Whether an image lies in a system directory and so skips the freeze; an
/// image without a name does not.
pub open spec fn allowlisted(image: Option<Seq<u16>>) -> bool {
    match image {
        None => false,
        Some(units) => exists|i: int|
            0 <= i < 4 && starts_with_nocase(units, ascii_units(#[trigger] allowlisted_prefixes()[i])),
    }
}

/// Whether an image lies in a system directory and so skips the freeze.
pub fn is_allowlisted_static(image: Option<&[u16]>) -> (r: bool)
    ensures
        r == allowlisted(
            match image {
                Some(s) => Some(s@),
                None => None,
            },
        ),
{
    match image {
        None => false,
        Some(units) => {
            let p0 = wide("\\??\\C:\\Windows\\System32\\");
            let p1 = wide("\\??\\C:\\Windows\\SysWOW64\\");
            let p2 = wide("\\SystemRoot\\System32\\");
            let p3 = wide("\\SystemRoot\\SysWOW64\\");
            let ghost prefixes = allowlisted_prefixes();
            let r = starts_with_ignore_case(units, p0.as_slice()) || starts_with_ignore_case(
                units,
                p1.as_slice(),
            ) || starts_with_ignore_case(units, p2.as_slice()) || starts_with_ignore_case(
                units,
                p3.as_slice(),
            );
            proof {
                if r {
                    if starts_with_nocase(units@, p0@) {
                        assert(starts_with_nocase(units@, ascii_units(prefixes[0])));
                    } else if starts_with_nocase(units@, p1@) {
                        assert(starts_with_nocase(units@, ascii_units(prefixes[1])));
                    } else if starts_with_nocase(units@, p2@) {
                        assert(starts_with_nocase(units@, ascii_units(prefixes[2])));
                    } else {
                        assert(starts_with_nocase(units@, ascii_units(prefixes[3])));
                    }
                } else {
                    assert forall|i: int| 0 <= i < 4 implies !starts_with_nocase(
                        units@,
                        ascii_units(#[trigger] prefixes[i]),
                    ) by {
                        if i == 0 {
                        } else if i == 1 {
                        } else if i == 2 {
                        } else {
                        }
                    }
                }
            }
            r
        },
    }
}

/// A process held until its scan verdict arrives.
#[derive(Debug, Clone, Copy, PartialEq, Eq, Structural)]
pub struct TargetProcess {
    /// The OS process ID.
    pub pid: u64,
    /// The unique request ID assigned to this scan.
    pub request_id: u64,
}

/// The image path of an event: the first 259 units of the name, padded
/// with NULs to the buffer size.
pub open spec fn event_image(image: Seq<u16>) -> Seq<u16> {
    let len = if image.len() < 259 {
        image.len() as int
    } else {
        259
    };
    Seq::new(
        IMAGE_PATH_UNITS as nat,
        |i: int|
            if i < len {
                image[i]
            } else {
                0u16
            },
    )
}

/// The image path of an event: the first 259 units of the name, padded
/// with NULs to the buffer size.
pub fn event_image_path(image: &[u16]) -> (r: Vec<u16>)
    ensures
        r@ == event_image(image@),
{
    let len = if image.len() < 259 {
        image.len()
    } else {
        259
    };
    let mut out: Vec<u16> = Vec::new();
    let mut i: usize = 0;
    while i < IMAGE_PATH_UNITS
        invariant
            0 <= i <= IMAGE_PATH_UNITS,
            len <= image@.len(),
            len == if image@.len() < 259 {
                image@.len() as int
            } else {
                259
            },
            out@ == event_image(image@).subrange(0, i as int),
        decreases IMAGE_PATH_UNITS - i,
    {
        let u = if i < len {
            image[i]
        } else {
            0
        };
        out.push(u);
        assert(event_image(image@).subrange(0, i + 1) =~= event_image(image@).subrange(
            0,
            i as int,
        ).push(u));
        i = i + 1;
    }
    assert(event_image(image@).subrange(0, IMAGE_PATH_UNITS as int) =~= event_image(image@));
    out
}

/// How a request of the agent, or a new event, was answered.
#[derive(Debug, Clone, Copy, PartialEq, Eq, Structural)]
pub enum SensorStatus {
    Success,
    Pending,
    Unsuccessful,
    AccessDenied,
    InvalidDeviceRequest,
    BufferTooSmall,
    Cancelled,
}

/// What became of a new event.
#[derive(Debug)]
pub enum Delivery {
    /// The pending request of the agent is completed with this status and,
    /// on success, this event.
    Completed { status: SensorStatus, event: GalateaEvent },
    /// The event was queued for the agent's next request.
    Queued,
    /// The queue was full; the event was dropped.
    Dropped,
}

/// A request of the agent to the sensor.
#[derive(Debug)]
pub enum IoctlRequest {
    /// The next event; `fits` says whether the agent's buffer can hold one.
    GetEvent { fits: bool },
    /// A verdict; `input_fits` says whether the agent's buffer holds a whole
    /// verdict.
    SendVerdict { input_fits: bool, process_id: u64, request_id: u64, allowed: bool },
    /// Registration of the calling process as the agent.
    RegisterAgent,
    /// Any other control code.
    Other,
}

/// How a request of the agent was answered.
#[derive(Debug)]
pub enum IoctlReply {
    /// Completed with a status and no event.
    Status(SensorStatus),
    /// Completed with the next queued event.
    Event(GalateaEvent),
    /// Kept pending until an event arrives.
    Pending,
}

/// A suspended process and, once the agent has decided, whether it may run.
#[derive(Debug, Clone, Copy, PartialEq, Eq, Structural)]
pub struct PendingScan {
    pub request_id: u64,
    pub pid: u64,
    pub allow: Option<bool>,
}

/// The state of the sensor.
pub struct SensorState {
    /// The process identity of the registered agent.
    agent: Option<u64>,
    /// Whether a request of the agent waits for the next event.
    pending_request: bool,
    /// Events waiting for the agent, oldest first.
    queue: Vec<GalateaEvent>,
    /// Processes whose first thread is to be frozen.
    targets: Vec<TargetProcess>,
    /// Frozen processes waiting for a verdict.
    pending_scans: Vec<PendingScan>,
}

/// The abstract state of the sensor.
pub struct SensorView {
    pub agent: Option<u64>,
    pub pending_request: bool,
    pub queue: Seq<GalateaEvent>,
    pub targets: Seq<TargetProcess>,
    pub pending_scans: Seq<PendingScan>,
}

/// The first position of a target with `pid`.
pub open spec fn first_target(targets: Seq<TargetProcess>, pid: u64) -> Option<int> {
    if exists|i: int| 0 <= i < targets.len() && targets[i].pid == pid {
        Some(
            choose|i: int|
                0 <= i < targets.len() && targets[i].pid == pid && forall|j: int|
                    0 <= j < i ==> targets[j].pid != pid,
        )
    } else {
        None
    }
}

/// The first position of a pending scan of `pid` with `request_id`.
pub open spec fn first_scan(scans: Seq<PendingScan>, pid: u64, request_id: u64) -> Option<int> {
    if exists|i: int| 0 <= i < scans.len() && scans[i].pid == pid && scans[i].request_id == request_id {
        Some(
            choose|i: int|
                0 <= i < scans.len() && scans[i].pid == pid && scans[i].request_id == request_id
                    && forall|j: int|
                    0 <= j < i ==> !(scans[j].pid == pid && scans[j].request_id == request_id),
        )
    } else {
        None
    }
}

/// How the sensor answers a request of the process `caller`, and how the
/// answer changes its state.
pub open spec fn dispatch_effect(
    pre: SensorView,
    post: SensorView,
    caller: u64,
    request: IoctlRequest,
    r: IoctlReply,
) -> bool {
    match request {
        IoctlRequest::RegisterAgent => if pre.agent is None {
            &&& r == IoctlReply::Status(SensorStatus::Success)
            &&& post == (SensorView { agent: Some(caller), ..pre })
        } else {
            &&& r == IoctlReply::Status(SensorStatus::AccessDenied)
            &&& post == pre
        },
        _ => if pre.agent != Some(caller) {
            &&& r == IoctlReply::Status(SensorStatus::AccessDenied)
            &&& post == pre
        } else {
            match request {
                IoctlRequest::GetEvent { fits } => if pre.pending_request {
                    &&& r == IoctlReply::Status(SensorStatus::Unsuccessful)
                    &&& post == pre
                } else if pre.queue.len() > 0 {
                    &&& post == (SensorView { queue: pre.queue.drop_first(), ..pre })
                    &&& if fits {
                        r == IoctlReply::Event(pre.queue[0])
                    } else {
                        r == IoctlReply::Status(SensorStatus::BufferTooSmall)
                    }
                } else {
                    &&& r is Pending
                    &&& post == (SensorView { pending_request: true, ..pre })
                },
                IoctlRequest::SendVerdict {
                    input_fits,
                    process_id,
                    request_id,
                    allowed,
                } => if !input_fits {
                    &&& r == IoctlReply::Status(SensorStatus::Unsuccessful)
                    &&& post == pre
                } else {
                    &&& post.agent == pre.agent
                    &&& post.pending_request == pre.pending_request
                    &&& post.queue == pre.queue
                    &&& match first_scan(pre.pending_scans, process_id, request_id) {
                        None => r == IoctlReply::Status(SensorStatus::Unsuccessful)
                            && post.pending_scans == pre.pending_scans,
                        Some(i) => r == IoctlReply::Status(SensorStatus::Success)
                            && post.pending_scans == pre.pending_scans.update(
                            i,
                            PendingScan { request_id, pid: process_id, allow: Some(allowed) },
                        ),
                    }
                },
                _ => {
                    &&& r == IoctlReply::Status(SensorStatus::InvalidDeviceRequest)
                    &&& post == pre
                },
            }
        },
    }
}

impl SensorState {
    /// The abstract state.
    pub closed spec fn view(&self) -> SensorView {
        SensorView {
            agent: self.agent,
            pending_request: self.pending_request,
            queue: self.queue@,
            targets: self.targets@,
            pending_scans: self.pending_scans@,
        }
    }

    /// The queue stays within its bound.
    pub closed spec fn wf(&self) -> bool {
        self.queue@.len() <= MAX_QUEUED_EVENTS
    }

    /// A sensor with no agent, no events and no held processes.
    pub fn new() -> (r: SensorState)
        ensures
            r.wf(),
            r.view().agent is None,
            !r.view().pending_request,
            r.view().queue == Seq::<GalateaEvent>::empty(),
            r.view().targets == Seq::<TargetProcess>::empty(),
            r.view().pending_scans == Seq::<PendingScan>::empty(),
    {
        SensorState {
            agent: None,
            pending_request: false,
            queue: Vec::new(),
            targets: Vec::new(),
            pending_scans: Vec::new(),
        }
    }

    /// A process was created. Unless its image is allowlisted it is held
    /// for a verdict. The agent is told at once through its pending request
    /// when the kernel could claim it (`claimed`) and its buffer holds an
    /// event (`fits`); otherwise the event is queued, unless the queue is
    /// full.
    pub fn process_notify_routine(
        &mut self,
        pid: u64,
        request_id: u64,
        image: &[u16],
        allowlisted: bool,
        claimed: bool,
        fits: bool,
    ) -> (r: Delivery)
        requires
            old(self).wf(),
        ensures
            final(self).wf(),
            final(self).view().agent == old(self).view().agent,
            final(self).view().pending_scans == old(self).view().pending_scans,
            final(self).view().targets == if allowlisted {
                old(self).view().targets
            } else {
                old(self).view().targets.push(TargetProcess { pid, request_id })
            },
            ({
                if old(self).view().pending_request && claimed {
                    &&& r matches Delivery::Completed { status, event: e } && e.process_id == pid
                        && e.request_id == request_id && e.frozen == !allowlisted
                        && e.image_path@ == event_image(image@) && status == if fits {
                        SensorStatus::Success
                    } else {
                        SensorStatus::BufferTooSmall
                    }
                    &&& !final(self).view().pending_request
                    &&& final(self).view().queue == old(self).view().queue
                } else {
                    &&& final(self).view().pending_request == old(self).view().pending_request
                    &&& if old(self).view().queue.len() < MAX_QUEUED_EVENTS {
                        &&& r is Queued
                        &&& final(self).view().queue.len() == old(self).view().queue.len() + 1
                        &&& final(self).view().queue.drop_last() == old(self).view().queue
                        &&& final(self).view().queue.last().process_id == pid
                        &&& final(self).view().queue.last().request_id == request_id
                        &&& final(self).view().queue.last().frozen == !allowlisted
                        &&& final(self).view().queue.last().image_path@ == event_image(image@)
                    } else {
                        &&& r is Dropped
                        &&& final(self).view().queue == old(self).view().queue
                    }
                }
            }),
    {
        if !allowlisted {
            self.targets.push(TargetProcess { pid, request_id });
        }
        let event = GalateaEvent {
            process_id: pid,
            request_id,
            image_path: event_image_path(image),
            frozen: !allowlisted,
        };
        if self.pending_request && claimed {
            self.pending_request = false;
            let status = if fits {
                SensorStatus::Success
            } else {
                SensorStatus::BufferTooSmall
            };
            return Delivery::Completed { status, event };
        }
        if self.queue.len() < MAX_QUEUED_EVENTS {
            let ghost before = self.queue@;
            self.queue.push(event);
            assert(self.queue@.drop_last() =~= before);
            Delivery::Queued
        } else {
            Delivery::Dropped
        }
    }

    /// A thread was created: if its process is held for a verdict, it is
    /// no longer a target, and the result is the request ID whose verdict
    /// the thread waits for (the kernel then freezes it).
    pub fn thread_notify_routine(&mut self, pid: u64) -> (r: Option<u64>)
        requires
            old(self).wf(),
        ensures
            final(self).wf(),
            final(self).view().agent == old(self).view().agent,
            final(self).view().pending_request == old(self).view().pending_request,
            final(self).view().queue == old(self).view().queue,
            final(self).view().pending_scans == old(self).view().pending_scans,
            match first_target(old(self).view().targets, pid) {
                None => r is None && final(self).view().targets == old(self).view().targets,
                Some(i) => r == Some(old(self).view().targets[i].request_id)
                    && final(self).view().targets == old(self).view().targets.remove(i),
            },
    {
        match self.find_target(pid) {
            Some(i) => {
                let item = self.targets.remove(i);
                Some(item.request_id)
            },
            None => None,
        }
    }

    /// The first position of a target with `pid`.
    fn find_target(&self, pid: u64) -> (r: Option<usize>)
        ensures
            match first_target(self.view().targets, pid) {
                None => r is None,
                Some(i) => r matches Some(x) && x == i && i < self.view().targets.len(),
            },
    {
        let mut i: usize = 0;
        while i < self.targets.len()
            invariant
                0 <= i <= self.targets@.len(),
                forall|j: int| 0 <= j < i ==> self.targets@[j].pid != pid,
            decreases self.targets@.len() - i,
        {
            if self.targets[i].pid == pid {
                let ghost targets = self.targets@;
                proof {
                    let k = choose|k: int|
                        0 <= k < targets.len() && targets[k].pid == pid && forall|j: int|
                            0 <= j < k ==> targets[j].pid != pid;
                    if k < i {
                        assert(targets[k].pid != pid);
                    }
                    if i < k {
                        assert(targets[i as int].pid != pid);
                    }
                    assert(k == i);
                }
                return Some(i);
            }
            i = i + 1;
        }
        None
    }

    /// The first position of a pending scan of `pid` with `request_id`.
    fn find_scan(&self, pid: u64, request_id: u64) -> (r: Option<usize>)
        ensures
            match first_scan(self.view().pending_scans, pid, request_id) {
                None => r is None,
                Some(i) => r matches Some(x) && x == i && i < self.view().pending_scans.len(),
            },
    {
        let mut i: usize = 0;
        while i < self.pending_scans.len()
            invariant
                0 <= i <= self.pending_scans@.len(),
                forall|j: int|
                    0 <= j < i ==> !(self.pending_scans@[j].pid == pid
                        && self.pending_scans@[j].request_id == request_id),
            decreases self.pending_scans@.len() - i,
        {
            let s = self.pending_scans[i];
            if s.pid == pid && s.request_id == request_id {
                let ghost scans = self.pending_scans@;
                proof {
                    let k = choose|k: int|
                        0 <= k < scans.len() && scans[k].pid == pid && scans[k].request_id
                            == request_id && forall|j: int|
                            0 <= j < k ==> !(scans[j].pid == pid && scans[j].request_id
                                == request_id);
                    if k < i {
                        assert(!(scans[k].pid == pid && scans[k].request_id == request_id));
                    }
                    if i < k {
                        assert(!(scans[i as int].pid == pid && scans[i as int].request_id
                            == request_id));
                    }
                    assert(k == i);
                }
                return Some(i);
            }
            i = i + 1;
        }
        None
    }

    /// A frozen thread starts waiting for the verdict of `request_id`.
    pub fn begin_wait(&mut self, pid: u64, request_id: u64)
        requires
            old(self).wf(),
        ensures
            final(self).wf(),
            final(self).view() == (SensorView {
                pending_scans: old(self).view().pending_scans.push(
                    PendingScan { request_id, pid, allow: None },
                ),
                ..old(self).view()
            }),
    {
        self.pending_scans.push(PendingScan { request_id, pid, allow: None });
    }

    /// Records the verdict for a frozen process; whether it was waiting.
    pub fn apply_verdict(&mut self, pid: u64, request_id: u64, allowed: bool) -> (r: bool)
        requires
            old(self).wf(),
        ensures
            final(self).wf(),
            final(self).view().agent == old(self).view().agent,
            final(self).view().pending_request == old(self).view().pending_request,
            final(self).view().queue == old(self).view().queue,
            final(self).view().targets == old(self).view().targets,
            match first_scan(old(self).view().pending_scans, pid, request_id) {
                None => !r && final(self).view().pending_scans == old(self).view().pending_scans,
                Some(i) => r && final(self).view().pending_scans == old(
                    self,
                ).view().pending_scans.update(
                    i,
                    PendingScan { request_id, pid, allow: Some(allowed) },
                ),
            },
    {
        match self.find_scan(pid, request_id) {
            Some(i) => {
                self.pending_scans.set(i, PendingScan { request_id, pid, allow: Some(allowed) });
                true
            },
            None => false,
        }
    }

    /// The wait of a frozen process for `request_id` ended: its entry is
    /// removed, and the result is the verdict it found (a block when none
    /// arrived).
    pub fn end_wait(&mut self, pid: u64, request_id: u64) -> (r: bool)
        requires
            old(self).wf(),
        ensures
            final(self).wf(),
            final(self).view().agent == old(self).view().agent,
            final(self).view().pending_request == old(self).view().pending_request,
            final(self).view().queue == old(self).view().queue,
            final(self).view().targets == old(self).view().targets,
            match first_scan(old(self).view().pending_scans, pid, request_id) {
                None => !r && final(self).view().pending_scans == old(self).view().pending_scans,
                Some(i) => r == (old(self).view().pending_scans[i].allow == Some(true))
                    && final(self).view().pending_scans == old(
                    self,
                ).view().pending_scans.remove(i),
            },
    {
        match self.find_scan(pid, request_id) {
            Some(i) => {
                let item = self.pending_scans.remove(i);
                match item.allow {
                    Some(a) => a,
                    None => false,
                }
            },
            None => false,
        }
    }

    /// Answers a request of the process `caller`. Only the registered agent
    /// may make requests other than registering; only one process may
    /// register.
    pub fn dispatch_device_control(&mut self, caller: u64, request: IoctlRequest) -> (r: IoctlReply)
        requires
            old(self).wf(),
        ensures
            final(self).wf(),
            final(self).view().targets == old(self).view().targets,
            dispatch_effect(old(self).view(), final(self).view(), caller, request, r),
    {
        let is_register = match &request {
            IoctlRequest::RegisterAgent => true,
            _ => false,
        };
        if !is_register {
            let registered = match self.agent {
                Some(a) => a == caller,
                None => false,
            };
            if !registered {
                return IoctlReply::Status(SensorStatus::AccessDenied);
            }
        }
        match request {
            IoctlRequest::GetEvent { fits } => {
                if self.pending_request {
                    return IoctlReply::Status(SensorStatus::Unsuccessful);
                }
                if self.queue.len() > 0 {
                    let ghost before = self.queue@;
                    let event = self.queue.remove(0);
                    assert(self.queue@ =~= before.drop_first());
                    if fits {
                        IoctlReply::Event(event)
                    } else {
                        IoctlReply::Status(SensorStatus::BufferTooSmall)
                    }
                } else {
                    self.pending_request = true;
                    IoctlReply::Pending
                }
            },
            IoctlRequest::SendVerdict { input_fits, process_id, request_id, allowed } => {
                if !input_fits {
                    return IoctlReply::Status(SensorStatus::Unsuccessful);
                }
                if self.apply_verdict(process_id, request_id, allowed) {
                    IoctlReply::Status(SensorStatus::Success)
                } else {
                    IoctlReply::Status(SensorStatus::Unsuccessful)
                }
            },
            IoctlRequest::RegisterAgent => {
                match self.agent {
                    None => {
                        self.agent = Some(caller);
                        IoctlReply::Status(SensorStatus::Success)
                    },
                    Some(_) => IoctlReply::Status(SensorStatus::AccessDenied),
                }
            },
            IoctlRequest::Other => IoctlReply::Status(SensorStatus::InvalidDeviceRequest),
        }
    }

    /// The agent's handle was closed: its pending request, if the kernel
    /// could claim it (`claimed`), is cancelled; whether it was.
    pub fn dispatch_cleanup(&mut self, claimed: bool) -> (r: bool)
        requires
            old(self).wf(),
        ensures
            final(self).wf(),
            r == (old(self).view().pending_request && claimed),
            final(self).view() == (SensorView {
                pending_request: old(self).view().pending_request && !claimed,
                ..old(self).view()
            }),
    {
        if self.pending_request && claimed {
            self.pending_request = false;
            true
        } else {
            false
        }
    }

    /// The driver unloads: every frozen process is woken (the result, oldest
    /// first) and its entry dropped, so that its wait ends with a block, and
    /// the reference to the agent is released.
    pub fn driver_unload(&mut self) -> (r: Vec<PendingScan>)
        requires
            old(self).wf(),
        ensures
            final(self).wf(),
            r@ == old(self).view().pending_scans,
            final(self).view() == (SensorView {
                agent: None,
                pending_scans: Seq::<PendingScan>::empty(),
                ..old(self).view()
            }),
    {
        let mut woken: Vec<PendingScan> = Vec::new();
        std::mem::swap(&mut woken, &mut self.pending_scans);
        self.agent = None;
        woken
    }
}

/// What a frozen thread does once its wait ends.
#[derive(Debug, Clone, Copy, PartialEq, Eq, Structural)]
pub enum ThreadFate {
    Resume,
    Terminate,
}

/// What a frozen thread does once its wait ends: a thread whose wait timed
/// out is resumed; otherwise it is resumed only on an allowing verdict.
pub open spec fn fate_of(timed_out: bool, allowed: bool) -> ThreadFate {
    if timed_out || allowed {
        ThreadFate::Resume
    } else {
        ThreadFate::Terminate
    }
}

/// What a frozen thread does once its wait ends, given whether the wait
/// timed out and whether the verdict it found allows the process.
pub fn frozen_thread_fate(timed_out: bool, allowed: bool) -> (r: ThreadFate)
    ensures
        r == fate_of(timed_out, allowed),
{
    if timed_out {
        ThreadFate::Resume
    } else if allowed {
        ThreadFate::Resume
    } else {
        ThreadFate::Terminate
    }
}

/// Requests other than registration are refused to every process but the
/// registered agent, and change nothing.
pub proof fn law_only_the_agent_is_served(
    s0: SensorView,
    s1: SensorView,
    caller: u64,
    request: IoctlRequest,
    r: IoctlReply,
)
    requires
        dispatch_effect(s0, s1, caller, request, r),
        !(request is RegisterAgent),
        s0.agent != Some(caller),
    ensures
        r == IoctlReply::Status(SensorStatus::AccessDenied),
        s1 == s0,
{
}

/// Only one process can register as the agent: once one has, every later
/// registration is refused and changes nothing.
pub proof fn law_one_agent(
    s0: SensorView,
    s1: SensorView,
    caller: u64,
    r: IoctlReply,
)
    requires
        dispatch_effect(s0, s1, caller, IoctlRequest::RegisterAgent, r),
        s0.agent is Some,
    ensures
        r == IoctlReply::Status(SensorStatus::AccessDenied),
        s1 == s0,
{
}

/// A request for the next event takes the oldest queued event; with no
/// event queued it waits, and only one request may wait at a time.
pub proof fn law_events_reach_the_agent_in_order(
    s0: SensorView,
    s1: SensorView,
    caller: u64,
    r: IoctlReply,
)
    requires
        dispatch_effect(s0, s1, caller, IoctlRequest::GetEvent { fits: true }, r),
        s0.agent == Some(caller),
    ensures
        s0.pending_request ==> r == IoctlReply::Status(SensorStatus::Unsuccessful) && s1 == s0,
        !s0.pending_request && s0.queue.len() > 0 ==> r == IoctlReply::Event(s0.queue[0])
            && s1.queue == s0.queue.drop_first(),
        !s0.pending_request && s0.queue.len() == 0 ==> r is Pending && s1.pending_request,
{
}

} // verus!
