//! Correlating an analysis with what is known of its process: the process
//! description sent to clients, the verdict shown to them, and the verdict
//! sent to the kernel sensor.

use vstd::prelude::*;

use crate::detection::{no_findings, DetectionDetails, Verdict};
use crate::file_context::FileTime;
use crate::scan_flow::{details_of, AnalysisResult, GalateaEvent};
use crate::text::{path_from_utf16, trim_matching, utf16_lossy};

verus! {

/// What the process probe read about a running process.
#[derive(Debug, Clone)]
pub struct ProbedProcess {
    pub name: String,
    pub path: String,
    pub parent_pid: Option<u64>,
    pub command_line: Option<String>,
    pub creation_time: Option<FileTime>,
}

/// The description of a process sent to clients.
#[derive(Debug, Clone)]
pub struct ProcessInfo {
    pub pid: u64,
    pub name: String,
    pub path: String,
    pub parent_pid: Option<u64>,
    pub command_line: Option<String>,
    pub creation_time: Option<FileTime>,
}

/// The verdict sent to the kernel sensor for a held process.
#[derive(Debug, Clone, Copy, PartialEq, Eq, Structural)]
pub struct GalateaVerdict {
    pub process_id: u64,
    pub request_id: u64,
    pub allow: bool,
}

/// The description of process `pid` as the probe read it.
pub open spec fn info_from_probe(pid: u64, p: ProbedProcess) -> ProcessInfo {
    ProcessInfo {
        pid,
        name: p.name,
        path: p.path,
        parent_pid: p.parent_pid,
        command_line: p.command_line,
        creation_time: p.creation_time,
    }
}

/// Describes process `pid` from what the probe read, falling back to the
/// name `Unknown` and the image path of the event.
pub fn process_info_for(pid: u64, probed: Option<ProbedProcess>, image_path: String) -> (r:
    ProcessInfo)
    ensures
        probed matches Some(p) ==> r == info_from_probe(pid, p),
        probed is None ==> r.pid == pid && r.name@ == "Unknown"@ && r.path == image_path
            && r.parent_pid is None && r.command_line is None && r.creation_time is None,
{
    match probed {
        Some(p) => ProcessInfo {
            pid,
            name: p.name,
            path: p.path,
            parent_pid: p.parent_pid,
            command_line: p.command_line,
            creation_time: p.creation_time,
        },
        None => {
            let name = String::from_str("Unknown");
            proof {
                reveal_strlit("Unknown");
            }
            ProcessInfo {
                pid,
                name,
                path: image_path,
                parent_pid: None,
                command_line: None,
                creation_time: None,
            }
        },
    }
}

/// The verdict shown to clients for a scanned process.
pub open spec fn shown_verdict(allow: bool) -> Verdict {
    if allow {
        Verdict::Allowed
    } else {
        Verdict::Blocked
    }
}

/// An analysis correlated with its process.
#[derive(Debug)]
pub struct Correlation {
    pub process_info: ProcessInfo,
    pub detection: DetectionDetails,
    pub verdict: Verdict,
    pub driver_verdict: GalateaVerdict,
}

/// The image path of an event as text, without its NUL padding.
pub open spec fn event_path(event: GalateaEvent) -> Seq<char> {
    trim_matching(utf16_lossy(event.image_path@), '\0')
}

/// Correlates an analysis with what the probe read of its process: the
/// process description, the findings, the verdict shown to clients and the
/// verdict sent to the kernel sensor.
pub fn correlate(result: AnalysisResult, probed: Option<ProbedProcess>) -> (r: Correlation)
    ensures
        r.process_info.pid == result.event.process_id,
        probed matches Some(p) ==> r.process_info == info_from_probe(result.event.process_id, p),
        probed is None ==> r.process_info.name@ == "Unknown"@ && r.process_info.path@
            == event_path(result.event) && r.process_info.parent_pid is None
            && r.process_info.command_line is None && r.process_info.creation_time is None,
        r.detection == details_of(result),
        r.verdict == shown_verdict(result.verdict_allow),
        r.driver_verdict == (GalateaVerdict {
            process_id: result.event.process_id,
            request_id: result.event.request_id,
            allow: result.verdict_allow,
        }),
{
    let image_path = path_from_utf16(result.event.image_path.as_slice());
    let pid = result.event.process_id;
    let process_info = process_info_for(pid, probed, image_path);
    let driver_verdict = GalateaVerdict {
        process_id: pid,
        request_id: result.event.request_id,
        allow: result.verdict_allow,
    };
    let verdict = if result.verdict_allow {
        Verdict::Allowed
    } else {
        Verdict::Blocked
    };
    let detection = DetectionDetails {
        threat_score: result.threat_score,
        md5_hash: result.md5_hash,
        signature_match: result.signature_match,
        authenticode: result.authenticode,
        heuristics: result.heuristics,
        ml_prediction: result.ml_prediction,
    };
    Correlation { process_info, detection, verdict, driver_verdict }
}

/// What clients are told of a process that runs without a scan: its
/// description, no findings, and the system-process verdict.
pub fn system_process_report(event: &GalateaEvent, probed: Option<ProbedProcess>) -> (r: (
    ProcessInfo,
    DetectionDetails,
    Verdict,
))
    ensures
        r.0.pid == event.process_id,
        probed matches Some(p) ==> r.0 == info_from_probe(event.process_id, p),
        probed is None ==> r.0.name@ == "Unknown"@ && r.0.path@ == event_path(*event)
            && r.0.parent_pid is None && r.0.command_line is None && r.0.creation_time is None,
        r.1 == no_findings(),
        r.2 == Verdict::SystemAllowed,
{
    let image_path = path_from_utf16(event.image_path.as_slice());
    let info = process_info_for(event.process_id, probed, image_path);
    (info, DetectionDetails::empty(), Verdict::SystemAllowed)
}

} // verus!
