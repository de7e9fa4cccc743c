//! The static scan of a frozen process: the decisions between the file
//! system, the static result cache, the waits for other callers' scans and
//! the analysis stages.
//!
//! The scan fails closed: a file that cannot be examined is blocked. The
//! caller performs each action that `advance` returns (a stat, a cache
//! request, a wait, a scan) and hands back what came of it; the analysis
//! stages run in the order `stage_after` gives, each on what its outside
//! check returned.

use vstd::prelude::*;

use crate::detection::{
    AuthenticodeInfo, DetectionDetails, HeuristicResults, IocType, MlPrediction, SignatureMatch,
    SignatureRecord, SignatureStatus,
};
use crate::file_context::FileTime;
use crate::heuristics::HeurReport;
use crate::static_result_cache::{CompletedScan, WaitResult, STAT_BLOCK_THRESHOLD};

verus! {

/// Score change for a file signed by a trusted publisher.
pub const CODE_SIGN_FORGIVENESS: i32 = -40;

/// Score change for a file signed by an untrusted publisher.
pub const CODE_SIGN_UNTRUSTED: i32 = 5;

/// Score change for a file whose certificate was revoked.
pub const CODE_SIGN_REVOKED: i32 = 100;

/// Score change for a file the classifier deems malicious.
pub const ML_MALICIOUS: i32 = 40;

/// A process creation reported by the kernel sensor.
#[derive(Debug, Clone)]
pub struct GalateaEvent {
    pub process_id: u64,
    pub request_id: u64,
    /// The image path as NUL-padded UTF-16.
    pub image_path: Vec<u16>,
    /// Whether the process is held until a verdict is sent.
    pub frozen: bool,
}

/// The state of the analysis of one process.
#[derive(Debug)]
pub struct AnalysisResult {
    pub event: GalateaEvent,
    pub threat_score: i32,
    pub md5_hash: Option<String>,
    pub signature_match: Option<SignatureMatch>,
    pub authenticode: Option<AuthenticodeInfo>,
    pub heuristics: Option<HeuristicResults>,
    pub ml_prediction: Option<MlPrediction>,
    pub verdict_allow: bool,
    pub size: u64,
    pub mod_time: FileTime,
}

/// The UNIX epoch.
pub open spec fn epoch() -> FileTime {
    FileTime { secs: 0, nanos: 0 }
}

/// A fresh analysis of `event`: no score, no findings, allowed.
pub open spec fn fresh_result(event: GalateaEvent) -> AnalysisResult {
    AnalysisResult {
        event,
        threat_score: 0,
        md5_hash: None,
        signature_match: None,
        authenticode: None,
        heuristics: None,
        ml_prediction: None,
        verdict_allow: true,
        size: 0,
        mod_time: epoch(),
    }
}

impl AnalysisResult {
    /// A fresh analysis of `event`: no score, no findings, allowed.
    pub fn new(event: GalateaEvent) -> (r: AnalysisResult)
        ensures
            r == fresh_result(event),
    {
        AnalysisResult {
            event,
            threat_score: 0,
            md5_hash: None,
            signature_match: None,
            authenticode: None,
            heuristics: None,
            ml_prediction: None,
            verdict_allow: true,
            size: 0,
            mod_time: FileTime { secs: 0, nanos: 0 },
        }
    }

    /// What the analysis found, as sent to clients and cached.
    pub fn details(&self) -> (r: DetectionDetails)
        ensures
            r == details_of(*self),
    {
        DetectionDetails {
            threat_score: self.threat_score,
            md5_hash: match &self.md5_hash {
                Some(h) => Some(h.clone()),
                None => None,
            },
            signature_match: match &self.signature_match {
                Some(m) => Some(m.duplicate()),
                None => None,
            },
            authenticode: match &self.authenticode {
                Some(a) => Some(a.duplicate()),
                None => None,
            },
            heuristics: match &self.heuristics {
                Some(h) => Some(h.duplicate()),
                None => None,
            },
            ml_prediction: self.ml_prediction,
        }
    }
}

/// The findings of an analysis.
pub open spec fn details_of(r: AnalysisResult) -> DetectionDetails {
    DetectionDetails {
        threat_score: r.threat_score,
        md5_hash: r.md5_hash,
        signature_match: r.signature_match,
        authenticode: r.authenticode,
        heuristics: r.heuristics,
        ml_prediction: r.ml_prediction,
    }
}

/// The verdict on a finished scan's details: allowed unless the score is
/// above the block threshold.
pub open spec fn allows(details: DetectionDetails) -> bool {
    details.threat_score <= STAT_BLOCK_THRESHOLD
}

/// The analysis of `event` rebuilt from the details of a finished scan.
pub open spec fn result_from_details(
    event: GalateaEvent,
    details: DetectionDetails,
    allow: bool,
    size: u64,
    mod_time: FileTime,
) -> AnalysisResult {
    AnalysisResult {
        event,
        threat_score: details.threat_score,
        md5_hash: details.md5_hash,
        signature_match: details.signature_match,
        authenticode: details.authenticode,
        heuristics: details.heuristics,
        ml_prediction: details.ml_prediction,
        verdict_allow: allow,
        size,
        mod_time,
    }
}

/// Builds the analysis of `event` from the details of a finished scan,
/// without scanning again.
pub fn build_result_from_details(
    event: GalateaEvent,
    details: DetectionDetails,
    allow: bool,
    size: u64,
    mod_time: FileTime,
) -> (r: AnalysisResult)
    ensures
        r == result_from_details(event, details, allow, size, mod_time),
{
    AnalysisResult {
        event,
        threat_score: details.threat_score,
        md5_hash: details.md5_hash,
        signature_match: details.signature_match,
        authenticode: details.authenticode,
        heuristics: details.heuristics,
        ml_prediction: details.ml_prediction,
        verdict_allow: allow,
        size,
        mod_time,
    }
}

/// What the scan of a finished analysis records, with the NTFS index the
/// file had.
pub fn completed_scan(ctx: &AnalysisResult, file_index: Option<u64>) -> (r: CompletedScan)
    ensures
        r.details == details_of(*ctx),
        r.mod_time == ctx.mod_time,
        r.file_size == ctx.size,
        r.file_index == file_index,
{
    CompletedScan {
        details: ctx.details(),
        mod_time: ctx.mod_time,
        file_size: ctx.size,
        file_index,
    }
}

// ---- Analysis stages ----

/// What a stage tells the pipeline.
#[derive(Debug, Clone, Copy, PartialEq, Eq, Structural)]
pub enum StageOutcome {
    Continue,
    Block,
    Allow,
}

/// The analysis stages.
#[derive(Debug, Clone, Copy, PartialEq, Eq, Structural)]
pub enum ScanStage {
    Signature,
    Authenticode,
    Ml,
    Heuristic,
}

/// The stage that runs after `stage`, if any: signatures, then Authenticode,
/// then the classifier, then the heuristics.
pub open spec fn next_stage(stage: ScanStage) -> Option<ScanStage> {
    match stage {
        ScanStage::Signature => Some(ScanStage::Authenticode),
        ScanStage::Authenticode => Some(ScanStage::Ml),
        ScanStage::Ml => Some(ScanStage::Heuristic),
        ScanStage::Heuristic => None,
    }
}

/// The stage that runs after `stage`, if any.
pub fn stage_after(stage: ScanStage) -> (r: Option<ScanStage>)
    ensures
        r == next_stage(stage),
{
    match stage {
        ScanStage::Signature => Some(ScanStage::Authenticode),
        ScanStage::Authenticode => Some(ScanStage::Ml),
        ScanStage::Ml => Some(ScanStage::Heuristic),
        ScanStage::Heuristic => None,
    }
}

/// The outcome of a stage that may block: block once the score is above
/// the block threshold.
pub open spec fn block_above_threshold(score: i32) -> StageOutcome {
    if score > STAT_BLOCK_THRESHOLD {
        StageOutcome::Block
    } else {
        StageOutcome::Continue
    }
}

/// Whether the signature database names the file's hash as a known MD5.
pub open spec fn signature_hit(hash: Seq<char>, record: Option<SignatureRecord>) -> bool {
    hash.len() > 0 && (record matches Some(rec) && rec.ioc_type == IocType::Md5Hash)
}

/// The analysis after the signature stage, given the file's MD5 (empty when
/// it could not be computed) and the database row for it.
pub open spec fn after_signature(
    ctx: AnalysisResult,
    hash: String,
    record: Option<SignatureRecord>,
) -> AnalysisResult {
    if hash@.len() == 0 {
        ctx
    } else if signature_hit(hash@, record) {
        let rec = record->0;
        AnalysisResult {
            md5_hash: Some(hash),
            signature_match: Some(
                SignatureMatch { hash: rec.hash, verdict_score: rec.verdict, metadata: rec.meta },
            ),
            threat_score: (ctx.threat_score + rec.verdict) as i32,
            ..ctx
        }
    } else {
        AnalysisResult { md5_hash: Some(hash), ..ctx }
    }
}

/// The signature stage: records the file's MD5 and, when the database
/// knows it as bad, the match and its score; blocks when the score passes
/// the threshold. `record` is the database row for the hash, and is read
/// only when the hash is not empty.
pub fn stage_signature_check(
    ctx: &mut AnalysisResult,
    hash_md5: String,
    record: Option<SignatureRecord>,
) -> (r: StageOutcome)
    requires
        record matches Some(rec) ==> i32::MIN <= old(ctx).threat_score + rec.verdict <= i32::MAX,
    ensures
        *final(ctx) == after_signature(*old(ctx), hash_md5, record),
        r == if signature_hit(hash_md5@, record) {
            block_above_threshold(final(ctx).threat_score)
        } else {
            StageOutcome::Continue
        },
{
    if !hash_md5.as_str().is_empty() {
        ctx.md5_hash = Some(hash_md5);
        match record {
            Some(sig) => {
                if sig.ioc_type == IocType::Md5Hash {
                    ctx.threat_score = ctx.threat_score + sig.verdict;
                    ctx.signature_match = Some(
                        SignatureMatch {
                            hash: sig.hash,
                            verdict_score: sig.verdict,
                            metadata: sig.meta,
                        },
                    );
                    if ctx.threat_score > STAT_BLOCK_THRESHOLD {
                        return StageOutcome::Block;
                    }
                }
            },
            None => {},
        }
    }
    StageOutcome::Continue
}

/// The score change an Authenticode status brings: none for an unsigned
/// file; forgiveness for a trusted signer, a penalty for a revoked
/// certificate, a small one for an untrusted signer.
pub open spec fn authenticode_modifier(sig: SignatureStatus) -> Option<i32> {
    if !sig.is_signed {
        None
    } else if sig.is_trusted {
        Some(CODE_SIGN_FORGIVENESS)
    } else if sig.is_revoked {
        Some(CODE_SIGN_REVOKED)
    } else {
        Some(CODE_SIGN_UNTRUSTED)
    }
}

/// The analysis after the Authenticode stage.
pub open spec fn after_authenticode(ctx: AnalysisResult, sig: SignatureStatus) -> AnalysisResult {
    match authenticode_modifier(sig) {
        None => ctx,
        Some(m) => AnalysisResult {
            threat_score: (ctx.threat_score + m) as i32,
            authenticode: Some(
                AuthenticodeInfo {
                    is_signed: true,
                    is_trusted: sig.is_trusted,
                    is_revoked: !sig.is_trusted && sig.is_revoked,
                    signer: sig.signer,
                    score_modifier: m,
                },
            ),
            ..ctx
        },
    }
}

/// The Authenticode stage: scores a signed file by its signer and records
/// the status; blocks when the score is above the threshold.
pub fn stage_authenticode_check(ctx: &mut AnalysisResult, sig: SignatureStatus) -> (r:
    StageOutcome)
    requires
        authenticode_modifier(sig) matches Some(m) ==> i32::MIN <= old(ctx).threat_score + m
            <= i32::MAX,
    ensures
        *final(ctx) == after_authenticode(*old(ctx), sig),
        r == block_above_threshold(final(ctx).threat_score),
{
    if sig.is_signed {
        let m = if sig.is_trusted {
            CODE_SIGN_FORGIVENESS
        } else if sig.is_revoked {
            CODE_SIGN_REVOKED
        } else {
            CODE_SIGN_UNTRUSTED
        };
        ctx.threat_score = ctx.threat_score + m;
        ctx.authenticode = Some(
            AuthenticodeInfo {
                is_signed: true,
                is_trusted: sig.is_trusted,
                is_revoked: !sig.is_trusted && sig.is_revoked,
                signer: sig.signer,
                score_modifier: m,
            },
        );
    }
    if ctx.threat_score > STAT_BLOCK_THRESHOLD {
        return StageOutcome::Block;
    }
    StageOutcome::Continue
}

/// The analysis after the classifier stage, given the bit pattern of the
/// malicious probability when the classifier ran and was above its
/// certainty threshold.
pub open spec fn after_ml(ctx: AnalysisResult, malicious: Option<u32>) -> AnalysisResult {
    match malicious {
        None => ctx,
        Some(bits) => AnalysisResult {
            threat_score: (ctx.threat_score + ML_MALICIOUS) as i32,
            ml_prediction: Some(
                MlPrediction { probability_bits: bits, score_modifier: ML_MALICIOUS },
            ),
            ..ctx
        },
    }
}

/// The classifier stage: a confident malicious prediction adds its score
/// and is recorded. This stage never blocks by itself.
pub fn stage_ml_check(ctx: &mut AnalysisResult, malicious: Option<u32>) -> (r: StageOutcome)
    requires
        malicious is Some ==> old(ctx).threat_score + ML_MALICIOUS <= i32::MAX,
    ensures
        *final(ctx) == after_ml(*old(ctx), malicious),
        r == StageOutcome::Continue,
{
    match malicious {
        Some(bits) => {
            ctx.threat_score = ctx.threat_score + ML_MALICIOUS;
            ctx.ml_prediction = Some(
                MlPrediction { probability_bits: bits, score_modifier: ML_MALICIOUS },
            );
        },
        None => {},
    }
    StageOutcome::Continue
}

/// How a heuristic report is recorded: an empty import hash is recorded as
/// none.
pub open spec fn heuristic_results_of(rep: HeurReport) -> HeuristicResults {
    HeuristicResults {
        is_packed: rep.is_packed,
        packer_name: rep.packer,
        has_rwx_sections: rep.has_rwx,
        high_entropy: rep.high_entropy,
        imphash: if rep.imphash@.len() > 0 {
            Some(rep.imphash)
        } else {
            None
        },
        score_modifier: rep.score_mod,
    }
}

/// The analysis after the heuristic stage, given its report (none when the
/// file could not be parsed).
pub open spec fn after_heuristics(ctx: AnalysisResult, report: Option<HeurReport>) -> AnalysisResult {
    match report {
        None => ctx,
        Some(rep) => AnalysisResult {
            threat_score: (ctx.threat_score + rep.score_mod) as i32,
            heuristics: Some(heuristic_results_of(rep)),
            ..ctx
        },
    }
}

/// The heuristic stage: adds the report's score and records it; blocks when
/// the score is above the threshold.
pub fn stage_heuristic_check(ctx: &mut AnalysisResult, report: Option<HeurReport>) -> (r:
    StageOutcome)
    requires
        report matches Some(rep) ==> i32::MIN <= old(ctx).threat_score + rep.score_mod
            <= i32::MAX,
    ensures
        *final(ctx) == after_heuristics(*old(ctx), report),
        r == if report is Some {
            block_above_threshold(final(ctx).threat_score)
        } else {
            StageOutcome::Continue
        },
{
    match report {
        None => StageOutcome::Continue,
        Some(rep) => {
            ctx.threat_score = ctx.threat_score + rep.score_mod;
            let has_hash = !rep.imphash.as_str().is_empty();
            ctx.heuristics = Some(
                HeuristicResults {
                    is_packed: rep.is_packed,
                    packer_name: rep.packer,
                    has_rwx_sections: rep.has_rwx,
                    high_entropy: rep.high_entropy,
                    imphash: if has_hash {
                        Some(rep.imphash)
                    } else {
                        None
                    },
                    score_modifier: rep.score_mod,
                },
            );
            if ctx.threat_score > STAT_BLOCK_THRESHOLD {
                return StageOutcome::Block;
            }
            StageOutcome::Continue
        },
    }
}

/// What the outside check of a stage returned.
pub enum StageInput {
    /// The file's MD5 (empty when it could not be computed) and the
    /// database row for it.
    Signature { hash: String, record: Option<SignatureRecord> },
    /// The file's Authenticode status.
    Authenticode(SignatureStatus),
    /// The malicious probability's bit pattern when the classifier was
    /// confident.
    Ml(Option<u32>),
    /// The heuristic report, when the file parsed as a PE image.
    Heuristic(Option<HeurReport>),
}

/// The stage an input belongs to.
pub open spec fn stage_of(input: StageInput) -> ScanStage {
    match input {
        StageInput::Signature { .. } => ScanStage::Signature,
        StageInput::Authenticode(_) => ScanStage::Authenticode,
        StageInput::Ml(_) => ScanStage::Ml,
        StageInput::Heuristic(_) => ScanStage::Heuristic,
    }
}

/// Whether a stage's score change fits the score.
pub open spec fn stage_fits(ctx: AnalysisResult, input: StageInput) -> bool {
    match input {
        StageInput::Signature { hash, record } => record matches Some(rec) ==> i32::MIN
            <= ctx.threat_score + rec.verdict <= i32::MAX,
        StageInput::Authenticode(sig) => authenticode_modifier(sig) matches Some(m) ==> i32::MIN
            <= ctx.threat_score + m <= i32::MAX,
        StageInput::Ml(m) => m is Some ==> ctx.threat_score + ML_MALICIOUS <= i32::MAX,
        StageInput::Heuristic(report) => report matches Some(rep) ==> i32::MIN
            <= ctx.threat_score + rep.score_mod <= i32::MAX,
    }
}

/// The analysis after one stage, and that stage's outcome.
pub open spec fn after_stage(ctx: AnalysisResult, input: StageInput) -> (
    AnalysisResult,
    StageOutcome,
) {
    match input {
        StageInput::Signature { hash, record } => {
            let c = after_signature(ctx, hash, record);
            (
                c,
                if signature_hit(hash@, record) {
                    block_above_threshold(c.threat_score)
                } else {
                    StageOutcome::Continue
                },
            )
        },
        StageInput::Authenticode(sig) => {
            let c = after_authenticode(ctx, sig);
            (c, block_above_threshold(c.threat_score))
        },
        StageInput::Ml(m) => (after_ml(ctx, m), StageOutcome::Continue),
        StageInput::Heuristic(report) => {
            let c = after_heuristics(ctx, report);
            (
                c,
                if report is Some {
                    block_above_threshold(c.threat_score)
                } else {
                    StageOutcome::Continue
                },
            )
        },
    }
}

/// Runs one stage. A block clears the verdict and ends the analysis;
/// otherwise the result is the stage to run next, if any.
pub fn run_stage(ctx: &mut AnalysisResult, input: StageInput) -> (r: Option<ScanStage>)
    requires
        stage_fits(*old(ctx), input),
    ensures
        ({
            let (c, outcome) = after_stage(*old(ctx), input);
            if outcome == StageOutcome::Block {
                &&& *final(ctx) == (AnalysisResult { verdict_allow: false, ..c })
                &&& r is None
            } else {
                &&& *final(ctx) == c
                &&& r == if outcome == StageOutcome::Allow {
                    None
                } else {
                    next_stage(stage_of(input))
                }
            }
        }),
{
    let stage = match &input {
        StageInput::Signature { .. } => ScanStage::Signature,
        StageInput::Authenticode(_) => ScanStage::Authenticode,
        StageInput::Ml(_) => ScanStage::Ml,
        StageInput::Heuristic(_) => ScanStage::Heuristic,
    };
    let outcome = match input {
        StageInput::Signature { hash, record } => stage_signature_check(ctx, hash, record),
        StageInput::Authenticode(sig) => stage_authenticode_check(ctx, sig),
        StageInput::Ml(m) => stage_ml_check(ctx, m),
        StageInput::Heuristic(report) => stage_heuristic_check(ctx, report),
    };
    match outcome {
        StageOutcome::Block => {
            ctx.verdict_allow = false;
            None
        },
        StageOutcome::Allow => None,
        StageOutcome::Continue => {
            stage_after(stage)
        },
    }
}

// ---- The scan of a frozen process ----

/// Where the scan of a frozen process stands.
#[derive(Debug)]
pub enum FlowState {
    /// The image file has not been examined yet.
    Start,
    /// A scan slot is to be requested for a file of this size and
    /// modification time; `retried` once a wait for another scan failed.
    Slot { file_size: u64, mod_time: FileTime, retried: bool },
    /// Waiting for another caller's scan of the file.
    Waiting { file_size: u64, mod_time: FileTime, retried: bool },
    /// This caller owns the scan of the file.
    Scanning { file_size: u64, mod_time: FileTime },
    /// The verdict has been decided.
    Done,
}

/// What came of the last action.
#[derive(Debug)]
pub enum FlowEvent {
    /// The file's size and modification time, or none when it could not be
    /// examined.
    Stat(Option<(u64, FileTime)>),
    /// The cache holds a finished scan of the same file.
    CacheHit(DetectionDetails),
    /// This caller got the scan slot.
    SlotAcquired,
    /// Another caller is scanning the file.
    SlotBusy,
    /// How the wait for another caller's scan ended.
    Waited(WaitResult),
    /// The file could not be read for scanning.
    Unreadable,
}

/// The verdict to send, when no scan of this caller's produced it.
#[derive(Debug)]
pub enum Reply {
    /// Block: the file could not be examined.
    FailClosed,
    /// Block: the file could not be read; its size and time were known.
    Unreadable { file_size: u64, mod_time: FileTime },
    /// Reuse a finished scan.
    Reuse { details: DetectionDetails, allow: bool, file_size: u64, mod_time: FileTime },
}

/// What the caller does next.
#[derive(Debug)]
pub enum FlowAction {
    /// Ask the static result cache for a scan slot.
    RequestSlot { file_size: u64, mod_time: FileTime },
    /// Wait for the other caller's scan.
    Wait,
    /// Read the file and run the stages; report `Unreadable` if it cannot be
    /// read.
    Scan { file_size: u64, mod_time: FileTime },
    /// Send this verdict; the scan is over.
    Respond(Reply),
    /// The event does not belong to the state; nothing to do.
    Ignore,
}

/// The reply that reuses a finished scan.
pub open spec fn reuse(details: DetectionDetails, file_size: u64, mod_time: FileTime) -> Reply {
    Reply::Reuse { details, allow: allows(details), file_size, mod_time }
}

/// The next state of a scan and the action it asks for.
pub open spec fn flow_step(state: FlowState, event: FlowEvent) -> (FlowState, FlowAction) {
    match state {
        FlowState::Start => match event {
            FlowEvent::Stat(None) => (FlowState::Done, FlowAction::Respond(Reply::FailClosed)),
            FlowEvent::Stat(Some((size, time))) => if size == 0 {
                (FlowState::Done, FlowAction::Respond(Reply::FailClosed))
            } else {
                (
                    FlowState::Slot { file_size: size, mod_time: time, retried: false },
                    FlowAction::RequestSlot { file_size: size, mod_time: time },
                )
            },
            _ => (FlowState::Start, FlowAction::Ignore),
        },
        FlowState::Slot { file_size, mod_time, retried } => match event {
            FlowEvent::CacheHit(details) => (
                FlowState::Done,
                FlowAction::Respond(reuse(details, file_size, mod_time)),
            ),
            FlowEvent::SlotAcquired => (
                FlowState::Scanning { file_size, mod_time },
                FlowAction::Scan { file_size, mod_time },
            ),
            FlowEvent::SlotBusy => (
                FlowState::Waiting { file_size, mod_time, retried },
                FlowAction::Wait,
            ),
            _ => (FlowState::Slot { file_size, mod_time, retried }, FlowAction::Ignore),
        },
        FlowState::Waiting { file_size, mod_time, retried } => match event {
            FlowEvent::Waited(WaitResult::Completed(scan)) => (
                FlowState::Done,
                FlowAction::Respond(reuse(scan.details, scan.file_size, scan.mod_time)),
            ),
            FlowEvent::Waited(_) => if retried {
                (FlowState::Done, FlowAction::Respond(Reply::FailClosed))
            } else {
                (
                    FlowState::Slot { file_size, mod_time, retried: true },
                    FlowAction::RequestSlot { file_size, mod_time },
                )
            },
            _ => (FlowState::Waiting { file_size, mod_time, retried }, FlowAction::Ignore),
        },
        FlowState::Scanning { file_size, mod_time } => match event {
            FlowEvent::Unreadable => (
                FlowState::Done,
                FlowAction::Respond(Reply::Unreadable { file_size, mod_time }),
            ),
            _ => (FlowState::Scanning { file_size, mod_time }, FlowAction::Ignore),
        },
        FlowState::Done => (FlowState::Done, FlowAction::Ignore),
    }
}

/// Takes a scan one step: from its state and what came of the last action
/// to its next state and the action to perform.
pub fn advance(state: FlowState, event: FlowEvent) -> (r: (FlowState, FlowAction))
    ensures
        r == flow_step(state, event),
{
    match state {
        FlowState::Start => match event {
            FlowEvent::Stat(None) => (FlowState::Done, FlowAction::Respond(Reply::FailClosed)),
            FlowEvent::Stat(Some((size, time))) => if size == 0 {
                (FlowState::Done, FlowAction::Respond(Reply::FailClosed))
            } else {
                (
                    FlowState::Slot { file_size: size, mod_time: time, retried: false },
                    FlowAction::RequestSlot { file_size: size, mod_time: time },
                )
            },
            _ => (FlowState::Start, FlowAction::Ignore),
        },
        FlowState::Slot { file_size, mod_time, retried } => match event {
            FlowEvent::CacheHit(details) => {
                let allow = details.threat_score <= STAT_BLOCK_THRESHOLD;
                (
                    FlowState::Done,
                    FlowAction::Respond(Reply::Reuse { details, allow, file_size, mod_time }),
                )
            },
            FlowEvent::SlotAcquired => (
                FlowState::Scanning { file_size, mod_time },
                FlowAction::Scan { file_size, mod_time },
            ),
            FlowEvent::SlotBusy => (
                FlowState::Waiting { file_size, mod_time, retried },
                FlowAction::Wait,
            ),
            _ => (FlowState::Slot { file_size, mod_time, retried }, FlowAction::Ignore),
        },
        FlowState::Waiting { file_size, mod_time, retried } => match event {
            FlowEvent::Waited(WaitResult::Completed(scan)) => {
                let allow = scan.details.threat_score <= STAT_BLOCK_THRESHOLD;
                (
                    FlowState::Done,
                    FlowAction::Respond(
                        Reply::Reuse {
                            details: scan.details,
                            allow,
                            file_size: scan.file_size,
                            mod_time: scan.mod_time,
                        },
                    ),
                )
            },
            FlowEvent::Waited(_) => if retried {
                (FlowState::Done, FlowAction::Respond(Reply::FailClosed))
            } else {
                (
                    FlowState::Slot { file_size, mod_time, retried: true },
                    FlowAction::RequestSlot { file_size, mod_time },
                )
            },
            _ => (FlowState::Waiting { file_size, mod_time, retried }, FlowAction::Ignore),
        },
        FlowState::Scanning { file_size, mod_time } => match event {
            FlowEvent::Unreadable => (
                FlowState::Done,
                FlowAction::Respond(Reply::Unreadable { file_size, mod_time }),
            ),
            _ => (FlowState::Scanning { file_size, mod_time }, FlowAction::Ignore),
        },
        FlowState::Done => (FlowState::Done, FlowAction::Ignore),
    }
}

/// The analysis a reply stands for.
pub open spec fn reply_analysis(event: GalateaEvent, reply: Reply) -> AnalysisResult {
    match reply {
        Reply::FailClosed => AnalysisResult { verdict_allow: false, ..fresh_result(event) },
        Reply::Unreadable { file_size, mod_time } => AnalysisResult {
            verdict_allow: false,
            size: file_size,
            mod_time,
            ..fresh_result(event)
        },
        Reply::Reuse { details, allow, file_size, mod_time } => result_from_details(
            event,
            details,
            allow,
            file_size,
            mod_time,
        ),
    }
}

/// The analysis to send for `event` when the scan ends in `reply`.
pub fn reply_result(event: GalateaEvent, reply: Reply) -> (r: AnalysisResult)
    ensures
        r == reply_analysis(event, reply),
{
    match reply {
        Reply::FailClosed => {
            let mut ctx = AnalysisResult::new(event);
            ctx.verdict_allow = false;
            ctx
        },
        Reply::Unreadable { file_size, mod_time } => {
            let mut ctx = AnalysisResult::new(event);
            ctx.size = file_size;
            ctx.mod_time = mod_time;
            ctx.verdict_allow = false;
            ctx
        },
        Reply::Reuse { details, allow, file_size, mod_time } => build_result_from_details(
            event,
            details,
            allow,
            file_size,
            mod_time,
        ),
    }
}

/// A file that cannot be examined, or whose size is zero, is blocked.
pub proof fn law_unexaminable_file_is_blocked(time: FileTime)
    ensures
        flow_step(FlowState::Start, FlowEvent::Stat(None)) == (
            FlowState::Done,
            FlowAction::Respond(Reply::FailClosed),
        ),
        flow_step(FlowState::Start, FlowEvent::Stat(Some((0, time)))) == (
            FlowState::Done,
            FlowAction::Respond(Reply::FailClosed),
        ),
{
}

/// A file that could not be read for scanning is blocked.
pub proof fn law_unreadable_file_is_blocked(file_size: u64, mod_time: FileTime, event: GalateaEvent)
    ensures
        flow_step(FlowState::Scanning { file_size, mod_time }, FlowEvent::Unreadable) == (
            FlowState::Done,
            FlowAction::Respond(Reply::Unreadable { file_size, mod_time }),
        ),
        !reply_analysis(event, Reply::Unreadable { file_size, mod_time }).verdict_allow,
{
}

/// A reused scan allows the process exactly when its score is at most the
/// block threshold.
pub proof fn law_reused_scan_allows_iff_under_threshold(
    state: FlowState,
    event: FlowEvent,
    process: GalateaEvent,
)
    ensures
        flow_step(state, event).1 matches FlowAction::Respond(reply) ==> (
        reply_analysis(process, reply).verdict_allow <==> (reply matches Reply::Reuse {
            details,
            ..
        } && details.threat_score <= STAT_BLOCK_THRESHOLD)),
{
}

/// When a wait for another caller's scan fails a second time, the process
/// is blocked; after the first failure the slot is asked for once more.
pub proof fn law_second_failed_wait_blocks(
    file_size: u64,
    mod_time: FileTime,
    failure: WaitResult,
)
    requires
        !(failure is Completed),
    ensures
        flow_step(
            FlowState::Waiting { file_size, mod_time, retried: true },
            FlowEvent::Waited(failure),
        ) == (FlowState::Done, FlowAction::Respond(Reply::FailClosed)),
        flow_step(
            FlowState::Waiting { file_size, mod_time, retried: false },
            FlowEvent::Waited(failure),
        ) == (
            FlowState::Slot { file_size, mod_time, retried: true },
            FlowAction::RequestSlot { file_size, mod_time },
        ),
{
}

/// Once a wait has failed, the scan never goes back to a state that may
/// wait and retry again: every later slot or wait state is marked retried.
pub proof fn law_retry_happens_once(state: FlowState, event: FlowEvent)
    requires
        match state {
            FlowState::Slot { retried, .. } => retried,
            FlowState::Waiting { retried, .. } => retried,
            _ => false,
        },
    ensures
        match flow_step(state, event).0 {
            FlowState::Slot { retried, .. } => retried,
            FlowState::Waiting { retried, .. } => retried,
            FlowState::Start => false,
            _ => true,
        },
{
}

/// A decided scan stays decided, and every verdict ends the scan.
pub proof fn law_verdict_is_final(state: FlowState, event: FlowEvent)
    ensures
        flow_step(FlowState::Done, event) == (FlowState::Done, FlowAction::Ignore),
        flow_step(state, event).1 is Respond ==> flow_step(state, event).0 is Done,
{
}

} // verus!
