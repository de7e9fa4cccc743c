use galatea::correlation::{correlate, system_process_report, ProbedProcess};
use galatea::detection::{
    ioc_type_of, DetectionDetails, IocType, SignatureRecord, SignatureStatus, Verdict,
};
use galatea::file_context::{FileTime, FileVerdict};
use galatea::heuristics::HeurReport;
use galatea::scan_flow::{
    advance, build_result_from_details, completed_scan, reply_result, run_stage, stage_after,
    AnalysisResult, FlowAction, FlowEvent, FlowState, GalateaEvent, Reply, ScanStage,
    StageInput,
};
use galatea::static_result_cache::{
    finished_state, wait_result, CompletedScan, ScanOutcome, ScanState, StaticResultCache, WaitResult,
};

fn event() -> GalateaEvent {
    let mut image_path: Vec<u16> = "C:\\apps\\tool.exe".encode_utf16().collect();
    image_path.resize(260, 0);
    GalateaEvent { process_id: 4242, request_id: 7, image_path, frozen: true }
}

fn details(score: i32) -> DetectionDetails {
    let mut d = DetectionDetails::empty();
    d.threat_score = score;
    d
}

fn time(secs: u64) -> FileTime {
    FileTime { secs, nanos: 0 }
}

#[test]
fn unexaminable_or_empty_files_are_blocked() {
    let (state, action) = advance(FlowState::Start, FlowEvent::Stat(None));
    assert!(matches!(state, FlowState::Done));
    assert!(matches!(action, FlowAction::Respond(Reply::FailClosed)));
    let (_, action) = advance(FlowState::Start, FlowEvent::Stat(Some((0, time(1)))));
    assert!(matches!(action, FlowAction::Respond(Reply::FailClosed)));
    let result = reply_result(event(), Reply::FailClosed);
    assert!(!result.verdict_allow);
    assert_eq!(result.threat_score, 0);
}

#[test]
fn a_cache_hit_allows_at_or_under_the_threshold() {
    let (state, action) = advance(FlowState::Start, FlowEvent::Stat(Some((100, time(5)))));
    assert!(matches!(action, FlowAction::RequestSlot { file_size: 100, .. }));
    let (_, action) = advance(state, FlowEvent::CacheHit(details(80)));
    match action {
        FlowAction::Respond(Reply::Reuse { allow, file_size, .. }) => {
            assert!(allow);
            assert_eq!(file_size, 100);
        }
        _ => panic!("expected a reused verdict"),
    }
    let slot = FlowState::Slot { file_size: 100, mod_time: time(5), retried: false };
    let (_, action) = advance(slot, FlowEvent::CacheHit(details(81)));
    assert!(matches!(action, FlowAction::Respond(Reply::Reuse { allow: false, .. })));
}

#[test]
fn a_failed_wait_retries_once_then_blocks() {
    let slot = FlowState::Slot { file_size: 10, mod_time: time(1), retried: false };
    let (waiting, action) = advance(slot, FlowEvent::SlotBusy);
    assert!(matches!(action, FlowAction::Wait));
    let (slot_again, action) = advance(waiting, FlowEvent::Waited(WaitResult::Timeout));
    assert!(matches!(action, FlowAction::RequestSlot { .. }));
    assert!(matches!(slot_again, FlowState::Slot { retried: true, .. }));
    let (waiting_again, _) = advance(slot_again, FlowEvent::SlotBusy);
    let (done, action) = advance(waiting_again, FlowEvent::Waited(WaitResult::Failed));
    assert!(matches!(done, FlowState::Done));
    assert!(matches!(action, FlowAction::Respond(Reply::FailClosed)));
}

#[test]
fn a_finished_wait_reuses_the_other_scan() {
    let waiting = FlowState::Waiting { file_size: 10, mod_time: time(1), retried: false };
    let scan = CompletedScan { details: details(90), mod_time: time(9), file_size: 99, file_index: None };
    let (_, action) = advance(waiting, FlowEvent::Waited(WaitResult::Completed(scan)));
    match action {
        FlowAction::Respond(reply) => {
            let result = reply_result(event(), reply);
            assert!(!result.verdict_allow);
            assert_eq!(result.size, 99);
            assert_eq!(result.mod_time, time(9));
            assert_eq!(result.threat_score, 90);
        }
        _ => panic!("expected a verdict"),
    }
}

#[test]
fn an_unreadable_file_is_blocked_with_its_identity() {
    let scanning = FlowState::Scanning { file_size: 10, mod_time: time(3) };
    let (_, action) = advance(scanning, FlowEvent::Unreadable);
    match action {
        FlowAction::Respond(reply) => {
            let result = reply_result(event(), reply);
            assert!(!result.verdict_allow);
            assert_eq!(result.size, 10);
        }
        _ => panic!("expected a verdict"),
    }
}

#[test]
fn events_outside_their_state_are_ignored() {
    let (state, action) = advance(FlowState::Done, FlowEvent::SlotAcquired);
    assert!(matches!(state, FlowState::Done));
    assert!(matches!(action, FlowAction::Ignore));
    let (state, action) = advance(FlowState::Start, FlowEvent::Unreadable);
    assert!(matches!(state, FlowState::Start));
    assert!(matches!(action, FlowAction::Ignore));
}

#[test]
fn stages_run_in_order_and_a_known_bad_hash_blocks() {
    assert_eq!(stage_after(ScanStage::Signature), Some(ScanStage::Authenticode));
    assert_eq!(stage_after(ScanStage::Heuristic), None);
    let mut ctx = AnalysisResult::new(event());
    let record = SignatureRecord {
        hash: "abc".to_string(),
        ioc_type: IocType::Md5Hash,
        verdict: 100,
        meta: "trojan".to_string(),
    };
    let next = run_stage(
        &mut ctx,
        StageInput::Signature { hash: "abc".to_string(), record: Some(record) },
    );
    assert_eq!(next, None);
    assert!(!ctx.verdict_allow);
    assert_eq!(ctx.threat_score, 100);
    assert_eq!(ctx.md5_hash.as_deref(), Some("abc"));
    assert_eq!(ctx.signature_match.as_ref().map(|m| m.metadata.as_str()), Some("trojan"));
}

#[test]
fn an_unknown_indicator_kind_adds_nothing() {
    let mut ctx = AnalysisResult::new(event());
    let record = SignatureRecord {
        hash: "abc".to_string(),
        ioc_type: ioc_type_of(3),
        verdict: 100,
        meta: String::new(),
    };
    let next = run_stage(
        &mut ctx,
        StageInput::Signature { hash: "abc".to_string(), record: Some(record) },
    );
    assert_eq!(next, Some(ScanStage::Authenticode));
    assert_eq!(ctx.threat_score, 0);
    assert!(ctx.signature_match.is_none());
    assert_eq!(ioc_type_of(0), IocType::Md5Hash);
}

#[test]
fn trusted_signers_are_forgiven_and_revoked_ones_blocked() {
    let mut ctx = AnalysisResult::new(event());
    let trusted = SignatureStatus::from_trust_result(0, Some("Contoso".to_string()));
    assert!(trusted.is_signed && trusted.is_trusted);
    assert_eq!(run_stage(&mut ctx, StageInput::Authenticode(trusted)), Some(ScanStage::Ml));
    assert_eq!(ctx.threat_score, -40);
    assert_eq!(ctx.authenticode.as_ref().map(|a| a.score_modifier), Some(-40));

    let mut ctx = AnalysisResult::new(event());
    let revoked = SignatureStatus::from_trust_result(0x800B_010Cu32 as i32, None);
    assert!(revoked.is_revoked && !revoked.is_trusted);
    assert_eq!(run_stage(&mut ctx, StageInput::Authenticode(revoked)), None);
    assert_eq!(ctx.threat_score, 100);
    assert!(!ctx.verdict_allow);

    let unsigned = SignatureStatus::from_trust_result(0x800B_0100u32 as i32, Some("x".to_string()));
    assert!(!unsigned.is_signed);
    assert!(unsigned.signer.is_none());
    let mut ctx = AnalysisResult::new(event());
    assert_eq!(run_stage(&mut ctx, StageInput::Authenticode(unsigned)), Some(ScanStage::Ml));
    assert_eq!(ctx.threat_score, 0);
    assert!(ctx.authenticode.is_none());
}

#[test]
fn untrusted_signers_and_confident_predictions_add_score_without_blocking() {
    let mut ctx = AnalysisResult::new(event());
    let untrusted = SignatureStatus::from_trust_result(0x800B_0109u32 as i32, None);
    assert_eq!(run_stage(&mut ctx, StageInput::Authenticode(untrusted)), Some(ScanStage::Ml));
    assert_eq!(ctx.threat_score, 5);
    ctx.threat_score = 70;
    assert_eq!(
        run_stage(&mut ctx, StageInput::Ml(Some(0.95f32.to_bits()))),
        Some(ScanStage::Heuristic)
    );
    assert_eq!(ctx.threat_score, 110);
    assert!(ctx.verdict_allow);
    assert_eq!(
        ctx.ml_prediction.map(|p| f32::from_bits(p.probability_bits)),
        Some(0.95f32)
    );
}

#[test]
fn heuristic_findings_are_recorded_and_can_block() {
    let mut ctx = AnalysisResult::new(event());
    ctx.threat_score = 60;
    let mut report = HeurReport::new();
    report.score_mod = 45;
    report.is_packed = true;
    report.packer = Some("UPX".to_string());
    assert_eq!(run_stage(&mut ctx, StageInput::Heuristic(Some(report))), None);
    assert!(!ctx.verdict_allow);
    let h = ctx.heuristics.as_ref().expect("recorded");
    assert_eq!(h.packer_name.as_deref(), Some("UPX"));
    assert!(h.imphash.is_none());
    assert_eq!(ctx.threat_score, 105);

    let mut ctx = AnalysisResult::new(event());
    assert_eq!(run_stage(&mut ctx, StageInput::Heuristic(None)), None);
    assert!(ctx.verdict_allow);
}

#[test]
fn completed_scans_carry_the_findings_and_summarise_the_verdict() {
    let mut ctx = AnalysisResult::new(event());
    ctx.threat_score = 60;
    ctx.size = 4096;
    ctx.mod_time = time(77);
    let scan = completed_scan(&ctx, Some(5));
    assert_eq!(scan.details.threat_score, 60);
    assert_eq!(scan.file_size, 4096);
    let summary = scan.summary();
    assert_eq!(summary.verdict, FileVerdict::Suspicious);
    assert_eq!(summary.file_index, Some(5));
    let high = CompletedScan { details: details(81), mod_time: time(1), file_size: 1, file_index: None };
    assert_eq!(high.summary().verdict, FileVerdict::Malicious);
    let low = CompletedScan { details: details(50), mod_time: time(1), file_size: 1, file_index: None };
    assert_eq!(low.summary().verdict, FileVerdict::Benign);
}

#[test]
fn rebuilt_results_keep_the_cached_details() {
    let result = build_result_from_details(event(), details(12), true, 5, time(2));
    assert_eq!(result.threat_score, 12);
    assert!(result.verdict_allow);
    assert_eq!(result.size, 5);
    assert_eq!(result.event.process_id, 4242);
}

#[test]
fn second_caller_waits_and_completion_serves_later_callers() {
    let mut cache = StaticResultCache::new();
    let key = "C:\\apps\\tool.exe".to_string();
    let first = cache.try_acquire_key(key.clone(), time(10), 100, Some(3));
    let guard = match first {
        ScanOutcome::Acquired(g) => g,
        _ => panic!("first caller owns the scan"),
    };
    assert_eq!(guard.key(), &key);
    match cache.try_acquire_key(key.clone(), time(10), 100, Some(3)) {
        ScanOutcome::Wait(k) => assert_eq!(k, key),
        _ => panic!("second caller waits"),
    }
    let scan = CompletedScan { details: details(7), mod_time: time(10), file_size: 100, file_index: Some(3) };
    assert!(cache.complete_scan(guard, scan));
    match cache.try_acquire_key(key.clone(), time(10), 100, Some(3)) {
        ScanOutcome::CacheHit(d) => assert_eq!(d.threat_score, 7),
        _ => panic!("finished scan is reused"),
    }
}

#[test]
fn a_changed_file_is_scanned_again() {
    let mut cache = StaticResultCache::new();
    let key = "C:\\apps\\tool.exe".to_string();
    let guard = match cache.try_acquire_key(key.clone(), time(10), 100, Some(3)) {
        ScanOutcome::Acquired(g) => g,
        _ => panic!("slot"),
    };
    let scan = CompletedScan { details: details(7), mod_time: time(10), file_size: 100, file_index: Some(3) };
    cache.complete_scan(guard, scan);
    // A different NTFS index means the file was replaced.
    match cache.try_acquire_key(key.clone(), time(10), 100, Some(4)) {
        ScanOutcome::Acquired(g) => {
            assert!(cache.abort_scan(g));
        }
        _ => panic!("replaced file is scanned again"),
    }
    // After an abort the slot is free again and the stale entry is gone.
    match cache.try_acquire_key(key.clone(), time(10), 100, Some(3)) {
        ScanOutcome::Acquired(_) => {}
        _ => panic!("aborted slot is free"),
    }
}

#[test]
fn a_different_size_misses_the_cache() {
    let mut cache = StaticResultCache::new();
    let key = "C:\\apps\\other.exe".to_string();
    let guard = match cache.try_acquire_key(key.clone(), time(1), 1, None) {
        ScanOutcome::Acquired(g) => g,
        _ => panic!("slot"),
    };
    cache.complete_scan(guard, CompletedScan { details: details(1), mod_time: time(1), file_size: 1, file_index: None });
    assert!(matches!(cache.try_acquire_key(key.clone(), time(1), 2, None), ScanOutcome::Acquired(_)));
}

#[test]
fn correlation_falls_back_to_the_event_path() {
    let mut result = AnalysisResult::new(event());
    result.verdict_allow = false;
    result.threat_score = 95;
    let c = correlate(result, None);
    assert_eq!(c.process_info.name, "Unknown");
    assert_eq!(c.process_info.path, "C:\\apps\\tool.exe");
    assert_eq!(c.process_info.pid, 4242);
    assert_eq!(c.verdict, Verdict::Blocked);
    assert_eq!(c.detection.threat_score, 95);
    assert!(!c.driver_verdict.allow);
    assert_eq!(c.driver_verdict.request_id, 7);
}

#[test]
fn correlation_uses_what_the_probe_read() {
    let probed = ProbedProcess {
        name: "tool.exe".to_string(),
        path: "C:\\real\\tool.exe".to_string(),
        parent_pid: Some(1),
        command_line: Some("tool --x".to_string()),
        creation_time: Some(time(3)),
    };
    let c = correlate(AnalysisResult::new(event()), Some(probed));
    assert_eq!(c.process_info.name, "tool.exe");
    assert_eq!(c.process_info.parent_pid, Some(1));
    assert_eq!(c.verdict, Verdict::Allowed);
    let (info, d, v) = system_process_report(&event(), None);
    assert_eq!(info.name, "Unknown");
    assert_eq!(d.threat_score, 0);
    assert_eq!(v, Verdict::SystemAllowed);
}

#[test]
fn findings_cached_for_a_file_are_read_back_for_the_same_file() {
    let mut cache = StaticResultCache::new();
    let path = "C:\\apps\\tool.exe".to_string();
    assert!(cache.retreive_result(&path, time(5), 100).is_none());
    cache.cache_result(path.clone(), time(5), 100, details(42));
    let found = cache.retreive_result(&path, time(5), 100).expect("the findings are cached");
    assert_eq!(found.threat_score, 42);
    assert!(cache.retreive_result(&path, time(6), 100).is_none());
    assert!(cache.retreive_result(&path, time(5), 101).is_none());
}

#[test]
fn waiters_receive_what_the_owner_left() {
    let scan = CompletedScan { details: details(42), mod_time: time(3), file_size: 12, file_index: Some(8) };
    let done = finished_state(Some(scan));
    match wait_result(&done, false) {
        WaitResult::Completed(s) => {
            assert_eq!(s.details.threat_score, 42);
            assert_eq!(s.file_size, 12);
            assert_eq!(s.file_index, Some(8));
        }
        _ => panic!("a completed scan is handed to its waiters"),
    }
    assert!(matches!(wait_result(&done, true), WaitResult::Timeout));
    assert!(matches!(wait_result(&finished_state(None), false), WaitResult::Failed));
    assert!(matches!(wait_result(&ScanState::Pending, false), WaitResult::Failed));
}
