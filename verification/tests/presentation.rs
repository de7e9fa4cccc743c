use galatea::client_view::{
    file_context_listing, filter_placeholder, pause_label, refresh_label, row_verdict_label,
    status_text, theme_label, ListingContent,
};
use galatea::correlation::ProcessInfo;
use galatea::detection::{AuthenticodeInfo, DetectionDetails, HeuristicResults, MlPrediction, SignatureMatch};
use galatea::details::{
    detection_details, detection_listing, file_context_details, int_string, pid_column, score_column,
    DetailLine, DetailValue,
};
use galatea::file_context::FileTime;
use galatea::gui::ViewMode;
use galatea::snapshot::{
    FileContextKeySnapshot, FileContextSnapshot, FileFlagSnapshot, FileScanSummarySnapshot,
    FileVerdictSnapshot,
};
use galatea::theme::AppTheme;

fn heading(h: &str) -> DetailLine {
    DetailLine::Heading(h.to_string())
}

fn row(label: &str, value: &str) -> DetailLine {
    DetailLine::Row(label.to_string(), DetailValue::Text(value.to_string()))
}

fn process(name: &str, pid: u64) -> ProcessInfo {
    ProcessInfo {
        pid,
        name: name.to_string(),
        path: format!("C:\\Apps\\{name}"),
        parent_pid: None,
        command_line: None,
        creation_time: None,
    }
}

fn snapshot(path: &str) -> FileContextSnapshot {
    FileContextSnapshot {
        key: FileContextKeySnapshot::Path(path.to_string()),
        normalized_file_path: Some(path.to_string()),
        file_index: None,
        last_write_process: None,
        last_write_time: None,
        last_rename_time: None,
        original_name: None,
        matching_flags: vec![],
        last_scan_summary: None,
    }
}

#[test]
fn header_texts_follow_the_state() {
    assert_eq!(status_text(true, 3, 12), "Connected | 3 detections | 12 files");
    assert_eq!(status_text(false, 3, 12), "Disconnected - waiting for agent...");
    assert_eq!(filter_placeholder(ViewMode::Detections), "Filter by process name or PID...");
    assert_eq!(
        filter_placeholder(ViewMode::FileContexts),
        "Filter by path, file index, process, or verdict..."
    );
    assert_eq!(refresh_label(true), "Refreshing");
    assert_eq!(refresh_label(false), "Refresh");
    assert_eq!(pause_label(true, 4), " Paused (4)");
    assert_eq!(pause_label(true, 0), " Paused");
    assert_eq!(pause_label(false, 9), " Live");
    assert_eq!(theme_label(AppTheme::Dark), "Theme: Dark");
    assert_eq!(row_verdict_label(&None), "Unscanned");
}

#[test]
fn numbers_in_rows_are_decimal() {
    assert_eq!(pid_column(4242), "PID: 4242");
    assert_eq!(score_column(-25), "Score: -25");
    assert_eq!(score_column(0), "Score: 0");
    assert_eq!(int_string(i32::MIN), "-2147483648");
    assert_eq!(int_string(i32::MAX), "2147483647");
}

#[test]
fn the_file_listing_explains_an_empty_list() {
    assert_eq!(
        file_context_listing(&[], "", true, None),
        ListingContent::Message("Refreshing file context cache...".to_string())
    );
    assert_eq!(
        file_context_listing(&[], "", false, None),
        ListingContent::Message("No file contexts cached yet.".to_string())
    );
    assert_eq!(
        file_context_listing(&[], "", false, Some("pipe closed")),
        ListingContent::Message("pipe closed".to_string())
    );
    let contexts = vec![snapshot("C:\\Temp\\a.exe"), snapshot("C:\\Docs\\b.txt"), snapshot("C:\\Temp\\c.dll")];
    assert_eq!(
        file_context_listing(&contexts, "zzz", false, None),
        ListingContent::Message("No file contexts match the filter.".to_string())
    );
    assert_eq!(file_context_listing(&contexts, "temp", true, None), ListingContent::Rows(vec![0, 2]));
    assert_eq!(file_context_listing(&contexts, "", false, None), ListingContent::Rows(vec![0, 1, 2]));
}

#[test]
fn the_detection_feed_filters_by_name_or_pid() {
    assert_eq!(
        detection_listing(&[], ""),
        ListingContent::Message("No detections yet. Waiting for events from agent...".to_string())
    );
    let infos = vec![process("Notepad.exe", 1200), process("calc.exe", 4321), process("cmd.exe", 77)];
    assert_eq!(detection_listing(&infos, "NOTE"), ListingContent::Rows(vec![0]));
    assert_eq!(detection_listing(&infos, "43"), ListingContent::Rows(vec![1]));
    assert_eq!(detection_listing(&infos, "c"), ListingContent::Rows(vec![1, 2]));
    assert_eq!(
        detection_listing(&infos, "zzz"),
        ListingContent::Message("No detections match the filter.".to_string())
    );
}

#[test]
fn an_expanded_detection_lists_every_finding() {
    let mut info = process("evil.exe", 10);
    info.command_line = Some("evil.exe --now".to_string());
    info.parent_pid = Some(4);
    info.creation_time = Some(FileTime { secs: 5, nanos: 0 });
    let details = DetectionDetails {
        threat_score: 90,
        md5_hash: Some("abc".to_string()),
        signature_match: Some(SignatureMatch { hash: "abc".to_string(), verdict_score: 100, metadata: "trojan".to_string() }),
        authenticode: Some(AuthenticodeInfo {
            is_signed: true,
            is_trusted: false,
            is_revoked: true,
            signer: None,
            score_modifier: 100,
        }),
        heuristics: Some(HeuristicResults {
            is_packed: true,
            packer_name: Some("UPX".to_string()),
            has_rwx_sections: false,
            high_entropy: true,
            imphash: None,
            score_modifier: 30,
        }),
        ml_prediction: Some(MlPrediction { probability_bits: 0.75f32.to_bits(), score_modifier: 40 }),
    };
    assert_eq!(
        detection_details(&info, &details),
        vec![
            heading("Process Information"),
            row("Path", "C:\\Apps\\evil.exe"),
            row("Command Line", "evil.exe --now"),
            row("Parent PID", "4"),
            DetailLine::Row("Created".to_string(), DetailValue::Time(FileTime { secs: 5, nanos: 0 })),
            heading("Hash Information"),
            row("MD5", "abc"),
            heading("Signature Match"),
            row("Hash", "abc"),
            row("Score", "100"),
            row("Metadata", "trojan"),
            heading("Authenticode Information"),
            row("Signed", "Yes"),
            row("Trusted", "No"),
            row("Revoked", "Yes"),
            row("Score Modifier", "100"),
            heading("Heuristic Analysis"),
            row("Packed", "Yes"),
            row("Packer", "UPX"),
            row("RWX Sections", "No"),
            row("High Entropy", "Yes"),
            row("Score Modifier", "30"),
            heading("ML Prediction"),
            DetailLine::Row(
                "Malicious Probability".to_string(),
                DetailValue::Probability(0.75f32.to_bits())
            ),
            row("Score Modifier", "40"),
        ]
    );
    let quiet = DetectionDetails {
        threat_score: 0,
        md5_hash: None,
        signature_match: None,
        authenticode: None,
        heuristics: None,
        ml_prediction: None,
    };
    assert_eq!(
        detection_details(&process("a.exe", 1), &quiet),
        vec![heading("Process Information"), row("Path", "C:\\Apps\\a.exe")]
    );
}

#[test]
fn an_expanded_file_context_lists_its_telemetry_and_scan() {
    let mut c = snapshot("C:\\Temp\\a.exe");
    c.key = FileContextKeySnapshot::FileIndex(0x2a);
    c.file_index = Some(0x2a);
    c.last_write_process = Some("w.exe".to_string());
    c.last_write_time = Some(FileTime { secs: 9, nanos: 1 });
    c.matching_flags = vec![FileFlagSnapshot::InTempLocation];
    c.last_scan_summary = Some(FileScanSummarySnapshot {
        verdict: FileVerdictSnapshot::Malicious,
        threat_score: 95,
        file_size: 2048,
        mod_time: FileTime { secs: 3, nanos: 0 },
        file_index: None,
    });
    assert_eq!(
        file_context_details(&c),
        vec![
            heading("File Context"),
            row("Cache Key", "file-index:0x2a"),
            row("Path", "C:\\Temp\\a.exe"),
            row("File Index", "0x2a"),
            row("Flags", "InTempLocation"),
            row("Last Writer", "w.exe"),
            DetailLine::Row("Last Write".to_string(), DetailValue::Time(FileTime { secs: 9, nanos: 1 })),
            row("Last Rename", "-"),
            heading("Latest Static Scan"),
            row("Verdict", "Malicious"),
            row("Threat Score", "95"),
            row("File Size", "2048"),
            DetailLine::Row("Modified".to_string(), DetailValue::Time(FileTime { secs: 3, nanos: 0 })),
            row("Scan File Index", "-"),
        ]
    );
}
