use galatea::client_view::{
    display_path, expanded_key, file_context_matches, flag_label, format_flags, format_key,
    format_optional_u64, verdict_label,
};
use galatea::file_context::FileTime;
use galatea::gui::{ClientEvent, GuiCommand, GuiMessage, GuiModel, ViewMode, MAX_DETECTIONS};
use galatea::snapshot::{
    FileContextKeySnapshot, FileContextSnapshot, FileFlagSnapshot, FileScanSummarySnapshot,
    FileVerdictSnapshot,
};
use galatea::theme::AppTheme;

fn context(key: FileContextKeySnapshot, path: Option<&str>) -> FileContextSnapshot {
    FileContextSnapshot {
        key,
        normalized_file_path: path.map(|p| p.to_string()),
        file_index: None,
        last_write_process: Some("C:\\Tools\\Writer.EXE".to_string()),
        last_write_time: None,
        last_rename_time: None,
        original_name: None,
        matching_flags: vec![FileFlagSnapshot::InTempLocation, FileFlagSnapshot::FileCreateSuccess],
        last_scan_summary: Some(FileScanSummarySnapshot {
            verdict: FileVerdictSnapshot::Suspicious,
            threat_score: 60,
            file_size: 1,
            mod_time: FileTime { secs: 0, nanos: 0 },
            file_index: None,
        }),
    }
}

#[test]
fn themes_cycle_through_all_of_them() {
    let start = AppTheme::default();
    assert_eq!(start, AppTheme::DefenderExplorer);
    assert_eq!(start.next(), AppTheme::Dark);
    assert_eq!(AppTheme::Dark.next(), AppTheme::Light);
    let mut t = start;
    let mut seen = Vec::new();
    for _ in 0..23 {
        assert!(!seen.contains(&t));
        seen.push(t);
        t = t.next();
    }
    assert_eq!(t, start);
    assert_eq!(AppTheme::TokyoNightStorm.name(), "Tokyo Night Storm");
    assert_eq!(AppTheme::DefenderExplorer.name(), "Defender Explorer");
}

#[test]
fn keys_and_numbers_are_shown_in_hex() {
    assert_eq!(format_optional_u64(Some(255)), "0xff");
    assert_eq!(format_optional_u64(Some(0)), "0x0");
    assert_eq!(format_optional_u64(None), "-");
    assert_eq!(format_key(&FileContextKeySnapshot::FileIndex(42)), "file-index:0x2a");
    assert_eq!(format_key(&FileContextKeySnapshot::Path("C:\\a.exe".to_string())), "C:\\a.exe");
    let c = context(FileContextKeySnapshot::FileIndex(16), None);
    assert_eq!(expanded_key(&c), "file-context:file-index:0x10");
    assert_eq!(display_path(&c), "file-index:0x10");
    let c = context(FileContextKeySnapshot::FileIndex(16), Some("C:\\x\\y.exe"));
    assert_eq!(display_path(&c), "C:\\x\\y.exe");
}

#[test]
fn flags_and_verdicts_have_labels() {
    assert_eq!(flag_label(FileFlagSnapshot::FileCreateSuccess), "FileCreated");
    assert_eq!(flag_label(FileFlagSnapshot::BlackListed), "BlackListed");
    assert_eq!(format_flags(&[]), "-");
    assert_eq!(
        format_flags(&[FileFlagSnapshot::InTempLocation, FileFlagSnapshot::FileCreateSuccess]),
        "InTempLocation, FileCreated"
    );
    assert_eq!(verdict_label(FileVerdictSnapshot::Malicious), "Malicious");
}

#[test]
fn the_filter_matches_any_shown_text_ignoring_case() {
    let c = context(FileContextKeySnapshot::FileIndex(16), Some("C:\\Users\\Bob\\Temp\\drop.exe"));
    assert!(file_context_matches(&c, ""));
    assert!(file_context_matches(&c, "DROP"));
    assert!(file_context_matches(&c, "writer"));
    assert!(file_context_matches(&c, "suspicious"));
    assert!(file_context_matches(&c, "filecreated"));
    assert!(file_context_matches(&c, "0x10"));
    assert!(!file_context_matches(&c, "malicious"));
}

#[test]
fn the_feed_keeps_the_newest_detections() {
    let mut gui: GuiModel<u32> = GuiModel::new();
    for i in 0..(MAX_DETECTIONS as u32 + 5) {
        gui.update(GuiMessage::IpcEvent(ClientEvent::Detection(i)));
    }
    assert_eq!(gui.detections().len(), MAX_DETECTIONS);
    assert_eq!(gui.detections()[0], MAX_DETECTIONS as u32 + 4);
    assert_eq!(*gui.detections().back().unwrap(), 5);
}

#[test]
fn pausing_holds_back_detections_until_unpaused() {
    let mut gui: GuiModel<u32> = GuiModel::new();
    gui.update(GuiMessage::IpcEvent(ClientEvent::Detection(1)));
    gui.update(GuiMessage::TogglePause);
    assert!(gui.is_paused());
    gui.update(GuiMessage::IpcEvent(ClientEvent::Detection(2)));
    gui.update(GuiMessage::IpcEvent(ClientEvent::Detection(3)));
    assert_eq!(gui.detections(), &vec![1u32]);
    assert_eq!(gui.pending_count(), 2);
    gui.update(GuiMessage::TogglePause);
    assert!(!gui.is_paused());
    assert_eq!(gui.detections(), &vec![3u32, 2, 1]);
    assert_eq!(gui.pending_count(), 0);
}

#[test]
fn expanding_a_detection_pauses_the_feed() {
    let mut gui: GuiModel<u32> = GuiModel::new();
    let id = "event-1".to_string();
    gui.update(GuiMessage::ToggleExpanded(id.clone()));
    assert!(gui.is_expanded(&id));
    assert!(gui.is_paused());
    gui.update(GuiMessage::ToggleExpanded(id.clone()));
    assert!(!gui.is_expanded(&id));
    assert!(gui.is_paused());
}

#[test]
fn switching_to_file_contexts_asks_for_a_listing_once() {
    let mut gui: GuiModel<u32> = GuiModel::new();
    gui.update(GuiMessage::FilterChanged("abc".to_string()));
    let cmd = gui.update(GuiMessage::ViewModeChanged(ViewMode::FileContexts));
    assert_eq!(cmd, GuiCommand::LoadFileContexts(500));
    assert_eq!(gui.filter_text(), "");
    assert!(gui.is_loading());
    assert_eq!(
        gui.file_context_status().as_deref(),
        Some("Refreshing file context cache...")
    );
    assert_eq!(gui.update(GuiMessage::RefreshFileContexts), GuiCommand::Nothing);
    let listing = vec![context(FileContextKeySnapshot::FileIndex(1), None)];
    gui.update(GuiMessage::FileContextsLoaded(Ok(listing)));
    assert!(!gui.is_loading());
    assert_eq!(gui.file_contexts().len(), 1);
    assert_eq!(gui.file_context_status().as_deref(), Some("1 cached files"));
    gui.update(GuiMessage::FileContextsLoaded(Err("pipe closed".to_string())));
    assert_eq!(gui.file_context_status().as_deref(), Some("pipe closed"));
}

#[test]
fn connection_theme_and_selection_messages() {
    let mut gui: GuiModel<u32> = GuiModel::new();
    gui.update(GuiMessage::IpcEvent(ClientEvent::Connected));
    assert!(gui.is_connected());
    gui.update(GuiMessage::IpcEvent(ClientEvent::Other));
    assert!(gui.is_connected());
    gui.update(GuiMessage::IpcEvent(ClientEvent::Disconnected));
    assert!(!gui.is_connected());
    gui.update(GuiMessage::ThemeChanged);
    assert_eq!(gui.theme(), AppTheme::Dark);
    gui.update(GuiMessage::DetectionSelected(3));
    assert_eq!(gui.selected_detection(), Some(3));
    assert_eq!(gui.view_mode(), ViewMode::Detections);
}
