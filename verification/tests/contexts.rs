use galatea::file_context::{FileContext, FileTelemetryUpdate, FileTime};
use galatea::heuristics::calc_md5;
use galatea::ipc::{disconnected_clients, win32_error_code};
use galatea::mgmt::registration_url;
use galatea::process_context::{GaPid, ProcessContext, ProcessContextCache, ProcessContextUpdate};
use galatea::signatures::{get_location_flags, FileFlags, ProcessFlags};

fn process_update(score: Option<u64>, flags: Option<Vec<ProcessFlags>>) -> ProcessContextUpdate {
    ProcessContextUpdate {
        pid: Some(42),
        process_start_key: None,
        behavioural_score: score,
        image_path: None,
        image_context_key: None,
        matching_flags: flags,
    }
}

#[test]
fn file_hashes_are_lower_case_md5() {
    assert_eq!(calc_md5(b""), "d41d8cd98f00b204e9800998ecf8427e");
    assert_eq!(calc_md5(b"abc"), "900150983cd24fb0d6963f7d28e17f72");
}

#[test]
fn agents_register_under_the_server_address() {
    assert_eq!(
        registration_url("https://mgmt.example:8443"),
        "https://mgmt.example:8443/api/v1/agents/register"
    );
}

#[test]
fn telemetry_replaces_present_fields_and_appends_flags() {
    let mut context = FileContext::empty();
    context.apply_telemetry(FileTelemetryUpdate {
        normalized_file_path: Some("/nonexistent/galatea/a.exe".to_string()),
        file_index: Some(7),
        last_write_process: Some("writer.exe".to_string()),
        last_write_time: Some(FileTime { secs: 10, nanos: 0 }),
        last_rename_time: None,
        original_name: None,
        matching_flags: Some(vec![FileFlags::InTempLocation]),
    });
    context.apply_telemetry(FileTelemetryUpdate {
        normalized_file_path: None,
        file_index: None,
        last_write_process: Some("other.exe".to_string()),
        last_write_time: None,
        last_rename_time: Some(FileTime { secs: 20, nanos: 5 }),
        original_name: Some("old.txt".to_string()),
        matching_flags: Some(vec![FileFlags::RenamedToExecutable]),
    });
    assert_eq!(context.normalized_file_path(), Some("/nonexistent/galatea/a.exe"));
    assert_eq!(context.file_index(), Some(7));
    assert_eq!(context.last_write_process(), Some("other.exe"));
    assert_eq!(context.last_write_time(), Some(FileTime { secs: 10, nanos: 0 }));
    assert_eq!(context.last_rename_time(), Some(FileTime { secs: 20, nanos: 5 }));
    assert_eq!(context.original_name(), Some("old.txt"));
    assert_eq!(context.flags(), &[FileFlags::InTempLocation, FileFlags::RenamedToExecutable]);
    assert!(context.is_high_priority());
}

#[test]
fn process_updates_merge_and_scored_processes_are_protected() {
    let mut cache = ProcessContextCache::new();
    let guid = GaPid::from_halves(1, 2);
    let first = cache.write_telemetry(guid, process_update(None, Some(vec![ProcessFlags::OpenedRemoteProcess])));
    let first = first.expect("a context is always returned");
    assert_eq!(first.pid(), Some(42));
    assert_eq!(first.guid(), Some(guid));
    assert!(!first.is_high_priority());

    let second = cache
        .write_telemetry(guid, process_update(Some(5), Some(vec![ProcessFlags::AllocedVMemInRemoteProcess])))
        .expect("a context is always returned");
    assert_eq!(second.behavioural_score(), Some(5));
    assert_eq!(
        second.flags(),
        &[ProcessFlags::OpenedRemoteProcess, ProcessFlags::AllocedVMemInRemoteProcess]
    );
    assert!(second.is_high_priority());

    let stored = cache.get(&guid).expect("the context is stored");
    assert_eq!(stored.behavioural_score(), Some(5));
    assert_eq!(stored.flags().len(), 2);

    cache.invalidate(&guid);
    assert!(cache.get(&guid).is_none());
    assert!(cache.get(&GaPid::from_halves(9, 9)).is_none());
}

#[test]
fn a_fresh_process_context_knows_only_its_identity() {
    let guid = GaPid::from_halves(3, 4);
    let mut context = ProcessContext::fresh(guid);
    assert_eq!(context.pid(), None);
    assert_eq!(context.guid(), Some(guid));
    assert!(context.flags().is_empty());
    context.apply_update(process_update(Some(0), None));
    assert_eq!(context.pid(), Some(42));
    assert_eq!(context.behavioural_score(), Some(0));
    assert!(!context.is_high_priority());
}

#[test]
fn win32_codes_are_taken_out_of_their_hresult() {
    assert_eq!(win32_error_code(0x8007_006D), 109);
    assert_eq!(win32_error_code(0x8007_00E8), 232);
    assert_eq!(win32_error_code(0x8000_4005), 0x8000_4005);
    assert_eq!(win32_error_code(232), 232);
}

#[test]
fn clients_whose_pipe_broke_are_dropped_last_first() {
    let outcomes = vec![
        Some(0x8007_006D),
        None,
        Some(0x8000_4005),
        Some(232),
        Some(0x8007_00E8),
    ];
    assert_eq!(disconnected_clients(&outcomes), vec![4, 3, 0]);
    assert_eq!(disconnected_clients(&vec![None, Some(5)]), Vec::<usize>::new());
}

#[test]
fn theme_names_are_distinct_and_not_empty() {
    let mut names = Vec::new();
    let mut t = galatea::theme::AppTheme::default();
    for _ in 0..23 {
        assert!(!t.name().is_empty());
        assert!(!names.contains(&t.name()));
        names.push(t.name());
        t = t.next();
    }
}

#[test]
fn location_flags_ignore_case_and_separators() {
    let path = "C:\\Users\\bob\\AppData\\Local\\Temp\\x.exe";
    let flags = get_location_flags(path);
    assert_eq!(flags, vec![FileFlags::InTempLocation]);
    assert_eq!(get_location_flags(&path.to_ascii_uppercase()), flags);
    assert_eq!(get_location_flags(&path.replace('\\', "/")), flags);
}
