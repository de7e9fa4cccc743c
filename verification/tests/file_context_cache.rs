use galatea::file_context::{FileContextKey, FileTelemetryUpdate, FileTime, FileVerdict, ScanSummary};
use galatea::file_context_cache::FileContextCache;
use galatea::signatures::FileFlags;
use moka::policy::EvictionPolicy;

fn telemetry(path: &str, file_index: Option<u64>) -> FileTelemetryUpdate {
    FileTelemetryUpdate {
        normalized_file_path: Some(path.to_string()),
        file_index,
        last_write_process: None,
        last_write_time: None,
        last_rename_time: None,
        original_name: None,
        matching_flags: Some(vec![FileFlags::FileWriteSuccess]),
    }
}

#[test]
fn path_and_file_index_resolve_to_one_context() {
    let mut cache = FileContextCache::with_capacities(10, 10, EvictionPolicy::lru());
    let path = "C:\\test\\sample.exe";
    let file_index = 42;

    let _ = cache.write_telemetry(
        FileContextKey::FileIndex(file_index),
        telemetry(path, Some(file_index)),
    );
    let _ = cache.flag_file(
        FileContextKey::Path(path.to_string()),
        vec![FileFlags::BlackListed],
    );

    let by_index = cache.get_by_file_index(file_index);
    let by_path = cache.get_by_path(path);

    assert!(by_index.is_some());
    assert!(by_path.is_some());
    assert!(by_index
        .as_ref()
        .is_some_and(|context| context.flags().contains(&FileFlags::BlackListed)));
    assert!(by_path
        .as_ref()
        .is_some_and(|context| context.flags().contains(&FileFlags::BlackListed)));
}

#[test]
fn invalidating_one_alias_removes_every_alias() {
    let mut cache = FileContextCache::with_capacities(10, 10, EvictionPolicy::lru());
    let path = "C:\\test\\sample.exe";
    let file_index = 43;

    let _ = cache.write_telemetry(
        FileContextKey::FileIndex(file_index),
        telemetry(path, Some(file_index)),
    );
    cache.invalidate(&FileContextKey::Path(path.to_string()));

    assert!(cache.get_by_path(path).is_none());
    assert!(cache.get_by_file_index(file_index).is_none());
}

#[test]
fn rename_replaces_the_old_path_alias() {
    let mut cache = FileContextCache::with_capacities(10, 10, EvictionPolicy::lru());
    let old_path = "C:\\test\\payload.tmp";
    let new_path = "C:\\test\\payload.exe";
    let file_index = 45;

    let _ = cache.write_telemetry(
        FileContextKey::FileIndex(file_index),
        telemetry(old_path, Some(file_index)),
    );
    let _ = cache.write_telemetry(
        FileContextKey::FileIndex(file_index),
        FileTelemetryUpdate {
            normalized_file_path: Some(new_path.to_string()),
            file_index: Some(file_index),
            last_write_process: None,
            last_write_time: None,
            last_rename_time: None,
            original_name: Some(old_path.to_string()),
            matching_flags: None,
        },
    );

    assert!(cache.get_by_path(old_path).is_none());
    assert!(cache.get_by_path(new_path).is_some());
    assert!(cache.get_by_file_index(file_index).is_some());
}

#[test]
fn high_risk_context_moves_to_protected_tier() {
    let mut cache = FileContextCache::with_capacities(10, 10, EvictionPolicy::lru());
    let path = "C:\\test\\payload.exe";
    let file_index = 44;

    let _ = cache.write_telemetry(
        FileContextKey::FileIndex(file_index),
        telemetry(path, Some(file_index)),
    );
    let _ = cache.flag_file(
        FileContextKey::FileIndex(file_index),
        vec![FileFlags::InTempLocation, FileFlags::RenamedToExecutable],
    );

    let context_id = cache.context_id_for_alias(&FileContextKey::FileIndex(file_index));
    assert!(context_id.is_some());
    assert!(context_id.is_some_and(|context_id| cache.is_in_high_priority_tier(context_id)));
    assert!(context_id.is_some_and(|context_id| !cache.is_in_normal_tier(context_id)));
}

#[test]
fn evicted_context_removes_its_aliases() {
    let mut cache = FileContextCache::with_capacities(1, 1, EvictionPolicy::lru());
    let first_path = "C:\\test\\first.txt";
    let second_path = "C:\\test\\second.txt";

    let _ = cache.write_telemetry(
        FileContextKey::Path(first_path.to_string()),
        telemetry(first_path, None),
    );
    let _ = cache.write_telemetry(
        FileContextKey::Path(second_path.to_string()),
        telemetry(second_path, None),
    );
    cache.run_pending_tasks();
    cache.drain_evicted_contexts();

    assert!(cache.get_by_path(first_path).is_none());
    assert!(cache.get_by_path(second_path).is_some());
}

#[test]
fn telemetry_fields_are_merged_and_flags_appended() {
    let mut cache = FileContextCache::with_capacities(10, 10, EvictionPolicy::lru());
    let path = "C:\\test\\merge.exe";
    let _ = cache.write_telemetry(FileContextKey::FileIndex(7), telemetry(path, Some(7)));
    let _ = cache.write_telemetry(
        FileContextKey::FileIndex(7),
        FileTelemetryUpdate {
            normalized_file_path: None,
            file_index: None,
            last_write_process: Some("C:\\tools\\writer.exe".to_string()),
            last_write_time: None,
            last_rename_time: None,
            original_name: None,
            matching_flags: Some(vec![FileFlags::InTempLocation]),
        },
    );
    let context = cache.get_by_file_index(7).expect("context stored");
    assert_eq!(context.normalized_file_path(), Some(path));
    assert_eq!(context.file_index(), Some(7));
    assert_eq!(context.last_write_process(), Some("C:\\tools\\writer.exe"));
    assert_eq!(
        context.flags(),
        &[FileFlags::FileWriteSuccess, FileFlags::InTempLocation][..]
    );
}

#[test]
fn snapshot_lists_each_context_once_within_the_limit() {
    let mut cache = FileContextCache::with_capacities(10, 10, EvictionPolicy::lru());
    let _ = cache.write_telemetry(
        FileContextKey::FileIndex(1),
        telemetry("C:\\a\\one.exe", Some(1)),
    );
    let _ = cache.write_telemetry(
        FileContextKey::FileIndex(2),
        telemetry("C:\\a\\two.exe", Some(2)),
    );
    let all = cache.snapshot(10);
    assert_eq!(all.len(), 2);
    let one = cache.snapshot(1);
    assert_eq!(one.len(), 1);
}

#[test]
fn unknown_keys_resolve_to_nothing() {
    let mut cache = FileContextCache::new();
    assert!(cache.get_by_file_index(99).is_none());
    assert!(cache.get_by_path("C:\\nowhere\\missing.exe").is_none());
    assert!(cache
        .context_id_for_alias(&FileContextKey::FileIndex(99))
        .is_none());
}

fn summary(verdict: FileVerdict, score: i32) -> ScanSummary {
    ScanSummary { verdict, threat_score: score, file_size: 10, mod_time: FileTime { secs: 1, nanos: 0 }, file_index: None }
}

#[test]
fn the_latest_scan_summary_is_read_back() {
    let mut cache = FileContextCache::with_capacities(10, 10, EvictionPolicy::lru());
    let key = FileContextKey::FileIndex(3);
    let _ = cache.write_scan_summary(FileContextKey::FileIndex(3), summary(FileVerdict::Benign, 5));
    let _ = cache.write_scan_summary(FileContextKey::FileIndex(3), summary(FileVerdict::Suspicious, 60));
    let c = cache.get(&key).expect("the context is stored");
    assert_eq!(c.last_scan_summary().map(|s| s.threat_score), Some(60));
    assert_eq!(c.last_scan_summary().map(|s| s.verdict), Some(FileVerdict::Suspicious));
}

#[test]
fn invalidating_one_context_keeps_the_others() {
    let mut cache = FileContextCache::with_capacities(10, 10, EvictionPolicy::lru());
    let _ = cache.write_telemetry(FileContextKey::FileIndex(1), telemetry("C:\\x\\one.exe", Some(1)));
    let _ = cache.write_telemetry(FileContextKey::FileIndex(2), telemetry("C:\\x\\two.exe", Some(2)));
    cache.invalidate(&FileContextKey::FileIndex(1));
    assert!(cache.get(&FileContextKey::FileIndex(1)).is_none());
    let other = cache.get(&FileContextKey::FileIndex(2)).expect("the other context stays");
    assert_eq!(other.normalized_file_path(), Some("C:\\x\\two.exe"));
    assert!(cache.get_by_path("C:\\x\\two.exe").is_some());
}
