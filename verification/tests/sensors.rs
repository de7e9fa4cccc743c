use galatea::file_context::{FileContextKey, FileTime};
use galatea::fs_filter::{
    accepts_client, fs_event, pre_create_status, rename_flags, rename_name_units, reports_create,
    reports_rename, reports_write, CreateDisposition, PreopStatus, SetInfoClass,
};
use galatea::ipc::{
    command_response, empty_request_response, frame, length_prefix, prefixed_length,
    snapshot_result, write_pieces, IpcRequest, IpcResponse,
};
use galatea::file_context_cache::FileContextCache;
use galatea::mgmt::{cleanup, create_command, is_running_output, query_command, resolve_driver_path};
use galatea::sensor::{
    event_image_path, frozen_thread_fate, is_allowlisted_static, starts_with_ignore_case, to_upper,
    Delivery, IoctlReply, IoctlRequest, SensorState, SensorStatus, ThreadFate,
};
use galatea::signatures::{get_location_flags, normalize_location_path, FileFlags, ProcessFlags};
use galatea::telemetry::{
    fs_event_path, fs_event_telemetry, hook_event_update, write_telemetry_for, FsEventType,
    GalateaFsEvent,
};
use galatea::text::path_from_utf16;

fn wide(s: &str) -> Vec<u16> {
    s.encode_utf16().collect()
}

#[test]
fn location_paths_are_normalized() {
    assert_eq!(
        normalize_location_path("\\\\?\\C:/Users/Bob/AppData/Local/Temp/x.exe"),
        "c:\\users\\bob\\appdata\\local\\temp\\x.exe"
    );
    assert_eq!(normalize_location_path("D:/Data"), "d:\\data");
}

#[test]
fn location_rules_flag_temp_and_startup_folders() {
    assert_eq!(
        get_location_flags("C:\\Users\\Bob\\AppData\\Local\\Temp\\x.exe"),
        vec![FileFlags::InTempLocation]
    );
    assert_eq!(get_location_flags("c:/windows/temp"), vec![FileFlags::InTempLocation]);
    assert_eq!(
        get_location_flags(
            "C:\\ProgramData\\Microsoft\\Windows\\Start Menu\\Programs\\Startup\\run.lnk"
        ),
        vec![FileFlags::InAutoStartLocation]
    );
    assert_eq!(get_location_flags("C:\\Windows\\Temporary\\x"), Vec::<FileFlags>::new());
    assert_eq!(get_location_flags("C:\\Program Files\\app.exe"), Vec::<FileFlags>::new());
}

#[test]
fn a_write_becomes_telemetry_with_location_flags() {
    let now = FileTime { secs: 100, nanos: 5 };
    let (key, update) = write_telemetry_for("C:\\Windows\\Temp\\a.dll".to_string(), Some(9), now);
    assert!(key.same_key(&FileContextKey::FileIndex(9)));
    assert_eq!(update.last_write_time, Some(now));
    assert_eq!(
        update.matching_flags,
        Some(vec![FileFlags::FileWriteSuccess, FileFlags::InTempLocation])
    );
    let (key, _) = write_telemetry_for("C:\\x.txt".to_string(), None, now);
    assert!(key.same_key(&FileContextKey::Path("C:\\x.txt".to_string())));
}

#[test]
fn only_writes_produce_file_telemetry() {
    let mut path = wide("C:\\nowhere\\file.txt");
    path.resize(260, 0);
    let mut event = GalateaFsEvent {
        process_id: 10,
        process_start_key: 1,
        request_id: 0,
        file_index: 0,
        event_type: FsEventType::FileOpen,
        file_path: path,
    };
    assert!(fs_event_telemetry(&event, FileTime { secs: 1, nanos: 0 }).is_none());
    event.event_type = FsEventType::FileWrite;
    let (key, update) = fs_event_telemetry(&event, FileTime { secs: 1, nanos: 0 }).expect("write");
    assert!(!key.is_file_index());
    assert_eq!(update.file_index, None);
    assert_eq!(fs_event_path(&event.file_path), "C:\\nowhere\\file.txt");
}

#[test]
fn hook_events_flag_the_acting_process() {
    let open = hook_event_update(0).expect("known event");
    assert_eq!(open.matching_flags, Some(vec![ProcessFlags::OpenedRemoteProcess]));
    let alloc = hook_event_update(1).expect("known event");
    assert_eq!(alloc.matching_flags, Some(vec![ProcessFlags::AllocedVMemInRemoteProcess]));
    assert!(hook_event_update(2).is_none());
}

#[test]
fn system_images_skip_the_freeze() {
    assert_eq!(to_upper(b'a' as u16), b'A' as u16);
    assert_eq!(to_upper(b'1' as u16), b'1' as u16);
    assert!(starts_with_ignore_case(&wide("AbCd"), &wide("aBc")));
    assert!(!starts_with_ignore_case(&wide("Ab"), &wide("aBc")));
    assert!(is_allowlisted_static(Some(&wide("\\??\\c:\\windows\\system32\\cmd.exe"))));
    assert!(is_allowlisted_static(Some(&wide("\\SystemRoot\\SysWOW64\\x.exe"))));
    assert!(!is_allowlisted_static(Some(&wide("\\??\\C:\\Users\\x.exe"))));
    assert!(!is_allowlisted_static(None));
}

#[test]
fn event_paths_are_cut_and_padded() {
    let long: Vec<u16> = vec![b'a' as u16; 300];
    let p = event_image_path(&long);
    assert_eq!(p.len(), 260);
    assert_eq!(p[258], b'a' as u16);
    assert_eq!(p[259], 0);
    let p = event_image_path(&wide("ab"));
    assert_eq!(&p[..3], &[b'a' as u16, b'b' as u16, 0]);
    assert_eq!(path_from_utf16(&p), "ab");
}

#[test]
fn events_wait_in_a_bounded_queue_for_the_agent() {
    let mut s = SensorState::new();
    // No agent registered yet: requests are refused.
    assert!(matches!(
        s.dispatch_device_control(5, IoctlRequest::GetEvent { fits: true }),
        IoctlReply::Status(SensorStatus::AccessDenied)
    ));
    assert!(matches!(s.dispatch_device_control(5, IoctlRequest::RegisterAgent), IoctlReply::Status(SensorStatus::Success)));
    assert!(matches!(s.dispatch_device_control(6, IoctlRequest::RegisterAgent), IoctlReply::Status(SensorStatus::AccessDenied)));
    assert!(matches!(s.dispatch_device_control(6, IoctlRequest::Other), IoctlReply::Status(SensorStatus::AccessDenied)));
    assert!(matches!(s.dispatch_device_control(5, IoctlRequest::Other), IoctlReply::Status(SensorStatus::InvalidDeviceRequest)));
    // An event with nobody waiting is queued, then handed out in order.
    assert!(matches!(s.process_notify_routine(100, 1, &wide("a.exe"), false, true, true), Delivery::Queued));
    assert!(matches!(s.process_notify_routine(101, 2, &wide("b.exe"), true, true, true), Delivery::Queued));
    match s.dispatch_device_control(5, IoctlRequest::GetEvent { fits: true }) {
        IoctlReply::Event(e) => {
            assert_eq!(e.process_id, 100);
            assert!(e.frozen);
        }
        _ => panic!("queued event"),
    }
    match s.dispatch_device_control(5, IoctlRequest::GetEvent { fits: true }) {
        IoctlReply::Event(e) => {
            assert_eq!(e.process_id, 101);
            assert!(!e.frozen);
        }
        _ => panic!("queued event"),
    }
    // With the queue empty the request waits, and the next event completes it.
    assert!(matches!(s.dispatch_device_control(5, IoctlRequest::GetEvent { fits: true }), IoctlReply::Pending));
    assert!(matches!(
        s.dispatch_device_control(5, IoctlRequest::GetEvent { fits: true }),
        IoctlReply::Status(SensorStatus::Unsuccessful)
    ));
    match s.process_notify_routine(102, 3, &wide("c.exe"), false, true, true) {
        Delivery::Completed { status, event } => {
            assert_eq!(status, SensorStatus::Success);
            assert_eq!(event.request_id, 3);
        }
        _ => panic!("pending request completed"),
    }
}

#[test]
fn a_full_queue_drops_events() {
    let mut s = SensorState::new();
    for i in 0..1000u64 {
        assert!(matches!(s.process_notify_routine(i, i, &[], true, false, true), Delivery::Queued));
    }
    assert!(matches!(s.process_notify_routine(5000, 5000, &[], true, false, true), Delivery::Dropped));
}

#[test]
fn frozen_threads_follow_their_verdict() {
    let mut s = SensorState::new();
    s.dispatch_device_control(5, IoctlRequest::RegisterAgent);
    s.process_notify_routine(300, 30, &wide("x.exe"), false, false, true);
    assert_eq!(s.thread_notify_routine(300), Some(30));
    assert_eq!(s.thread_notify_routine(300), None);
    s.begin_wait(300, 30);
    assert!(matches!(
        s.dispatch_device_control(5, IoctlRequest::SendVerdict { input_fits: true, process_id: 300, request_id: 30, allowed: true }),
        IoctlReply::Status(SensorStatus::Success)
    ));
    assert!(matches!(
        s.dispatch_device_control(5, IoctlRequest::SendVerdict { input_fits: true, process_id: 301, request_id: 30, allowed: true }),
        IoctlReply::Status(SensorStatus::Unsuccessful)
    ));
    assert!(matches!(
        s.dispatch_device_control(5, IoctlRequest::SendVerdict { input_fits: false, process_id: 300, request_id: 30, allowed: true }),
        IoctlReply::Status(SensorStatus::Unsuccessful)
    ));
    let allowed = s.end_wait(300, 30);
    assert!(allowed);
    assert_eq!(frozen_thread_fate(false, allowed), ThreadFate::Resume);
    assert_eq!(frozen_thread_fate(false, false), ThreadFate::Terminate);
    assert_eq!(frozen_thread_fate(true, false), ThreadFate::Resume);
    // A wait that found no verdict blocks.
    s.begin_wait(400, 40);
    assert!(!s.end_wait(400, 40));
    assert!(!s.dispatch_cleanup(true));
}

#[test]
fn minifilter_reports_what_matters() {
    assert_eq!(pre_create_status(false, 100), PreopStatus::WithCallback);
    assert_eq!(pre_create_status(true, 100), PreopStatus::NoCallback);
    assert_eq!(pre_create_status(false, 4), PreopStatus::NoCallback);
    assert!(reports_create(false, 0, CreateDisposition::Created, true));
    assert!(!reports_create(false, 0, CreateDisposition::Opened, true));
    assert!(!reports_create(false, -1, CreateDisposition::Overwritten, true));
    assert!(reports_write(false, true, 5));
    assert!(!reports_write(false, true, 4));
    assert_eq!(rename_name_units(30, 20, 10), Some(5));
    assert_eq!(rename_name_units(30, 20, 11), None);
    assert_eq!(rename_name_units(30, 20, 12), None);
    assert_eq!(rename_name_units(21, 20, 0), None);
    assert_eq!(rename_name_units(2000, 20, 1000), Some(259));
    assert_eq!(rename_flags(SetInfoClass::Rename, true, 7), 1);
    assert_eq!(rename_flags(SetInfoClass::Rename, false, 7), 0);
    assert_eq!(rename_flags(SetInfoClass::RenameEx, true, 7), 7);
    assert!(reports_rename(false, SetInfoClass::RenameEx, true, true, 10));
    assert!(!reports_rename(false, SetInfoClass::Other, true, true, 10));
    let e = fs_event(9, 8, FsEventType::FileCreate, &wide("C:\\f"), 77);
    assert_eq!(e.file_path.len(), 260);
    assert_eq!(e.file_index, 77);
    assert!(accepts_client(false));
    assert!(!accepts_client(true));
}

#[test]
fn responses_are_framed_with_their_length() {
    assert_eq!(length_prefix(0x0102), vec![2, 1, 0, 0, 0, 0, 0, 0]);
    assert_eq!(prefixed_length(&[2, 1, 0, 0, 0, 0, 0, 0]), 0x0102);
    assert_eq!(prefixed_length(&length_prefix(u64::MAX)), u64::MAX);
    let f = frame(b"hi");
    assert_eq!(f, vec![2, 0, 0, 0, 0, 0, 0, 0, b'h', b'i']);
    assert_eq!(write_pieces(10, 4), vec![(0, 4), (4, 8), (8, 10)]);
    assert_eq!(write_pieces(0, 4), Vec::<(usize, usize)>::new());
}

#[test]
fn command_requests_are_answered() {
    let mut cache = FileContextCache::new();
    match command_response(&mut cache, Ok(IpcRequest::GetFileContextSnapshot { limit: 5 })) {
        IpcResponse::FileContextSnapshot { entries } => assert!(entries.is_empty()),
        _ => panic!("snapshot"),
    }
    match command_response(&mut cache, Err("eof".to_string())) {
        IpcResponse::Error { message } => assert_eq!(message, "invalid request: eof"),
        _ => panic!("error"),
    }
    match empty_request_response() {
        IpcResponse::Error { message } => assert_eq!(message, "empty request"),
        _ => panic!("error"),
    }
    assert_eq!(
        snapshot_result(IpcResponse::Error { message: "x".to_string() }).unwrap_err(),
        "x"
    );
}

#[test]
fn driver_service_commands() {
    assert_eq!(query_command("Galatea"), "sc query Galatea");
    assert_eq!(
        create_command("Galatea", "C:\\d\\driver.sys"),
        "sc create Galatea type= kernel binPath= \"C:\\d\\driver.sys\""
    );
    assert!(is_running_output("STATE : 4 RUNNING"));
    assert!(!is_running_output("STATE : 1 STOPPED"));
    assert_eq!(cleanup(), vec!["sc stop Galatea".to_string(), "sc delete Galatea".to_string()]);
    assert_eq!(resolve_driver_path("C:\\d\\driver.sys".to_string(), true), Ok("C:\\d\\driver.sys".to_string()));
    assert_eq!(
        resolve_driver_path("C:\\d\\driver.sys".to_string(), false),
        Err("Could not locate 'driver.sys'. Checked local dir and target/dist.".to_string())
    );
}

#[test]
fn unloading_wakes_every_frozen_process_and_releases_the_agent() {
    let mut s = SensorState::new();
    s.dispatch_device_control(5, IoctlRequest::RegisterAgent);
    s.begin_wait(300, 30);
    s.begin_wait(400, 40);
    let woken = s.driver_unload();
    assert_eq!(woken.len(), 2);
    assert_eq!((woken[0].pid, woken[0].request_id), (300, 30));
    assert_eq!((woken[1].pid, woken[1].request_id), (400, 40));
    // Their waits end with a block, and the agent is gone.
    assert!(!s.end_wait(300, 30));
    assert!(!s.end_wait(400, 40));
    assert!(matches!(
        s.dispatch_device_control(5, IoctlRequest::GetEvent { fits: true }),
        IoctlReply::Status(SensorStatus::AccessDenied)
    ));
}
