use cameraftp::config::AuthConfig;
use cameraftp::error::AppError;
use cameraftp::ftp::{
    classify_uploaded_file, event_type_name, parse_bind_addr, should_handle, DomainEvent,
    FtpAuthConfig, FtpServerSlot, ServerInfo, ServerRuntimeState, ServerStateSnapshot,
    ServerStats, ServerStatus, StatsCommand, StatsEmitFilter, UploadedFileKind,
};
use cameraftp::config::AppConfig;
use cameraftp::ftp::put_pipeline_steps;
use cameraftp::ftp::snapshot_for;
use cameraftp::ftp::{choose_port, require_ip, requested_port, server_auth, DEFAULT_FTP_PORT_WINDOWS};
use cameraftp::ftp::{plan_data_event, FtpDataEvent};
use cameraftp::ftp::save_path_change_needs_slot;
use cameraftp::ftp::server_runtime_view;

fn stats(conn: u64, uploads: u64, bytes: u64, last: Option<&str>) -> ServerStats {
    ServerStats {
        active_connections: conn,
        total_uploads: uploads,
        total_bytes_received: bytes,
        last_uploaded_file: last.map(|s| s.to_string()),
    }
}

#[test]
fn test_server_status_transitions() {
    assert!(ServerStatus::Stopped.can_start());
    assert!(!ServerStatus::Stopped.can_stop());

    assert!(!ServerStatus::Running.can_start());
    assert!(ServerStatus::Running.can_stop());

    assert!(!ServerStatus::Starting.can_start());
    assert!(!ServerStatus::Starting.can_stop());

    assert!(!ServerStatus::Stopping.can_start());
    assert!(!ServerStatus::Stopping.can_stop());
}

#[test]
fn test_server_stats_has_changed() {
    let stats1 = stats(1, 10, 1000, Some("test.jpg"));
    let stats2 = stats(1, 10, 1000, Some("test.jpg"));
    let stats3 = stats(2, 11, 1500, Some("test2.jpg"));

    assert!(!stats1.has_changed(&stats2));
    assert!(stats1.has_changed(&stats3));
}

#[test]
fn server_info_new_builds_ipv4_ftp_url() {
    let info = ServerInfo::new("192.168.1.8".to_string(), 2121, None, None);

    assert_eq!(info.url, "ftp://192.168.1.8:2121");
}

#[test]
fn ftp_auth_config_to_display_credentials() {
    let anonymous = FtpAuthConfig::Anonymous;
    assert_eq!(anonymous.to_display_credentials(), (None, None));

    let authed = FtpAuthConfig::Authenticated {
        username: "admin".to_string(),
        password_hash: "hash123".to_string(),
    };
    let (user, pass_info) = authed.to_display_credentials();
    assert_eq!(user.as_deref(), Some("admin"));
    assert_eq!(pass_info.as_deref(), Some("(配置密码)"));
}

#[test]
fn future_server_info_contract_falls_back_to_ipv4_loopback_for_ipv6_like_host() {
    let info = ServerInfo::new("::1".to_string(), 2121, None, None);

    assert_eq!(info.ip, "127.0.0.1");
    assert_eq!(info.url, "ftp://127.0.0.1:2121");
}

#[test]
fn classify_uploaded_file_separates_raw_images_and_non_images() {
    for name in ["a.nef", "b.CR3", "c.dng", "d.Rw2", "e.x3f"] {
        assert_eq!(
            classify_uploaded_file(name),
            UploadedFileKind::RawImage,
            "{} must classify as RawImage",
            name
        );
    }

    for name in ["a.jpg", "b.JPEG", "c.heic", "d.hif", "e.heif"] {
        assert_eq!(
            classify_uploaded_file(name),
            UploadedFileKind::Image,
            "{} must classify as Image",
            name
        );
    }

    for name in ["a.txt", "b.mp4", "no-extension", ".jpg"] {
        assert_eq!(
            classify_uploaded_file(name),
            UploadedFileKind::Other,
            "{} must classify as Other",
            name
        );
    }
}

#[test]
fn server_info_defaults_credentials() {
    let info = ServerInfo::new("10.0.0.2".to_string(), 21, None, None);
    assert!(info.is_running);
    assert_eq!(info.username, "anonymous");
    assert_eq!(info.password_info, "(任意密码)");

    let info = ServerInfo::new(
        "10.0.0.2".to_string(),
        2121,
        Some("cam".to_string()),
        Some("(配置密码)".to_string()),
    );
    assert_eq!(info.username, "cam");
    assert_eq!(info.password_info, "(配置密码)");
}

#[test]
fn auth_config_falls_back_to_anonymous() {
    let anon = AuthConfig { anonymous: true, username: "u".to_string(), password_hash: "h".to_string() };
    assert!(matches!(FtpAuthConfig::from_auth_config(&anon), FtpAuthConfig::Anonymous));

    let blank_user = AuthConfig { anonymous: false, username: "  \t".to_string(), password_hash: "h".to_string() };
    assert!(matches!(FtpAuthConfig::from_auth_config(&blank_user), FtpAuthConfig::Anonymous));

    let no_hash = AuthConfig { anonymous: false, username: "u".to_string(), password_hash: String::new() };
    assert!(matches!(FtpAuthConfig::from_auth_config(&no_hash), FtpAuthConfig::Anonymous));

    let real = AuthConfig { anonymous: false, username: "u".to_string(), password_hash: "h".to_string() };
    match FtpAuthConfig::from_auth_config(&real) {
        FtpAuthConfig::Authenticated { username, password_hash } => {
            assert_eq!(username, "u");
            assert_eq!(password_hash, "h");
        }
        FtpAuthConfig::Anonymous => panic!("expected authenticated"),
    }
}

#[test]
fn stats_commands_accumulate() {
    let mut s = ServerStats::new();
    s.apply(StatsCommand::RecordUpload { path: "a.jpg".to_string(), bytes: 2048 });
    s.apply(StatsCommand::RecordUpload { path: "notes.txt".to_string(), bytes: 32 });
    s.apply(StatsCommand::UpdateConnectionCount { count: 3 });
    assert_eq!(s.total_uploads, 2);
    assert_eq!(s.total_bytes_received, 2048 + 32);
    assert_eq!(s.last_uploaded_file.as_deref(), Some("notes.txt"));
    assert_eq!(s.active_connections, 3);
}

#[test]
fn runtime_state_ignores_stats_while_stopped() {
    let mut st = ServerRuntimeState::new();
    st.record_stats(stats(3, 7, 1024, Some("latest.jpg")));
    let snap = st.current_snapshot();
    assert!(!snap.is_running);
    assert_eq!(snap.files_received, 0);

    st.record_server_started("0.0.0.0:2121".to_string());
    st.record_stats(stats(3, 7, 1024, Some("latest.jpg")));
    let snap = st.current_snapshot();
    assert!(snap.is_running);
    assert_eq!(snap.connected_clients, 3);
    assert_eq!(snap.files_received, 7);
    assert_eq!(snap.bytes_received, 1024);
    assert_eq!(snap.last_file.as_deref(), Some("latest.jpg"));
    let rt = st.current_runtime_snapshot();
    assert_eq!(rt.bind_addr.as_deref(), Some("0.0.0.0:2121"));

    st.record_server_stopped();
    let rt = st.current_runtime_snapshot();
    assert!(!rt.is_running);
    assert!(rt.bind_addr.is_none());
    assert!(rt.stats.is_none());
    let empty = ServerStateSnapshot::new();
    assert_eq!(st.current_snapshot().files_received, empty.files_received);
}

#[test]
fn start_slot_admits_one_start() {
    let mut slot = FtpServerSlot::Vacant;
    assert!(slot.claim_start_slot().is_ok());
    assert_eq!(slot, FtpServerSlot::Starting);
    assert_eq!(slot.claim_start_slot(), Err(AppError::ServerAlreadyRunning));

    let r: Result<&str, AppError> = slot.finish_claimed_start(Ok(("ctx", 7)));
    assert_eq!(r, Ok("ctx"));
    assert_eq!(slot, FtpServerSlot::Running(7));
    assert_eq!(slot.running_handle(), Some(7));
    assert_eq!(slot.claim_start_slot(), Err(AppError::ServerAlreadyRunning));

    assert!(!slot.clear_if_same_actor(8));
    assert_eq!(slot, FtpServerSlot::Running(7));
    assert!(slot.clear_if_same_actor(7));
    assert_eq!(slot, FtpServerSlot::Vacant);
}

#[test]
fn failed_start_releases_the_claim() {
    let mut slot = FtpServerSlot::Vacant;
    slot.claim_start_slot().unwrap();
    let r: Result<(), AppError> = slot.finish_claimed_start(Err(AppError::NoAvailablePort));
    assert_eq!(r, Err(AppError::NoAvailablePort));
    assert_eq!(slot, FtpServerSlot::Vacant);
}

#[test]
fn stats_filter_publishes_changes_only() {
    let mut f = StatsEmitFilter::new();
    let a = stats(1, 1, 10, Some("a.jpg"));
    assert!(f.should_emit(&a));
    assert!(!f.should_emit(&a));
    let b = stats(1, 2, 20, Some("b.jpg"));
    assert!(f.should_emit(&b));
    assert!(!f.should_emit(&b.copy()));
}

#[test]
fn events_route_by_type_name() {
    let e = DomainEvent::FileUploaded { path: "a.jpg".to_string(), size: 3 };
    assert_eq!(event_type_name(&e), "FileUploaded");
    assert!(should_handle(&None, &e));
    assert!(should_handle(&Some(vec!["ServerStarted", "FileUploaded"]), &e));
    assert!(!should_handle(&Some(vec!["ServerStopped"]), &e));
    assert_eq!(event_type_name(&DomainEvent::ServerStopped), "ServerStopped");
}

#[test]
fn bind_addr_is_split_with_defaults() {
    assert_eq!(parse_bind_addr("192.168.1.5:2121"), ("192.168.1.5".to_string(), 2121));
    assert_eq!(parse_bind_addr("0.0.0.0:21"), ("0.0.0.0".to_string(), 21));
    assert_eq!(parse_bind_addr("10.0.0.1:notaport"), ("10.0.0.1".to_string(), 2121));
    assert_eq!(parse_bind_addr("garbage"), ("0.0.0.0".to_string(), 2121));
}

#[test]
fn status_start_and_stop_sequences() {
    let mut s = ServerStatus::Stopped;
    assert!(s.begin_start().is_ok());
    assert_eq!(s, ServerStatus::Starting);
    s.finish_start(true);
    assert_eq!(s, ServerStatus::Running);
    assert_eq!(s.begin_start(), Err(AppError::ServerAlreadyRunning));
    assert_eq!(s, ServerStatus::Running);
    assert!(s.begin_stop().is_ok());
    assert_eq!(s, ServerStatus::Stopping);
    s.finish_stop();
    assert_eq!(s, ServerStatus::Stopped);
    assert_eq!(s.begin_stop(), Err(AppError::ServerNotRunning));

    let mut s = ServerStatus::Stopped;
    s.begin_start().unwrap();
    s.finish_start(false);
    assert_eq!(s, ServerStatus::Stopped);
}

#[test]
fn data_events_are_planned() {
    let p = plan_data_event(FtpDataEvent::Put { path: "/DCIM/a.NEF".to_string(), bytes: 10 });
    assert_eq!(p.record_upload, Some(("/DCIM/a.NEF".to_string(), 10)));
    assert_eq!(p.post_process, Some(true));
    let p = plan_data_event(FtpDataEvent::Put { path: "/DCIM/a.jpg".to_string(), bytes: 10 });
    assert_eq!(p.post_process, Some(false));
    let p = plan_data_event(FtpDataEvent::Put { path: "/DCIM/notes.txt".to_string(), bytes: 10 });
    assert_eq!(p.post_process, None);
    assert!(p.record_upload.is_some());
    let p = plan_data_event(FtpDataEvent::Deleted { path: "/DCIM/a.jpg".to_string() });
    assert_eq!(p.remove_from_index.as_deref(), Some("/DCIM/a.jpg"));
    assert!(p.refresh_media);
    let p = plan_data_event(FtpDataEvent::Deleted { path: "/DCIM/a.txt".to_string() });
    assert!(!p.refresh_media);
    let p = plan_data_event(FtpDataEvent::Got { path: "/DCIM/a.jpg".to_string(), bytes: 1 });
    assert!(p.record_upload.is_none() && p.remove_from_index.is_none() && !p.refresh_media);
}

#[test]
fn put_pipeline_skips_hooks_for_unready_files() {
    let s = put_pipeline_steps(false, true, true);
    assert!(s.index && s.delayed_reindex && !s.ai_edit && !s.color_grade && !s.auto_open);
    let s = put_pipeline_steps(true, true, false);
    assert!(s.index && !s.delayed_reindex && s.ai_edit && s.color_grade && !s.auto_open);
    let s = put_pipeline_steps(true, false, true);
    assert!(!s.color_grade && s.auto_open);
}

#[test]
fn port_and_auth_selection() {
    let mut c = AppConfig::default_with_save_path("/p".to_string());
    c.port = 3000;
    assert_eq!(requested_port(&c, DEFAULT_FTP_PORT_WINDOWS), 21);
    assert!(matches!(server_auth(&c), FtpAuthConfig::Anonymous));
    c.advanced_connection.enabled = true;
    c.advanced_connection.auth.anonymous = false;
    c.advanced_connection.auth.username = "cam".to_string();
    c.advanced_connection.auth.password_hash = "$argon2id$x".to_string();
    assert_eq!(requested_port(&c, DEFAULT_FTP_PORT_WINDOWS), 3000);
    assert!(matches!(server_auth(&c), FtpAuthConfig::Authenticated { .. }));

    assert_eq!(choose_port(21, true, false, None), Ok(21));
    assert_eq!(choose_port(21, false, true, Some(1025)), Ok(1025));
    assert_eq!(choose_port(21, false, true, None), Err(AppError::NoAvailablePort));
    assert_eq!(choose_port(21, false, false, Some(1025)), Err(AppError::NoAvailablePort));
    assert_eq!(require_ip(None), Err(AppError::NoNetworkInterface));
    assert_eq!(require_ip(Some("10.0.0.2".to_string())), Ok("10.0.0.2".to_string()));
}

#[test]
fn snapshot_uses_sessions_and_status() {
    let st = stats(9, 4, 400, Some("x.jpg"));
    let snap = snapshot_for(ServerStatus::Running, &st, 2);
    assert!(snap.is_running);
    assert_eq!(snap.connected_clients, 2);
    assert_eq!(snap.files_received, 4);
    let snap = snapshot_for(ServerStatus::Stopping, &st, 0);
    assert!(!snap.is_running);
}

fn save_path_guard(current: &str, incoming: &str, slot: FtpServerSlot) -> Result<bool, AppError> {
    if !save_path_change_needs_slot(current, incoming) {
        return Ok(false);
    }
    slot.allows_save_path_change().map(|()| true)
}

#[test]
fn save_path_guard_rejects_change_while_slot_starting_or_running() {
    for slot in [FtpServerSlot::Starting, FtpServerSlot::Running(1)] {
        let err = save_path_guard("D:/photos/old-root", "D:/photos/new-root", slot)
            .expect_err("must reject save_path change while the server is active");
        assert!(err.message().to_lowercase().contains("save path"), "error should mention the save path, got: {}", err.message());
    }
}

#[test]
fn save_path_guard_allows_change_when_slot_none() {
    let held = save_path_guard("D:/photos/old-root", "D:/photos/new-root", FtpServerSlot::Vacant)
        .expect("save_path change must be allowed while server stopped");
    assert!(held, "the slot is held until the change is persisted");
}

#[test]
fn save_path_guard_allows_save_when_save_path_unchanged_even_while_active() {
    let held = save_path_guard("D:/photos/root", "D:/photos/root", FtpServerSlot::Starting)
        .expect("saves that keep save_path must pass even while server active");
    assert!(!held, "an unchanged save path never touches the slot");
}

#[test]
fn test_event_bus_incremental_update() {
    let mut filter = StatsEmitFilter::new();
    let stats1 = ServerStats {
        active_connections: 1,
        total_uploads: 10,
        total_bytes_received: 1000,
        last_uploaded_file: Some("test.jpg".to_string()),
    };
    assert!(filter.should_emit(&stats1), "the first update is published");
    assert!(!filter.should_emit(&stats1.copy()), "the same statistics are not published again");
    let stats2 = ServerStats {
        active_connections: 2,
        total_uploads: 11,
        total_bytes_received: 1500,
        last_uploaded_file: Some("test2.jpg".to_string()),
    };
    assert!(filter.should_emit(&stats2), "different statistics are published");
}

#[test]
fn runtime_view_without_server_is_default() {
    let view = server_runtime_view(None, Some(ServerInfo::new("192.168.1.8".to_string(), 2121, None, None)));
    assert!(view.server_info.is_none());
    assert!(!view.stats.is_running);
    assert_eq!(view.stats.connected_clients, 0);
    assert_eq!(view.stats.files_received, 0);
    assert!(view.stats.last_file.is_none());
}

#[test]
fn runtime_view_shows_details_only_while_running() {
    let mut running = ServerStateSnapshot::new();
    running.is_running = true;
    running.connected_clients = 2;
    let info = ServerInfo::new("192.168.1.8".to_string(), 2121, None, None);
    let view = server_runtime_view(Some(running), Some(info));
    assert_eq!(view.stats.connected_clients, 2);
    assert_eq!(view.server_info.expect("details while running").url, "ftp://192.168.1.8:2121");

    let stopped = ServerStateSnapshot::new();
    let info = ServerInfo::new("192.168.1.8".to_string(), 2121, None, None);
    let view = server_runtime_view(Some(stopped), Some(info));
    assert!(view.server_info.is_none());
}

#[test]
fn record_upload_accumulates_files_bytes_and_last_file() {
    let mut stats = ServerStats::new();
    stats.apply(StatsCommand::RecordUpload { path: "a.jpg".to_string(), bytes: 1024 });
    stats.apply(StatsCommand::RecordUpload { path: "b.nef".to_string(), bytes: 2048 });
    assert_eq!(stats.total_uploads, 2);
    assert_eq!(stats.total_bytes_received, 1024 + 2048);
    assert_eq!(stats.last_uploaded_file.as_deref(), Some("b.nef"));
    assert_eq!(stats.active_connections, 0, "uploads must not touch connection count");
}

#[test]
fn update_connection_count_overwrites_previous_value() {
    let mut stats = ServerStats::new();
    stats.apply(StatsCommand::UpdateConnectionCount { count: 3 });
    assert_eq!(stats.active_connections, 3);
    assert_eq!(stats.total_uploads, 0, "connection updates must not touch upload counters");
    stats.apply(StatsCommand::UpdateConnectionCount { count: 0 });
    assert_eq!(stats.active_connections, 0);
}
