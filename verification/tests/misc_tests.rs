use cameraftp::platform::{tray_state_for_clients, TrayIconState};
use cameraftp::ai_edit::{prepare_for_upload, select_prompt, should_auto_edit, upload_route, UploadRoute};
use cameraftp::error::AppError;
use cameraftp::mediastore::normalize_relative_path_for_match;
use cameraftp::platform::{
    android_server_start_check, android_storage_access, check_server_start_prerequisites,
    permission_status_from_access, PermissionStatus, StorageInfo,
};

#[test]
fn test_normalize_relative_path_for_match() {
    assert_eq!(normalize_relative_path_for_match(""), "");
    assert_eq!(normalize_relative_path_for_match("DCIM/CameraFTP"), "DCIM/CameraFTP/");
    assert_eq!(normalize_relative_path_for_match("DCIM/CameraFTP/"), "DCIM/CameraFTP/");
    assert_eq!(normalize_relative_path_for_match("/DCIM/CameraFTP//"), "DCIM/CameraFTP/");
    assert_eq!(normalize_relative_path_for_match("///"), "");
}

#[test]
fn prompt_selection_prefers_override_over_config() {
    let config_prompt = "config-prompt";
    assert_eq!(select_prompt(Some("override"), config_prompt), Some("override"));
    assert_eq!(select_prompt(None, config_prompt), Some("config-prompt"));
    assert_eq!(select_prompt(None, ""), None);
}

#[test]
fn auto_edit_needs_a_non_blank_prompt() {
    assert!(should_auto_edit(true, "make it warmer"));
    assert!(!should_auto_edit(true, "   "));
    assert!(!should_auto_edit(false, "make it warmer"));
}

#[test]
fn heic_is_sent_as_is_and_others_reencoded() {
    assert_eq!(upload_route("a.HEIC"), UploadRoute::HeicAsIs);
    assert_eq!(upload_route("a.heif"), UploadRoute::HeicAsIs);
    assert_eq!(upload_route("a.hif"), UploadRoute::HeicAsIs);
    assert_eq!(upload_route("a.jpg"), UploadRoute::ReencodeJpeg);
    assert_eq!(upload_route("noext"), UploadRoute::ReencodeJpeg);

    let p = prepare_for_upload("a.heic", |route| {
        assert_eq!(route, UploadRoute::HeicAsIs);
        Ok(b"Man".to_vec())
    })
    .unwrap();
    assert_eq!(p.base64_data, "TWFu");
    assert_eq!(p.mime_type, "image/heic");

    let p = prepare_for_upload("a.png", |_| Ok(vec![0xFF, 0xD8])).unwrap();
    assert_eq!(p.base64_data, "/9g=");
    assert_eq!(p.mime_type, "image/jpeg");

    let e = prepare_for_upload("a.png", |_| Err(AppError::AiEditError("open".to_string())));
    assert!(matches!(e, Err(AppError::AiEditError(_))));
}

fn storage(exists: bool, writable: bool, access: bool) -> StorageInfo {
    StorageInfo {
        display_name: "DCIM/CameraFTP".to_string(),
        path: "/storage/emulated/0/DCIM/CameraFTP".to_string(),
        exists,
        writable,
        has_all_files_access: access,
    }
}

#[test]
fn start_check_requires_writable_storage() {
    let granted = PermissionStatus { has_all_files_access: true, needs_user_action: false };
    let denied = permission_status_from_access(false);
    assert!(denied.needs_user_action);

    let r = check_server_start_prerequisites(storage(true, true, true), denied);
    assert!(r.can_start && r.reason.is_none());

    let r = check_server_start_prerequisites(storage(false, false, true), granted);
    assert!(r.can_start);

    let r = check_server_start_prerequisites(storage(true, false, false), denied);
    assert!(!r.can_start);
    assert!(r.reason.unwrap().contains("所有文件访问权限"));

    let r = check_server_start_prerequisites(storage(true, false, true), granted);
    assert!(!r.can_start);
    assert_eq!(r.reason.as_deref(), Some("存储路径不可写，请检查权限设置"));
    assert!(r.storage_info.is_some());

    assert!(android_server_start_check(storage(false, false, false)).can_start);
    assert_eq!(android_storage_access(false, true, true), (false, false));
    assert_eq!(android_storage_access(true, false, true), (false, true));
    assert_eq!(android_storage_access(true, true, false), (true, true));
}

#[test]
fn tray_icon_follows_connected_clients() {
    assert_eq!(tray_state_for_clients(0), TrayIconState::Idle);
    assert_eq!(tray_state_for_clients(1), TrayIconState::Active);
    assert_eq!(tray_state_for_clients(7), TrayIconState::Active);
}

#[test]
fn prepared_image_is_standard_padded_base64() {
    use_prepared("", "");
    use_prepared("f", "Zg==");
    use_prepared("fo", "Zm8=");
    use_prepared("foo", "Zm9v");
    use_prepared("foobar", "Zm9vYmFy");
    use_prepared("\u{ff}\u{fe}", "w7/Dvg==");
}

fn use_prepared(input: &str, expected: &str) {
    let p = cameraftp::ai_edit::prepared_from_bytes(UploadRoute::ReencodeJpeg, input.as_bytes());
    assert_eq!(p.base64_data, expected);
    assert_eq!(p.mime_type, "image/jpeg");
}

#[test]
fn blank_matches_char_is_whitespace_for_every_char() {
    for u in 0u32..=0x10FFFF {
        if let Some(c) = char::from_u32(u) {
            assert_eq!(cameraftp::ftp::blank(&c.to_string()), c.is_whitespace(), "U+{:04X}", u);
        }
    }
}
