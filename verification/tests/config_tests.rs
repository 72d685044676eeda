use cameraftp::config::{
    merge_backend_owned_fields, AppConfig, ConfigFileState, ConfigService, ImageOpenMethod, LoadPlan,
    PreviewWindowConfig, PreviewWindowConfigPatch, DEFAULT_FTP_PORT,
};
use cameraftp::error::AppError;

fn defaults() -> AppConfig {
    AppConfig::default_with_save_path("/photos".to_string())
}

/// Loads as the store does: plan from the file's state, write only when the
/// plan says so, then commit.
fn load_with<F: FnMut(&AppConfig) -> Result<(), AppError>>(
    service: &mut ConfigService,
    state: ConfigFileState,
    corrupt_file_removed: bool,
    mut persist: F,
) -> Result<AppConfig, AppError> {
    let plan = LoadPlan::for_state(state, defaults());
    let written = if plan.writes_back(corrupt_file_removed) { persist(&plan.config) } else { Ok(()) };
    service.load(plan, written)
}

#[test]
fn helper_merge_backend_owned_fields_preserves_preview_config() {
    let current = AppConfig {
        preview_config: Some(PreviewWindowConfig {
            enabled: true,
            method: ImageOpenMethod::WindowsPhotos,
            custom_path: Some("C:/Program Files/Photos/photos.exe".to_string()),
            auto_bring_to_front: true,
        }),
        ..defaults()
    };
    let incoming = AppConfig {
        preview_config: Some(PreviewWindowConfig::default_config()),
        ..defaults()
    };

    let merged = merge_backend_owned_fields(incoming, &current);
    let preview = merged.preview_config.expect("preview should still be present");
    assert!(matches!(preview.method, ImageOpenMethod::WindowsPhotos));
    assert!(preview.auto_bring_to_front);
}

#[test]
fn helper_preview_patch_updates_only_requested_fields() {
    let current = PreviewWindowConfig {
        enabled: true,
        method: ImageOpenMethod::BuiltInPreview,
        custom_path: Some("viewer.exe".to_string()),
        auto_bring_to_front: false,
    };
    let patch = PreviewWindowConfigPatch {
        enabled: None,
        method: Some(ImageOpenMethod::SystemDefault),
        custom_path: None,
        auto_bring_to_front: Some(true),
    };

    let merged = patch.apply_to(current);
    assert!(matches!(merged.method, ImageOpenMethod::SystemDefault));
    assert_eq!(merged.custom_path, Some("viewer.exe".to_string()));
    assert!(merged.auto_bring_to_front);
}

#[test]
fn patch_can_clear_custom_path() {
    let current = PreviewWindowConfig::default_config();
    let patch = PreviewWindowConfigPatch {
        enabled: Some(false),
        method: None,
        custom_path: Some(None),
        auto_bring_to_front: None,
    };
    let merged = patch.apply_to(PreviewWindowConfig { custom_path: Some("x.exe".to_string()), ..current });
    assert!(!merged.enabled);
    assert_eq!(merged.custom_path, None);
    assert!(matches!(merged.method, ImageOpenMethod::BuiltInPreview));
}

#[test]
fn defaults_use_port_2121_and_anonymous_access() {
    let c = defaults();
    assert_eq!(c.port, 2121);
    assert_eq!(DEFAULT_FTP_PORT, 2121);
    assert!(c.auto_select_port);
    assert!(!c.advanced_connection.enabled);
    assert!(c.advanced_connection.auth.anonymous);
    assert_eq!(c.save_path, "/photos");
}

#[test]
fn load_plan_follows_the_file_state() {
    let mut parsed = defaults();
    parsed.port = 4242;
    let p = LoadPlan::for_state(ConfigFileState::Parsed(parsed), defaults());
    assert_eq!(p.config.port, 4242);
    assert!(!p.remove_corrupt_file && !p.write_back);

    let p = LoadPlan::for_state(ConfigFileState::Corrupt, defaults());
    assert_eq!(p.config.port, 2121);
    assert!(p.remove_corrupt_file && p.write_back);

    let p = LoadPlan::for_state(ConfigFileState::Missing, defaults());
    assert!(!p.remove_corrupt_file && p.write_back);

    let p = LoadPlan::for_state(ConfigFileState::Unreadable, defaults());
    assert_eq!(p.config.port, 2121);
    assert!(!p.remove_corrupt_file && !p.write_back);
}

#[test]
fn load_reads_existing_config_file() {
    let mut expected = defaults();
    expected.port = 4242;
    let mut service = ConfigService::new_with_path("/tmp/config.json".to_string(), defaults());
    let mut writes = 0;
    let loaded = load_with(&mut service, ConfigFileState::Parsed(expected), false, |_c: &AppConfig| {
            writes += 1;
            Ok(())
        })
        .expect("failed to load config");
    assert_eq!(loaded.port, 4242);
    assert_eq!(service.get().expect("failed to get config").port, 4242);
    assert_eq!(writes, 0);
}

#[test]
fn corrupt_config_falls_back_to_defaults_and_is_rewritten() {
    let mut service = ConfigService::new_with_path("/tmp/config.json".to_string(), defaults());
    let mut written: Vec<u16> = Vec::new();
    let loaded = load_with(&mut service, ConfigFileState::Corrupt, true, |c: &AppConfig| {
            written.push(c.port);
            Ok(())
        })
        .unwrap();
    assert_eq!(loaded.port, 2121);
    assert_eq!(written, vec![2121]);
}

#[test]
fn mutate_and_persist_updates_memory_only_after_write() {
    let mut service = ConfigService::new_with_path("/tmp/config.json".to_string(), defaults());
    let r = service.mutate_and_persist(
        |mut c: AppConfig| {
            c.port = 7070;
            (c, "done")
        },
        |c: AppConfig| Ok(c),
        |c: &AppConfig| {
            assert_eq!(c.port, 7070);
            Ok(())
        },
    );
    assert_eq!(r, Ok("done"));
    assert_eq!(service.get_or_default().port, 7070);

    let r: Result<(), AppError> = service.mutate_and_persist(
        |mut c: AppConfig| {
            c.port = 9999;
            (c, ())
        },
        |c: AppConfig| Ok(c),
        |_c: &AppConfig| Err(AppError::Io("disk full".to_string())),
    );
    assert_eq!(r, Err(AppError::Io("disk full".to_string())));
    assert_eq!(service.get_or_default().port, 7070);
    assert_eq!(service.config_path(), "/tmp/config.json");
}

#[test]
fn get_or_default_reads_service_state() {
    let mut service = ConfigService::new_with_path("/tmp/config.json".to_string(), defaults());
    load_with(&mut service, ConfigFileState::Missing, false, |_c: &AppConfig| Ok(())).expect("failed to load config");
    service
        .mutate_and_persist(
            |mut c: AppConfig| {
                c.port = 3777;
                (c, ())
            },
            |c: AppConfig| Ok(c),
            |_c: &AppConfig| Ok(()),
        )
        .expect("failed to update config");
    let loaded = service.get_or_default();
    assert_eq!(loaded.port, 3777);
}

#[test]
fn mutate_and_persist_refuses_invalid_config_without_writing() {
    let mut service = ConfigService::new_with_path("/tmp/config.json".to_string(), defaults());
    let before = service.get_or_default().port;
    let mut writes = 0;
    let r: Result<(), AppError> = service.mutate_and_persist(
        |mut c: AppConfig| {
            c.port = 0;
            (c, ())
        },
        |c: AppConfig| if c.port == 0 { Err("port must not be 0".to_string()) } else { Ok(c) },
        |_c: &AppConfig| {
            writes += 1;
            Ok(())
        },
    );
    assert_eq!(r, Err(AppError::Other("Invalid configuration: port must not be 0".to_string())));
    assert_eq!(writes, 0);
    assert_eq!(service.get_or_default().port, before);
}

#[test]
fn mutate_and_persist_keeps_the_prepared_config() {
    let mut service = ConfigService::new_with_path("/tmp/config.json".to_string(), defaults());
    let r = service.mutate_and_persist(
        |mut c: AppConfig| {
            c.port = 8080;
            (c, 1u8)
        },
        |mut c: AppConfig| {
            c.port = 2121;
            Ok(c)
        },
        |_c: &AppConfig| Ok(()),
    );
    assert_eq!(r, Ok(1));
    assert_eq!(service.get_or_default().port, 2121);
}

#[test]
fn corrupt_config_that_cannot_be_removed_is_not_overwritten() {
    let mut service = ConfigService::new_with_path("/tmp/config.json".to_string(), defaults());
    let mut written = 0;
    let loaded = load_with(&mut service, ConfigFileState::Corrupt, false, |_c: &AppConfig| {
            written += 1;
            Ok(())
        })
        .unwrap();
    assert_eq!(loaded.port, 2121);
    assert_eq!(written, 0);
}

#[test]
fn load_preserves_file_when_read_fails() {
    let mut service = ConfigService::new_with_path("/tmp/config.json".to_string(), defaults());
    let mut written = 0;
    let loaded = load_with(&mut service, ConfigFileState::Unreadable, false, |_c: &AppConfig| {
            written += 1;
            Ok(())
        })
        .unwrap();
    assert_eq!(loaded.port, 2121);
    assert_eq!(written, 0);
    assert_eq!(service.get_or_default().port, 2121);
}

#[test]
fn load_plan_writes_only_where_no_file_is_left() {
    let missing = LoadPlan::for_state(ConfigFileState::Missing, defaults());
    assert!(missing.writes_back(false));
    let corrupt = LoadPlan::for_state(ConfigFileState::Corrupt, defaults());
    assert!(corrupt.writes_back(true));
    assert!(!corrupt.writes_back(false));
    let unreadable = LoadPlan::for_state(ConfigFileState::Unreadable, defaults());
    assert!(!unreadable.writes_back(true));
    assert!(!unreadable.remove_corrupt_file);
    let mut parsed_config = defaults();
    parsed_config.port = 4242;
    let parsed = LoadPlan::for_state(ConfigFileState::Parsed(parsed_config), defaults());
    assert!(!parsed.writes_back(true));
}

#[test]
fn failed_write_back_keeps_memory_and_returns_the_error() {
    let mut start = defaults();
    start.port = 5555;
    let mut service = ConfigService::new_with_path("/tmp/config.json".to_string(), start);
    let plan = LoadPlan::for_state(ConfigFileState::Missing, defaults());
    let r = service.load(plan, Err(AppError::Io("disk full".to_string())));
    assert_eq!(r.err(), Some(AppError::Io("disk full".to_string())));
    assert_eq!(service.get_or_default().port, 5555);
}
