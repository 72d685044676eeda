use cameraftp::color_grading::{
    classify_nn_failure, decompress_nn_model, nn_enabled_after_failure, nn_enabled_default,
    nn_soc_config, pick_unique_output_name, ra_result_from_code, should_auto_color_grade,
    sm_to_qnn_htp_arch, sm_to_qnn_soc_model, FallbackDecision, RaResult,
};
use cameraftp::config::AutoColorGradingConfig;
use cameraftp::error::AppError;
use cameraftp::color_grading::PreviewSlot;
use cameraftp::color_grading::{percent_encode, preview_url};

const ALL: [RaResult; 13] = [
    RaResult::Success,
    RaResult::ErrUnknown,
    RaResult::ErrFileNotFound,
    RaResult::ErrDecodeFailed,
    RaResult::ErrInvalidParam,
    RaResult::ErrLogUnsupported,
    RaResult::ErrLutLoadFailed,
    RaResult::ErrWriteFailed,
    RaResult::ErrNoLensProfile,
    RaResult::ErrOutOfMemory,
    RaResult::ErrNnNotInitialized,
    RaResult::ErrNnNanOutput,
    RaResult::ErrNnInferenceFailed,
];

#[test]
fn ra_result_is_ok_only_for_ok_variant() {
    assert!(RaResult::Success.is_ok());

    assert!(!RaResult::ErrUnknown.is_ok());
    assert!(!RaResult::ErrFileNotFound.is_ok());
    assert!(!RaResult::ErrDecodeFailed.is_ok());
    assert!(!RaResult::ErrInvalidParam.is_ok());
    assert!(!RaResult::ErrLogUnsupported.is_ok());
    assert!(!RaResult::ErrLutLoadFailed.is_ok());
    assert!(!RaResult::ErrWriteFailed.is_ok());
    assert!(!RaResult::ErrNoLensProfile.is_ok());
    assert!(!RaResult::ErrOutOfMemory.is_ok());
    assert!(!RaResult::ErrNnNotInitialized.is_ok());
    assert!(!RaResult::ErrNnNanOutput.is_ok());
    assert!(!RaResult::ErrNnInferenceFailed.is_ok());
}

#[test]
fn ra_result_description_returns_non_empty() {
    let descriptions: Vec<&str> = ALL.iter().map(|v| v.description()).collect();

    for desc in &descriptions {
        assert!(!desc.is_empty(), "Description should not be empty");
    }

    for i in 0..descriptions.len() {
        for j in (i + 1)..descriptions.len() {
            assert_ne!(
                descriptions[i], descriptions[j],
                "Descriptions for {:?} and {:?} should differ",
                ALL[i], ALL[j]
            );
        }
    }
}

#[test]
fn ra_result_repr_values() {
    assert_eq!(RaResult::Success.code(), 0);
    assert_eq!(RaResult::ErrUnknown.code(), -1);
    assert_eq!(RaResult::ErrFileNotFound.code(), -2);
    assert_eq!(RaResult::ErrDecodeFailed.code(), -3);
    assert_eq!(RaResult::ErrInvalidParam.code(), -4);
    assert_eq!(RaResult::ErrLogUnsupported.code(), -5);
    assert_eq!(RaResult::ErrLutLoadFailed.code(), -6);
    assert_eq!(RaResult::ErrWriteFailed.code(), -7);
    assert_eq!(RaResult::ErrNoLensProfile.code(), -8);
    assert_eq!(RaResult::ErrOutOfMemory.code(), -9);
    assert_eq!(RaResult::ErrNnNotInitialized.code(), -10);
    assert_eq!(RaResult::ErrNnNanOutput.code(), -11);
    assert_eq!(RaResult::ErrNnInferenceFailed.code(), -12);
}

#[test]
fn ra_result_from_code_maps_all_known_values() {
    for r in ALL {
        assert_eq!(ra_result_from_code(r.code()), r);
    }
}

#[test]
fn ra_result_from_code_unknown_value_falls_back() {
    assert_eq!(ra_result_from_code(-99), RaResult::ErrUnknown);
    assert_eq!(ra_result_from_code(42), RaResult::ErrUnknown);
}

#[test]
fn first_write_name_is_unchanged() {
    let name = pick_unique_output_name("IMG_001", "fujifilm-provia", "20260818_120000", |_| false).unwrap();
    assert_eq!(name, "IMG_001_fujifilm-provia_20260818_120000.jpg");
}

#[test]
fn collision_produces_suffixed_name() {
    let taken: Vec<&str> = vec![
        "IMG_001_fujifilm-provia_20260818_120000.jpg",
        "IMG_001_fujifilm-provia_20260818_120000_1.jpg",
    ];
    let name = pick_unique_output_name("IMG_001", "fujifilm-provia", "20260818_120000", |n| {
        taken.contains(&n)
    })
    .unwrap();
    assert_eq!(name, "IMG_001_fujifilm-provia_20260818_120000_2.jpg");
}

#[test]
fn exhaustion_errors() {
    let result = pick_unique_output_name("IMG_001", "fujifilm-provia", "20260818_120000", |_| true);
    let err = result.unwrap_err().message();
    assert!(err.contains("too many file name collisions"), "unexpected error: {}", err);
}

#[test]
fn last_suffix_is_ninety_nine() {
    let name = pick_unique_output_name("a", "p", "t", |n| !n.ends_with("_99.jpg")).unwrap();
    assert_eq!(name, "a_p_t_99.jpg");
    match pick_unique_output_name("a", "p", "t", |_| true) {
        Err(AppError::ColorGradingError(m)) => {
            assert_eq!(m, "Failed to generate output file name: too many file name collisions")
        }
        other => panic!("unexpected {:?}", other),
    }
}

fn cg(enabled: bool, preset: &str) -> AutoColorGradingConfig {
    AutoColorGradingConfig {
        enabled,
        preset_id: preset.to_string(),
        metering_mode: "matrix".to_string(),
        ev_offset_bits: 0,
    }
}

fn enabled_cg() -> AutoColorGradingConfig {
    let mut c = AutoColorGradingConfig::default_config();
    c.enabled = true;
    c
}

#[test]
fn should_auto_color_grade_enabled_raw_file() {
    assert!(should_auto_color_grade(Some(&enabled_cg()), "photo.nef"));
    assert!(should_auto_color_grade(Some(&enabled_cg()), "photo.CR3"));
}

#[test]
fn should_auto_color_grade_disabled_even_for_raw() {
    let disabled = AutoColorGradingConfig { enabled: false, ..AutoColorGradingConfig::default_config() };
    assert!(!should_auto_color_grade(Some(&disabled), "photo.nef"));
}

#[test]
fn should_auto_color_grade_non_raw_even_if_enabled() {
    assert!(!should_auto_color_grade(Some(&enabled_cg()), "photo.jpg"));
    assert!(!should_auto_color_grade(Some(&enabled_cg()), "photo.mp4"));
}

#[test]
fn should_auto_color_grade_requires_nonempty_preset() {
    let empty_preset = AutoColorGradingConfig {
        enabled: true,
        preset_id: String::new(),
        ..AutoColorGradingConfig::default_config()
    };
    assert!(!should_auto_color_grade(Some(&empty_preset), "photo.nef"));
    assert!(should_auto_color_grade(Some(&cg(true, "velvia")), "x.dng"));
}

#[test]
fn should_auto_color_grade_returns_false_when_no_config() {
    assert!(!should_auto_color_grade(None, "photo.nef"));
}

#[test]
fn fallback_latches_only_when_nn_structurally_unavailable() {
    let d = classify_nn_failure(true);
    assert!(matches!(d, FallbackDecision::UseClassicalNoLatch));
    let d = classify_nn_failure(false);
    assert!(matches!(d, FallbackDecision::UseClassicalAndLatch));
}

#[test]
fn nn_gate_latches_off_only_on_structural_failure() {
    assert!(nn_enabled_default());
    assert!(nn_enabled_after_failure(true, FallbackDecision::UseClassicalNoLatch));
    assert!(!nn_enabled_after_failure(true, FallbackDecision::UseClassicalAndLatch));
    assert!(!nn_enabled_after_failure(false, FallbackDecision::UseClassicalNoLatch));
}

#[test]
fn soc_models_map_to_qnn_options() {
    assert_eq!(sm_to_qnn_soc_model("SM8550"), "43");
    assert_eq!(sm_to_qnn_soc_model("SM8650"), "57");
    assert_eq!(sm_to_qnn_soc_model("SM8750"), "69");
    assert_eq!(sm_to_qnn_soc_model("SM8845"), "97");
    assert_eq!(sm_to_qnn_soc_model("SM8850"), "87");
    assert_eq!(sm_to_qnn_soc_model("SM7325"), "0");
    assert_eq!(sm_to_qnn_htp_arch("SM8550"), "73");
    assert_eq!(sm_to_qnn_htp_arch("SM8845"), "81");
    assert_eq!(sm_to_qnn_htp_arch("SM8850"), "81");
    assert_eq!(sm_to_qnn_htp_arch("SM7325"), "");
    let c = nn_soc_config(Some("SM8650")).unwrap();
    assert_eq!((c.soc_model, c.htp_arch), ("57", "75"));
    assert!(nn_soc_config(None).is_none());
}

#[test]
fn nn_model_payloads_decode_or_fall_back() {
    // gzip of the bytes "onnx"
    let gz: [u8; 24] = [
        0x1f, 0x8b, 0x08, 0x00, 0x00, 0x00, 0x00, 0x00, 0x00, 0x03, 0xcb, 0xcf, 0xcb, 0xab, 0x00,
        0x00, 0x44, 0x61, 0xe8, 0xa5, 0x04, 0x00, 0x00, 0x00,
    ];
    assert_eq!(decompress_nn_model(&gz), Some(b"onnx".to_vec()));
    // gzip of nothing: an empty placeholder
    let empty: [u8; 20] = [
        0x1f, 0x8b, 0x08, 0x00, 0x00, 0x00, 0x00, 0x00, 0x00, 0x03, 0x03, 0x00, 0x00, 0x00, 0x00,
        0x00, 0x00, 0x00, 0x00, 0x00,
    ];
    assert_eq!(decompress_nn_model(&empty), None);
    assert_eq!(decompress_nn_model(b"not gzip"), None);
}

#[test]
fn preview_urls_are_percent_encoded() {
    assert_eq!(percent_encode("C:\\Temp/preview_1.jpg"), "C:\\Temp/preview_1.jpg");
    assert_eq!(percent_encode("a b"), "a%20b");
    assert_eq!(percent_encode("照"), "%E7%85%A7");
    assert_eq!(preview_url("/tmp/p q.jpg"), "http://image-preview.localhost//tmp/p%20q.jpg");
}

#[test]
fn preview_slot_tracks_one_session() {
    let mut slot = PreviewSlot::new();
    match slot.apply(true) {
        Err(AppError::ColorGradingError(m)) => assert_eq!(m, "No active preview session"),
        other => panic!("unexpected {:?}", other),
    }
    assert_eq!(PreviewSlot::preview_file_name(42), "preview_42.jpg");
    assert!(slot.begin(7, "a.nef".to_string(), "/tmp/preview_7.jpg".to_string()).is_none());
    let a = slot.apply(true).unwrap();
    assert_eq!(a.handle, 7);
    assert!(!a.toggle_lens_correction);
    let a = slot.apply(false).unwrap();
    assert!(a.toggle_lens_correction);
    let old = slot.begin(8, "b.nef".to_string(), "/tmp/preview_8.jpg".to_string()).unwrap();
    assert_eq!(old.handle, 7);
    assert!(!old.lens_correction);
    assert_eq!(slot.end().unwrap().handle, 8);
    assert!(slot.end().is_none());
}
