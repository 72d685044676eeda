use cameraftp::error::{AppError, IoErrorClass, Language, LogLevel};

#[test]
fn test_error_code() {
    assert_eq!(AppError::ServerAlreadyRunning.code(), "SERVER_ALREADY_RUNNING");
    assert_eq!(AppError::NoAvailablePort.code(), "NO_AVAILABLE_PORT");
}

#[test]
fn test_user_message() {
    let err = AppError::ServerAlreadyRunning;
    let cn_msg = err.user_message(Language::Chinese);
    let en_msg = err.user_message(Language::English);

    assert!(cn_msg.contains("运行"));
    assert!(en_msg.contains("running"));
}

#[test]
fn test_should_retry() {
    let err = AppError::NoAvailablePort;
    assert!(err.should_retry(0));
    assert!(err.should_retry(1));
    assert!(err.should_retry(2));
    assert!(!err.should_retry(3));

    let err = AppError::ServerAlreadyRunning;
    assert!(!err.should_retry(0));
}

#[test]
fn test_is_critical() {
    assert!(AppError::PermissionError("test".to_string()).is_critical());
    assert!(!AppError::NoAvailablePort.is_critical());
}

#[test]
fn test_io_error_conversion() {
    let app_err = AppError::from_io_parts(IoErrorClass::PermissionDenied, "access denied".to_string());
    assert!(matches!(app_err, AppError::PermissionError(_)));
}

#[test]
fn io_error_classes_map_to_their_variants() {
    assert_eq!(
        AppError::from_io_parts(IoErrorClass::NotFound, "a.jpg".to_string()),
        AppError::Io("File not found: a.jpg".to_string())
    );
    assert_eq!(
        AppError::from_io_parts(IoErrorClass::AlreadyExists, "a.jpg".to_string()),
        AppError::Io("File already exists: a.jpg".to_string())
    );
    assert_eq!(
        AppError::from_io_parts(IoErrorClass::AddrInUse, "0.0.0.0:21".to_string()),
        AppError::NetworkError("Address in use: 0.0.0.0:21".to_string())
    );
    assert_eq!(
        AppError::from_io_parts(IoErrorClass::Other, "boom".to_string()),
        AppError::Io("boom".to_string())
    );
}

#[test]
fn retry_delay_doubles_per_attempt() {
    let err = AppError::NoAvailablePort;
    let d0 = err.retry_delay_ms(0);
    let d1 = err.retry_delay_ms(1);
    let d2 = err.retry_delay_ms(2);
    assert_eq!(d1, d0 * 2);
    assert_eq!(d2, d1 * 2);
}

#[test]
fn log_record_carries_code_and_level() {
    let rec = AppError::PermissionError("denied".to_string()).log("start");
    assert_eq!(rec.level, LogLevel::Error);
    assert_eq!(rec.context, "start");
    assert_eq!(rec.code, "PERMISSION_ERROR");
    assert!(rec.is_critical);

    let rec = AppError::NoAvailablePort.log("bind");
    assert_eq!(rec.level, LogLevel::Warn);
    assert!(!rec.is_critical);

    let (e, rec) = AppError::ServerNotRunning.logged();
    assert_eq!(e, AppError::ServerNotRunning);
    assert_eq!(rec.code, e.code());
}

#[test]
fn color_grading_and_ai_edit_errors_have_codes() {
    assert_eq!(AppError::ColorGradingError("x".to_string()).code(), "COLOR_GRADING_ERROR");
    assert_eq!(AppError::AiEditError("x".to_string()).code(), "AI_EDIT_ERROR");
    assert_eq!(
        AppError::AiEditError("boom".to_string()).user_message(Language::English),
        "AI edit error: boom"
    );
}
