//! The application's unified error type, its codes, user-facing messages and
//! the retry policy attached to each kind of failure.
use vstd::prelude::*;

verus! {

/// Unified application error.
#[derive(Debug, Clone, PartialEq, Eq)]
pub enum AppError {
    ServerAlreadyRunning,
    ServerNotRunning,
    NoAvailablePort,
    NoNetworkInterface,
    ConfigError(String),
    FtpServerError(String),
    Io(String),
    Serialization(String),
    NetworkError(String),
    PermissionError(String),
    ColorGradingError(String),
    AiEditError(String),
    Other(String),
}

/// Language of a user-facing message.
#[derive(Debug, Clone, Copy, PartialEq, Eq)]
pub enum Language {
    Chinese,
    English,
}

impl Language {
    /// The default language (Chinese).
    pub fn default_language() -> (r: Language)
        ensures
            r == Language::Chinese,
    {
        Language::Chinese
    }
}

/// Classification of an I/O failure, as far as the error type cares.
#[derive(Debug, Clone, Copy, PartialEq, Eq)]
pub enum IoErrorClass {
    PermissionDenied,
    NotFound,
    AlreadyExists,
    AddrInUse,
    Other,
}

/// Severity with which an error is logged.
#[derive(Debug, Clone, Copy, PartialEq, Eq)]
pub enum LogLevel {
    Error,
    Warn,
}

/// Structured record of one logged error.
#[derive(Debug, Clone, PartialEq, Eq)]
pub struct ErrorLogRecord {
    pub level: LogLevel,
    pub context: String,
    pub code: String,
    pub message: String,
    pub user_message_cn: String,
    pub user_message_en: String,
    pub is_critical: bool,
}

/// `2` to the power `n`.
pub open spec fn two_pow(n: nat) -> nat
    decreases n,
{
    if n == 0 {
        1
    } else {
        2 * two_pow((n - 1) as nat)
    }
}

/// The stable error code of each variant.
pub open spec fn spec_code(e: AppError) -> Seq<char> {
    match e {
        AppError::ServerAlreadyRunning => "SERVER_ALREADY_RUNNING"@,
        AppError::ServerNotRunning => "SERVER_NOT_RUNNING"@,
        AppError::NoAvailablePort => "NO_AVAILABLE_PORT"@,
        AppError::NoNetworkInterface => "NO_NETWORK_INTERFACE"@,
        AppError::ConfigError(_) => "CONFIG_ERROR"@,
        AppError::FtpServerError(_) => "FTP_SERVER_ERROR"@,
        AppError::Io(_) => "IO_ERROR"@,
        AppError::Serialization(_) => "SERIALIZATION_ERROR"@,
        AppError::NetworkError(_) => "NETWORK_ERROR"@,
        AppError::PermissionError(_) => "PERMISSION_ERROR"@,
        AppError::ColorGradingError(_) => "COLOR_GRADING_ERROR"@,
        AppError::AiEditError(_) => "AI_EDIT_ERROR"@,
        AppError::Other(_) => "OTHER_ERROR"@,
    }
}

/// The error's own (developer-facing) message.
pub open spec fn spec_message(e: AppError) -> Seq<char> {
    match e {
        AppError::ServerAlreadyRunning => "服务器已在运行"@,
        AppError::ServerNotRunning => "服务器未运行"@,
        AppError::NoAvailablePort => "无可用端口"@,
        AppError::NoNetworkInterface => "无可用网络接口"@,
        AppError::ConfigError(m) => "配置错误: "@ + m@,
        AppError::FtpServerError(m) => "FTP服务器错误: "@ + m@,
        AppError::Io(m) => "IO错误: "@ + m@,
        AppError::Serialization(m) => "序列化错误: "@ + m@,
        AppError::NetworkError(m) => "网络错误: "@ + m@,
        AppError::PermissionError(m) => "权限错误: "@ + m@,
        AppError::ColorGradingError(m) => "调色错误: "@ + m@,
        AppError::AiEditError(m) => "AI修图错误: "@ + m@,
        AppError::Other(m) => "其他错误: "@ + m@,
    }
}

/// The Chinese user-facing message.
pub open spec fn spec_user_message_cn(e: AppError) -> Seq<char> {
    match e {
        AppError::ServerAlreadyRunning => "FTP服务器已经在运行中，请先停止当前服务器"@,
        AppError::ServerNotRunning => "FTP服务器未运行，无法执行此操作"@,
        AppError::NoAvailablePort => "无法找到可用的端口（1025-65535），请检查系统端口占用情况"@,
        AppError::NoNetworkInterface => "未检测到可用的网络接口，请检查网络连接"@,
        AppError::ConfigError(m) => "配置错误: "@ + m@,
        AppError::FtpServerError(m) => "FTP服务器错误: "@ + m@,
        AppError::Io(m) => "文件系统错误: "@ + m@,
        AppError::Serialization(m) => "数据序列化错误: "@ + m@,
        AppError::NetworkError(m) => "网络错误: "@ + m@,
        AppError::PermissionError(m) => "权限错误: "@ + m@ + "，请检查文件或目录权限"@,
        AppError::ColorGradingError(m) => "调色错误: "@ + m@,
        AppError::AiEditError(m) => "AI修图错误: "@ + m@,
        AppError::Other(m) => m@,
    }
}

/// The English user-facing message.
pub open spec fn spec_user_message_en(e: AppError) -> Seq<char> {
    match e {
        AppError::ServerAlreadyRunning => "FTP server is already running, please stop it first"@,
        AppError::ServerNotRunning => "FTP server is not running"@,
        AppError::NoAvailablePort => "No available port found (1025-65535), please check port usage"@,
        AppError::NoNetworkInterface => "No network interface detected, please check your network connection"@,
        AppError::ConfigError(m) => "Configuration error: "@ + m@,
        AppError::FtpServerError(m) => "FTP server error: "@ + m@,
        AppError::Io(m) => "File system error: "@ + m@,
        AppError::Serialization(m) => "Serialization error: "@ + m@,
        AppError::NetworkError(m) => "Network error: "@ + m@,
        AppError::PermissionError(m) => "Permission error: "@ + m@ + ", please check file/directory permissions"@,
        AppError::ColorGradingError(m) => "Color grading error: "@ + m@,
        AppError::AiEditError(m) => "AI edit error: "@ + m@,
        AppError::Other(m) => m@,
    }
}

/// Retry policy: errors that cannot be fixed by retrying never retry, transient
/// network/port problems are retried up to three attempts, anything else once.
pub open spec fn spec_should_retry(e: AppError, attempt: u32) -> bool {
    match e {
        AppError::ServerAlreadyRunning
        | AppError::ServerNotRunning
        | AppError::PermissionError(_)
        | AppError::ConfigError(_) => false,
        AppError::NoAvailablePort | AppError::NoNetworkInterface | AppError::NetworkError(_) => attempt < 3,
        _ => attempt < 1,
    }
}

/// Critical errors are permission, configuration and FTP server failures.
pub open spec fn spec_is_critical(e: AppError) -> bool {
    e is PermissionError || e is ConfigError || e is FtpServerError
}

fn concat_str(prefix: &str, body: &str) -> (r: String)
    ensures
        r@ == prefix@ + body@,
{
    let s = String::from_str(prefix);
    s.concat(body)
}

fn concat3(prefix: &str, body: &str, suffix: &str) -> (r: String)
    ensures
        r@ == prefix@ + body@ + suffix@,
{
    let s = String::from_str(prefix);
    let s = s.concat(body);
    s.concat(suffix)
}

/// `r` is what an I/O failure of class `class` with message `msg` converts
/// into.
pub open spec fn io_conversion(class: IoErrorClass, msg: Seq<char>, r: AppError) -> bool {
    match class {
        IoErrorClass::PermissionDenied => r matches AppError::PermissionError(m) && m@ == msg,
        IoErrorClass::NotFound => r matches AppError::Io(m) && m@ == "File not found: "@ + msg,
        IoErrorClass::AlreadyExists => r matches AppError::Io(m) && m@ == "File already exists: "@ + msg,
        IoErrorClass::AddrInUse => r matches AppError::NetworkError(m) && m@ == "Address in use: "@ + msg,
        IoErrorClass::Other => r matches AppError::Io(m) && m@ == msg,
    }
}

impl AppError {
    /// The stable error code used by the frontend to recognise the error.
    pub fn code(&self) -> (r: &'static str)
        ensures
            r@ == spec_code(*self),
    {
        match self {
            AppError::ServerAlreadyRunning => "SERVER_ALREADY_RUNNING",
            AppError::ServerNotRunning => "SERVER_NOT_RUNNING",
            AppError::NoAvailablePort => "NO_AVAILABLE_PORT",
            AppError::NoNetworkInterface => "NO_NETWORK_INTERFACE",
            AppError::ConfigError(_) => "CONFIG_ERROR",
            AppError::FtpServerError(_) => "FTP_SERVER_ERROR",
            AppError::Io(_) => "IO_ERROR",
            AppError::Serialization(_) => "SERIALIZATION_ERROR",
            AppError::NetworkError(_) => "NETWORK_ERROR",
            AppError::PermissionError(_) => "PERMISSION_ERROR",
            AppError::ColorGradingError(_) => "COLOR_GRADING_ERROR",
            AppError::AiEditError(_) => "AI_EDIT_ERROR",
            AppError::Other(_) => "OTHER_ERROR",
        }
    }

    /// The error's own message (what `Display` shows).
    pub fn message(&self) -> (r: String)
        ensures
            r@ == spec_message(*self),
    {
        match self {
            AppError::ServerAlreadyRunning => String::from_str("服务器已在运行"),
            AppError::ServerNotRunning => String::from_str("服务器未运行"),
            AppError::NoAvailablePort => String::from_str("无可用端口"),
            AppError::NoNetworkInterface => String::from_str("无可用网络接口"),
            AppError::ConfigError(m) => concat_str("配置错误: ", m.as_str()),
            AppError::FtpServerError(m) => concat_str("FTP服务器错误: ", m.as_str()),
            AppError::Io(m) => concat_str("IO错误: ", m.as_str()),
            AppError::Serialization(m) => concat_str("序列化错误: ", m.as_str()),
            AppError::NetworkError(m) => concat_str("网络错误: ", m.as_str()),
            AppError::PermissionError(m) => concat_str("权限错误: ", m.as_str()),
            AppError::ColorGradingError(m) => concat_str("调色错误: ", m.as_str()),
            AppError::AiEditError(m) => concat_str("AI修图错误: ", m.as_str()),
            AppError::Other(m) => concat_str("其他错误: ", m.as_str()),
        }
    }

    /// The user-facing message in the requested language.
    pub fn user_message(&self, lang: Language) -> (r: String)
        ensures
            lang == Language::Chinese ==> r@ == spec_user_message_cn(*self),
            lang == Language::English ==> r@ == spec_user_message_en(*self),
    {
        match lang {
            Language::Chinese => self.user_message_cn(),
            Language::English => self.user_message_en(),
        }
    }

    /// The Chinese user-facing message.
    pub fn user_message_cn(&self) -> (r: String)
        ensures
            r@ == spec_user_message_cn(*self),
    {
        match self {
            AppError::ServerAlreadyRunning => String::from_str("FTP服务器已经在运行中，请先停止当前服务器"),
            AppError::ServerNotRunning => String::from_str("FTP服务器未运行，无法执行此操作"),
            AppError::NoAvailablePort => String::from_str("无法找到可用的端口（1025-65535），请检查系统端口占用情况"),
            AppError::NoNetworkInterface => String::from_str("未检测到可用的网络接口，请检查网络连接"),
            AppError::ConfigError(m) => concat_str("配置错误: ", m.as_str()),
            AppError::FtpServerError(m) => concat_str("FTP服务器错误: ", m.as_str()),
            AppError::Io(m) => concat_str("文件系统错误: ", m.as_str()),
            AppError::Serialization(m) => concat_str("数据序列化错误: ", m.as_str()),
            AppError::NetworkError(m) => concat_str("网络错误: ", m.as_str()),
            AppError::PermissionError(m) => concat3("权限错误: ", m.as_str(), "，请检查文件或目录权限"),
            AppError::ColorGradingError(m) => concat_str("调色错误: ", m.as_str()),
            AppError::AiEditError(m) => concat_str("AI修图错误: ", m.as_str()),
            AppError::Other(m) => m.clone(),
        }
    }

    /// The English user-facing message.
    pub fn user_message_en(&self) -> (r: String)
        ensures
            r@ == spec_user_message_en(*self),
    {
        match self {
            AppError::ServerAlreadyRunning => String::from_str("FTP server is already running, please stop it first"),
            AppError::ServerNotRunning => String::from_str("FTP server is not running"),
            AppError::NoAvailablePort => String::from_str("No available port found (1025-65535), please check port usage"),
            AppError::NoNetworkInterface => String::from_str("No network interface detected, please check your network connection"),
            AppError::ConfigError(m) => concat_str("Configuration error: ", m.as_str()),
            AppError::FtpServerError(m) => concat_str("FTP server error: ", m.as_str()),
            AppError::Io(m) => concat_str("File system error: ", m.as_str()),
            AppError::Serialization(m) => concat_str("Serialization error: ", m.as_str()),
            AppError::NetworkError(m) => concat_str("Network error: ", m.as_str()),
            AppError::PermissionError(m) => concat3("Permission error: ", m.as_str(), ", please check file/directory permissions"),
            AppError::ColorGradingError(m) => concat_str("Color grading error: ", m.as_str()),
            AppError::AiEditError(m) => concat_str("AI edit error: ", m.as_str()),
            AppError::Other(m) => m.clone(),
        }
    }

    /// Whether an operation that failed with this error on attempt `attempt`
    /// (counted from 0) should be tried again.
    pub fn should_retry(&self, attempt: u32) -> (r: bool)
        ensures
            r == spec_should_retry(*self, attempt),
    {
        match self {
            AppError::ServerAlreadyRunning
            | AppError::ServerNotRunning
            | AppError::PermissionError(_)
            | AppError::ConfigError(_) => false,
            AppError::NoAvailablePort | AppError::NoNetworkInterface | AppError::NetworkError(_) => {
                attempt < 3
            },
            _ => attempt < 1,
        }
    }

    /// Suggested delay before retry `attempt`: exponential backoff
    /// 100 ms, 200 ms, 400 ms, ...
    pub fn retry_delay_ms(&self, attempt: u32) -> (r: u64)
        requires
            attempt <= 57,
        ensures
            r == 100 * two_pow(attempt as nat),
    {
        let mut p: u64 = 1;
        let mut i: u32 = 0;
        proof {
            lemma_two_pow_bound(57);
        }
        while i < attempt
            invariant
                i <= attempt <= 57,
                p == two_pow(i as nat),
                100 * two_pow(57) < 0x1_0000_0000_0000_0000,
            decreases attempt - i,
        {
            proof {
                lemma_two_pow_monotone((i + 1) as nat, 57);
            }
            p = p * 2;
            i = i + 1;
        }
        proof {
            lemma_two_pow_monotone(attempt as nat, 57);
        }
        100 * p
    }

    /// Whether the error is critical (permission, configuration, FTP server).
    pub fn is_critical(&self) -> (r: bool)
        ensures
            r == spec_is_critical(*self),
    {
        match self {
            AppError::PermissionError(_) | AppError::ConfigError(_) | AppError::FtpServerError(_) => true,
            _ => false,
        }
    }

    /// The structured log record of this error in the given context: critical
    /// errors are logged at error level, the others as warnings.
    pub fn log(&self, context: &str) -> (r: ErrorLogRecord)
        ensures
            r.level == (if spec_is_critical(*self) { LogLevel::Error } else { LogLevel::Warn }),
            r.context@ == context@,
            r.code@ == spec_code(*self),
            r.message@ == spec_message(*self),
            r.user_message_cn@ == spec_user_message_cn(*self),
            r.user_message_en@ == spec_user_message_en(*self),
            r.is_critical == spec_is_critical(*self),
    {
        let critical = self.is_critical();
        ErrorLogRecord {
            level: if critical { LogLevel::Error } else { LogLevel::Warn },
            context: String::from_str(context),
            code: String::from_str(self.code()),
            message: self.message(),
            user_message_cn: self.user_message_cn(),
            user_message_en: self.user_message_en(),
            is_critical: critical,
        }
    }

    /// Logs the error (in the generic "error" context) and hands it back.
    pub fn logged(self) -> (r: (AppError, ErrorLogRecord))
        ensures
            r.0 == self,
            r.1.context@ == "error"@,
            r.1.code@ == spec_code(self),
            r.1.is_critical == spec_is_critical(self),
            r.1.level == (if spec_is_critical(self) { LogLevel::Error } else { LogLevel::Warn }),
            r.1.message@ == spec_message(self),
    {
        let record = self.log("error");
        (self, record)
    }

    /// The error that an I/O failure of class `class` with message `msg`
    /// converts into: permission failures are permission errors; missing and
    /// existing files and addresses in use are prefixed with what happened;
    /// anything else is a plain I/O error.
    pub fn from_io_parts(class: IoErrorClass, msg: String) -> (r: AppError)
        ensures
            class == IoErrorClass::PermissionDenied ==> r == AppError::PermissionError(msg),
            class == IoErrorClass::NotFound ==> (r is Io && r->Io_0@ == "File not found: "@ + msg@),
            class == IoErrorClass::AlreadyExists ==> (r is Io && r->Io_0@ == "File already exists: "@ + msg@),
            class == IoErrorClass::AddrInUse ==> (r is NetworkError && r->NetworkError_0@ == "Address in use: "@ + msg@),
            class == IoErrorClass::Other ==> r == AppError::Io(msg),
            io_conversion(class, msg@, r),
    {
        match class {
            IoErrorClass::PermissionDenied => AppError::PermissionError(msg),
            IoErrorClass::NotFound => AppError::Io(concat_str("File not found: ", msg.as_str())),
            IoErrorClass::AlreadyExists => AppError::Io(concat_str("File already exists: ", msg.as_str())),
            IoErrorClass::AddrInUse => AppError::NetworkError(concat_str("Address in use: ", msg.as_str())),
            IoErrorClass::Other => AppError::Io(msg),
        }
    }
}

/// `two_pow` grows with its exponent.
pub proof fn lemma_two_pow_monotone(a: nat, b: nat)
    requires
        a <= b,
    ensures
        two_pow(a) <= two_pow(b),
    decreases b,
{
    if a < b {
        lemma_two_pow_monotone(a, (b - 1) as nat);
    }
}

proof fn lemma_two_pow_bound(n: nat)
    requires
        n == 57,
    ensures
        100 * two_pow(n) < 0x1_0000_0000_0000_0000,
{
    reveal_with_fuel(two_pow, 58);
    assert(two_pow(57) == 0x200_0000_0000_0000);
}

/// Whether a failed attempt is retried, and after how long: retried (after
/// `retry_delay_ms(attempt)`) when the error allows another attempt and
/// attempts are left; otherwise the error is final.
pub fn retry_decision(err: &AppError, attempt: u32, max_attempts: u32) -> (r: Option<u64>)
    requires
        attempt < max_attempts,
    ensures
        (spec_should_retry(*err, attempt) && attempt + 1 < max_attempts) ==> r == Some(
            (100 * two_pow(attempt as nat)) as u64,
        ),
        !(spec_should_retry(*err, attempt) && attempt + 1 < max_attempts) ==> r is None,
{
    if err.should_retry(attempt) && attempt < max_attempts - 1 {
        proof {
            assert(attempt < 3);
        }
        Some(err.retry_delay_ms(attempt))
    } else {
        None
    }
}

/// The error of an operation that did not finish within `timeout_ms`.
pub fn timeout_error(timeout_ms: u64) -> (r: AppError)
    ensures
        r matches AppError::Other(m) && m@ == "Operation timed out after "@ + crate::text::decimal(
            timeout_ms as nat,
        ) + "ms"@,
{
    let digits = crate::text::format_decimal(timeout_ms);
    AppError::Other(concat3("Operation timed out after ", digits.as_str(), "ms"))
}

} // verus!
