//! Platform-facing data: storage and permission status, and the decision
//! whether the FTP server may start.
use vstd::prelude::*;

verus! {

/// The storage location's state.
#[derive(Debug, Clone)]
pub struct StorageInfo {
    /// Display name.
    pub display_name: String,
    /// Full file system path.
    pub path: String,
    /// The path exists.
    pub exists: bool,
    /// The path is writable.
    pub writable: bool,
    /// The app has all-files access.
    pub has_all_files_access: bool,
}

/// The app's storage permission.
#[derive(Debug, Clone, Copy, PartialEq, Eq)]
pub struct PermissionStatus {
    /// The app has all-files access.
    pub has_all_files_access: bool,
    /// The user has to grant access.
    pub needs_user_action: bool,
}

/// Whether the server may start, why not, and the storage state checked.
#[derive(Debug, Clone)]
pub struct ServerStartCheckResult {
    pub can_start: bool,
    pub reason: Option<String>,
    pub storage_info: Option<StorageInfo>,
}

/// The permission status from whether the app can write to the camera
/// folder: access granted exactly when it can, user action needed otherwise.
pub fn permission_status_from_access(has_access: bool) -> (r: PermissionStatus)
    ensures
        r.has_all_files_access == has_access,
        r.needs_user_action == !has_access,
{
    PermissionStatus { has_all_files_access: has_access, needs_user_action: !has_access }
}

/// The server may start when the storage is writable, or when all-files
/// access is granted and the path does not exist yet (it will be created).
pub open spec fn spec_can_start(storage: StorageInfo, permission: PermissionStatus) -> bool {
    storage.writable || (permission.has_all_files_access && !storage.exists)
}

/// The reason shown when the server may not start: all-files access is
/// missing, or else the path is not writable.
pub open spec fn spec_refusal_reason(storage: StorageInfo) -> Seq<char> {
    if !storage.has_all_files_access {
        "需要授予\"所有文件访问权限\"才能启动服务器。请在设置中开启权限。"@
    } else {
        "存储路径不可写，请检查权限设置"@
    }
}

/// The start check of a platform that checks storage itself: allowed as
/// `spec_can_start` says, with the refusal reason otherwise, and the storage
/// state attached.
pub fn check_server_start_prerequisites(storage_info: StorageInfo, permission_status: PermissionStatus) -> (r:
    ServerStartCheckResult)
    ensures
        r.can_start == spec_can_start(storage_info, permission_status),
        r.can_start ==> r.reason is None,
        !r.can_start ==> (r.reason matches Some(m) && m@ == spec_refusal_reason(storage_info)),
        r.storage_info == Some(storage_info),
{
    let can_start = storage_info.writable || (permission_status.has_all_files_access && !storage_info.exists);
    let reason = if !can_start {
        if !storage_info.has_all_files_access {
            Some(String::from_str("需要授予\"所有文件访问权限\"才能启动服务器。请在设置中开启权限。"))
        } else {
            Some(String::from_str("存储路径不可写，请检查权限设置"))
        }
    } else {
        None
    };
    ServerStartCheckResult { can_start, reason, storage_info: Some(storage_info) }
}

/// The Android start check: the frontend has settled permissions before it
/// asks, so starting is always allowed; the storage state is attached.
pub fn android_server_start_check(storage_info: StorageInfo) -> (r: ServerStartCheckResult)
    ensures
        r.can_start,
        r.reason is None,
        r.storage_info == Some(storage_info),
{
    ServerStartCheckResult { can_start: true, reason: None, storage_info: Some(storage_info) }
}

/// Android storage access: writable only when the path exists and the write
/// probe succeeded; all-files access when writable, or when the path exists
/// and the camera folder is writable.
pub fn android_storage_access(exists: bool, write_probe: bool, dcim_writable: bool) -> (r: (bool, bool))
    ensures
        r.0 == (exists && write_probe),
        r.1 == (r.0 || (exists && dcim_writable)),
{
    let writable = if exists { write_probe } else { false };
    let has_all_files_access = writable || (exists && dcim_writable);
    (writable, has_all_files_access)
}

/// Orders the service-state synchronisations: each snapshot gets the next
/// number, and a synchronisation runs only if its number is still the
/// latest (a newer snapshot queued behind it supersedes it).
#[derive(Debug)]
pub struct SyncSequencer {
    latest: u64,
}

impl SyncSequencer {
    /// The latest number issued.
    pub closed spec fn latest_seq(&self) -> u64 {
        self.latest
    }

    /// Nothing issued yet.
    pub fn new() -> (r: SyncSequencer)
        ensures
            r.latest_seq() == 0,
    {
        SyncSequencer { latest: 0 }
    }

    /// Issues the number of a new snapshot.
    pub fn issue(&mut self) -> (r: u64)
        requires
            old(self).latest_seq() < u64::MAX,
        ensures
            r == old(self).latest_seq() + 1,
            final(self).latest_seq() == r,
    {
        self.latest = self.latest + 1;
        self.latest
    }

    /// Whether the snapshot numbered `seq` is still the latest.
    pub fn is_latest(&self, seq: u64) -> (r: bool)
        ensures
            r == (seq == self.latest_seq()),
    {
        seq == self.latest
    }
}

/// The client count as the Java side takes it (a 32-bit int); an error when
/// it does not fit.
pub fn jni_connected_clients(n: usize) -> (r: Result<i32, crate::error::AppError>)
    ensures
        n <= i32::MAX ==> r == Ok::<i32, crate::error::AppError>(n as i32),
        n > i32::MAX ==> (r matches Err(crate::error::AppError::Other(m)) && m@
            == "Connected client count exceeds Android JNI range: "@ + crate::text::decimal(n as nat)),
{
    if n <= 2147483647 {
        Ok(n as i32)
    } else {
        let digits = crate::text::format_decimal(n as u64);
        let s = String::from_str("Connected client count exceeds Android JNI range: ");
        Err(crate::error::AppError::Other(s.concat(digits.as_str())))
    }
}

/// The tray icon's state on Windows: red while the server is stopped,
/// yellow while it runs without clients, green while clients are connected.
#[derive(Debug, Clone, Copy, PartialEq, Eq)]
pub enum TrayIconState {
    Stopped,
    Idle,
    Active,
}

/// The tray icon for the number of connected clients of a running server.
pub fn tray_state_for_clients(connected_clients: u32) -> (r: TrayIconState)
    ensures
        connected_clients > 0 ==> r == TrayIconState::Active,
        connected_clients == 0 ==> r == TrayIconState::Idle,
{
    if connected_clients > 0 {
        TrayIconState::Active
    } else {
        TrayIconState::Idle
    }
}

} // verus!
