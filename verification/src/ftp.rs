//! FTP server domain state: status, statistics, the runtime snapshot shared
//! with the frontend, the start/stop slot state machine, authentication and
//! connection details, and the event bookkeeping around them.
use vstd::prelude::*;
use crate::error::{AppError, IoErrorClass};
use crate::image_utils::{is_raw_file, is_supported_image, spec_is_raw_file, spec_is_supported_image};
use crate::network::{format_ipv4_ftp_url, normalize_ipv4_host, spec_normalize_ipv4_host};
use crate::text::{chars_of, decimal, parse_u16, parse_u16_spec};
use crate::network::split_on;
use crate::config::{AppConfig, AuthConfig};

verus! {

// ---------------------------------------------------------------------------
// Small helpers on optional strings
// ---------------------------------------------------------------------------

/// View of an optional string.
pub open spec fn opt_view(o: Option<String>) -> Option<Seq<char>> {
    match o {
        Some(s) => Some(s@),
        None => None,
    }
}

/// Copies an optional string.
pub fn clone_opt_string(o: &Option<String>) -> (r: Option<String>)
    ensures
        opt_view(r) == opt_view(*o),
{
    match o {
        Some(s) => Some(s.clone()),
        None => None,
    }
}

fn opt_string_eq(a: &Option<String>, b: &Option<String>) -> (r: bool)
    ensures
        r == (opt_view(*a) == opt_view(*b)),
{
    match (a, b) {
        (Some(x), Some(y)) => *x == *y,
        (None, None) => true,
        _ => false,
    }
}

// ---------------------------------------------------------------------------
// Server status
// ---------------------------------------------------------------------------

/// Lifecycle status of the FTP server.
#[derive(Debug, Clone, Copy, PartialEq, Eq)]
pub enum ServerStatus {
    Stopped,
    Starting,
    Running,
    Stopping,
}

impl ServerStatus {
    /// The server is running.
    pub fn is_running(&self) -> (r: bool)
        ensures
            r == (*self is Running),
    {
        match self {
            ServerStatus::Running => true,
            _ => false,
        }
    }

    /// A start is allowed only from the stopped state.
    pub fn can_start(&self) -> (r: bool)
        ensures
            r == (*self is Stopped),
    {
        match self {
            ServerStatus::Stopped => true,
            _ => false,
        }
    }

    /// A stop is allowed only from the running state.
    pub fn can_stop(&self) -> (r: bool)
        ensures
            r == (*self is Running),
    {
        match self {
            ServerStatus::Running => true,
            _ => false,
        }
    }

    /// The start sequence begins: refused with `ServerAlreadyRunning` while
    /// running (nothing changes), else the status becomes `Starting`.
    pub fn begin_start(&mut self) -> (r: Result<(), AppError>)
        ensures
            *old(self) is Running ==> r == Err::<(), AppError>(AppError::ServerAlreadyRunning) && *final(self)
                == *old(self),
            !(*old(self) is Running) ==> r is Ok && *final(self) == ServerStatus::Starting,
    {
        if self.is_running() {
            return Err(AppError::ServerAlreadyRunning);
        }
        *self = ServerStatus::Starting;
        Ok(())
    }

    /// The start sequence ends: `Running` when the listener was started,
    /// back to `Stopped` when a step failed.
    pub fn finish_start(&mut self, started: bool)
        ensures
            *final(self) == (if started { ServerStatus::Running } else { ServerStatus::Stopped }),
    {
        *self = if started { ServerStatus::Running } else { ServerStatus::Stopped };
    }

    /// The stop sequence begins: refused with `ServerNotRunning` unless
    /// running (nothing changes), else the status becomes `Stopping`.
    pub fn begin_stop(&mut self) -> (r: Result<(), AppError>)
        ensures
            !(*old(self) is Running) ==> r == Err::<(), AppError>(AppError::ServerNotRunning) && *final(self)
                == *old(self),
            *old(self) is Running ==> r is Ok && *final(self) == ServerStatus::Stopping,
    {
        if !self.is_running() {
            return Err(AppError::ServerNotRunning);
        }
        *self = ServerStatus::Stopping;
        Ok(())
    }

    /// The stop sequence ends.
    pub fn finish_stop(&mut self)
        ensures
            *final(self) == ServerStatus::Stopped,
    {
        *self = ServerStatus::Stopped;
    }
}

// ---------------------------------------------------------------------------
// Statistics
// ---------------------------------------------------------------------------

/// Snapshot of the server's statistics.
#[derive(Debug, Clone)]
pub struct ServerStats {
    pub active_connections: u64,
    pub total_uploads: u64,
    pub total_bytes_received: u64,
    pub last_uploaded_file: Option<String>,
}

/// Value of a statistics snapshot.
pub open spec fn stats_view(s: ServerStats) -> (u64, u64, u64, Option<Seq<char>>) {
    (s.active_connections, s.total_uploads, s.total_bytes_received, opt_view(s.last_uploaded_file))
}

/// A command processed by the statistics worker.
#[derive(Debug, Clone)]
pub enum StatsCommand {
    RecordUpload { path: String, bytes: u64 },
    UpdateConnectionCount { count: u64 },
}

/// The statistics after applying `cmd` to `s`: an upload increments the
/// upload count, adds its bytes and becomes the last uploaded file; a
/// connection update sets (does not add to) the connection count.
pub open spec fn spec_apply_stats(s: ServerStats, cmd: StatsCommand) -> (u64, u64, u64, Option<Seq<char>>) {
    match cmd {
        StatsCommand::RecordUpload { path, bytes } => (
            s.active_connections,
            (s.total_uploads + 1) as u64,
            (s.total_bytes_received + bytes) as u64,
            Some(path@),
        ),
        StatsCommand::UpdateConnectionCount { count } => (
            count,
            s.total_uploads,
            s.total_bytes_received,
            opt_view(s.last_uploaded_file),
        ),
    }
}

impl ServerStats {
    /// All counters zero and no uploaded file.
    pub fn new() -> (r: ServerStats)
        ensures
            stats_view(r) == (0u64, 0u64, 0u64, None::<Seq<char>>),
    {
        ServerStats {
            active_connections: 0,
            total_uploads: 0,
            total_bytes_received: 0,
            last_uploaded_file: None,
        }
    }

    /// Copies the statistics.
    pub fn copy(&self) -> (r: ServerStats)
        ensures
            stats_view(r) == stats_view(*self),
    {
        ServerStats {
            active_connections: self.active_connections,
            total_uploads: self.total_uploads,
            total_bytes_received: self.total_bytes_received,
            last_uploaded_file: clone_opt_string(&self.last_uploaded_file),
        }
    }

    /// Whether `other` differs from `self` in any field.
    pub fn has_changed(&self, other: &ServerStats) -> (r: bool)
        ensures
            r == (stats_view(*self) != stats_view(*other)),
    {
        !(self.active_connections == other.active_connections && self.total_uploads
            == other.total_uploads && self.total_bytes_received == other.total_bytes_received
            && opt_string_eq(&self.last_uploaded_file, &other.last_uploaded_file))
    }

    /// Applies one statistics command.
    pub fn apply(&mut self, cmd: StatsCommand)
        requires
            cmd is RecordUpload ==> old(self).total_uploads < u64::MAX && old(self).total_bytes_received
                + cmd->bytes <= u64::MAX,
        ensures
            stats_view(*final(self)) == spec_apply_stats(*old(self), cmd),
    {
        match cmd {
            StatsCommand::RecordUpload { path, bytes } => {
                self.total_uploads = self.total_uploads + 1;
                self.total_bytes_received = self.total_bytes_received + bytes;
                self.last_uploaded_file = Some(path);
            },
            StatsCommand::UpdateConnectionCount { count } => {
                self.active_connections = count;
            },
        }
    }
}

/// Number of uploads among `cmds`.
pub open spec fn upload_count(cmds: Seq<StatsCommand>) -> int
    decreases cmds.len(),
{
    if cmds.len() == 0 {
        0
    } else {
        upload_count(cmds.drop_last()) + if cmds.last() is RecordUpload { 1int } else { 0int }
    }
}

/// Bytes of the uploads among `cmds`.
pub open spec fn upload_bytes(cmds: Seq<StatsCommand>) -> int
    decreases cmds.len(),
{
    if cmds.len() == 0 {
        0
    } else {
        upload_bytes(cmds.drop_last()) + match cmds.last() {
            StatsCommand::RecordUpload { bytes, .. } => bytes as int,
            _ => 0int,
        }
    }
}

/// Path of the last upload among `cmds`.
pub open spec fn last_upload(cmds: Seq<StatsCommand>) -> Option<Seq<char>>
    decreases cmds.len(),
{
    if cmds.len() == 0 {
        None
    } else {
        match cmds.last() {
            StatsCommand::RecordUpload { path, .. } => Some(path@),
            _ => last_upload(cmds.drop_last()),
        }
    }
}

/// Count of the last connection update among `cmds` (0 without one).
pub open spec fn last_connection_count(cmds: Seq<StatsCommand>) -> int
    decreases cmds.len(),
{
    if cmds.len() == 0 {
        0
    } else {
        match cmds.last() {
            StatsCommand::UpdateConnectionCount { count } => count as int,
            _ => last_connection_count(cmds.drop_last()),
        }
    }
}

/// The statistics' value as integers.
pub open spec fn stats_ints(v: (u64, u64, u64, Option<Seq<char>>)) -> (int, int, int, Option<Seq<char>>) {
    (v.0 as int, v.1 as int, v.2 as int, v.3)
}

/// The statistics after the commands `cmds`, starting from none: the
/// connection count of the last connection update, the number and bytes of
/// the uploads, and the path of the last upload.
pub open spec fn stats_after(cmds: Seq<StatsCommand>) -> (int, int, int, Option<Seq<char>>) {
    (last_connection_count(cmds), upload_count(cmds), upload_bytes(cmds), last_upload(cmds))
}

/// Fresh statistics are the statistics after no command.
pub proof fn law_fresh_stats_are_empty()
    ensures
        stats_ints((0u64, 0u64, 0u64, None::<Seq<char>>)) == stats_after(Seq::<StatsCommand>::empty()),
{
}

/// Applying one more command to statistics that hold the result of `cmds`
/// gives the result of `cmds` followed by it (when the counters do not
/// overflow): so statistics fed the commands `c1..cn` in order, from fresh,
/// count the uploads and their bytes, remember the last uploaded path, and
/// hold the connection count of the last connection update.
pub proof fn law_stats_follow_commands(s: ServerStats, cmds: Seq<StatsCommand>, cmd: StatsCommand)
    requires
        stats_ints(stats_view(s)) == stats_after(cmds),
        cmd is RecordUpload ==> s.total_uploads < u64::MAX && s.total_bytes_received + cmd->bytes <= u64::MAX,
    ensures
        stats_ints(spec_apply_stats(s, cmd)) == stats_after(cmds.push(cmd)),
{
    let c = cmds.push(cmd);
    assert(c.drop_last() =~= cmds);
    assert(c.last() == cmd);
}

/// One command applied to statistics held as integers.
pub open spec fn apply_to_ints(v: (int, int, int, Option<Seq<char>>), cmd: StatsCommand) -> (
    int,
    int,
    int,
    Option<Seq<char>>,
) {
    match cmd {
        StatsCommand::RecordUpload { path, bytes } => (v.0, v.1 + 1, v.2 + bytes, Some(path@)),
        StatsCommand::UpdateConnectionCount { count } => (count as int, v.1, v.2, v.3),
    }
}

/// The statistics reached by applying `cmds` one after another to fresh
/// statistics.
pub open spec fn stats_run(cmds: Seq<StatsCommand>) -> (int, int, int, Option<Seq<char>>)
    decreases cmds.len(),
{
    if cmds.len() == 0 {
        (0, 0, 0, None)
    } else {
        apply_to_ints(stats_run(cmds.drop_last()), cmds.last())
    }
}

/// The statistics worker fed the commands `c1..cn` in order, from fresh
/// statistics, counts the uploads and their bytes, remembers the path of
/// the last upload (none without one) and holds the count of the last
/// connection update (0 without one).
pub proof fn law_stats_run_counts_commands(cmds: Seq<StatsCommand>)
    ensures
        stats_run(cmds) == stats_after(cmds),
    decreases cmds.len(),
{
    if cmds.len() > 0 {
        law_stats_run_counts_commands(cmds.drop_last());
    }
}

/// `apply` takes statistics that hold the run of `cmds` to the run of
/// `cmds` followed by `cmd`, as long as the counters do not overflow.
pub proof fn law_apply_extends_the_run(s: ServerStats, cmds: Seq<StatsCommand>, cmd: StatsCommand)
    requires
        stats_ints(stats_view(s)) == stats_run(cmds),
        cmd is RecordUpload ==> s.total_uploads < u64::MAX && s.total_bytes_received + cmd->bytes <= u64::MAX,
    ensures
        stats_ints(spec_apply_stats(s, cmd)) == stats_run(cmds.push(cmd)),
{
    let c = cmds.push(cmd);
    assert(c.drop_last() =~= cmds);
}

/// Frontend snapshot of the server's runtime statistics.
#[derive(Debug, Clone)]
pub struct ServerStateSnapshot {
    pub is_running: bool,
    pub connected_clients: usize,
    pub files_received: u64,
    pub bytes_received: u64,
    pub last_file: Option<String>,
}

/// Value of a frontend snapshot.
pub open spec fn snapshot_view(s: ServerStateSnapshot) -> (bool, usize, u64, u64, Option<Seq<char>>) {
    (s.is_running, s.connected_clients, s.files_received, s.bytes_received, opt_view(s.last_file))
}

impl ServerStateSnapshot {
    /// Not running, nothing received.
    pub fn new() -> (r: ServerStateSnapshot)
        ensures
            snapshot_view(r) == (false, 0usize, 0u64, 0u64, None::<Seq<char>>),
    {
        ServerStateSnapshot {
            is_running: false,
            connected_clients: 0,
            files_received: 0,
            bytes_received: 0,
            last_file: None,
        }
    }

    /// The snapshot reporting `stats` (the running flag left unset).
    pub fn from_stats(stats: &ServerStats) -> (r: ServerStateSnapshot)
        requires
            stats.active_connections <= usize::MAX,
        ensures
            snapshot_view(r) == (
                false,
                stats.active_connections as usize,
                stats.total_uploads,
                stats.total_bytes_received,
                opt_view(stats.last_uploaded_file),
            ),
    {
        ServerStateSnapshot {
            is_running: false,
            connected_clients: stats.active_connections as usize,
            files_received: stats.total_uploads,
            bytes_received: stats.total_bytes_received,
            last_file: clone_opt_string(&stats.last_uploaded_file),
        }
    }
}

/// The frontend snapshot the server actor reports: the statistics, with the
/// number of live sessions as the connection count and the running flag
/// from the status.
pub fn snapshot_for(status: ServerStatus, stats: &ServerStats, sessions: usize) -> (r: ServerStateSnapshot)
    ensures
        snapshot_view(r) == (
            status is Running,
            sessions,
            stats.total_uploads,
            stats.total_bytes_received,
            opt_view(stats.last_uploaded_file),
        ),
{
    ServerStateSnapshot {
        is_running: status.is_running(),
        connected_clients: sessions,
        files_received: stats.total_uploads,
        bytes_received: stats.total_bytes_received,
        last_file: clone_opt_string(&stats.last_uploaded_file),
    }
}

/// What the frontend is told about the server: its connection details
/// (while it runs) and its statistics snapshot.
#[derive(Debug, Clone)]
pub struct ServerRuntimeView {
    pub server_info: Option<ServerInfo>,
    pub stats: ServerStateSnapshot,
}

/// The view of the server: without a server, no details and an all-default
/// snapshot; with one, its current snapshot and, only while it runs, the
/// connection details `server_info` fetched from it.
pub fn server_runtime_view(current: Option<ServerStateSnapshot>, server_info: Option<ServerInfo>) -> (r:
    ServerRuntimeView)
    ensures
        match current {
            None => r.server_info is None && snapshot_view(r.stats) == (
                false,
                0usize,
                0u64,
                0u64,
                None::<Seq<char>>,
            ),
            Some(s) => r.stats == s && (s.is_running ==> r.server_info == server_info) && (!s.is_running
                ==> r.server_info is None),
        },
{
    match current {
        None => ServerRuntimeView { server_info: None, stats: ServerStateSnapshot::new() },
        Some(s) => {
            let info = if s.is_running {
                server_info
            } else {
                None
            };
            ServerRuntimeView { server_info: info, stats: s }
        },
    }
}

// ---------------------------------------------------------------------------
// Runtime state
// ---------------------------------------------------------------------------

/// The server's runtime state as observed by the rest of the application.
#[derive(Debug, Clone)]
pub struct ServerRuntimeSnapshot {
    pub bind_addr: Option<String>,
    pub is_running: bool,
    pub stats: Option<ServerStats>,
}

/// Value of a runtime snapshot.
pub open spec fn runtime_view(s: ServerRuntimeSnapshot) -> (
    Option<Seq<char>>,
    bool,
    Option<(u64, u64, u64, Option<Seq<char>>)>,
) {
    (
        opt_view(s.bind_addr),
        s.is_running,
        match s.stats {
            Some(st) => Some(stats_view(st)),
            None => None,
        },
    )
}

/// The value of the stopped, empty runtime snapshot.
pub open spec fn empty_runtime_view() -> (Option<Seq<char>>, bool, Option<(u64, u64, u64, Option<Seq<char>>)>) {
    (None, false, None)
}

/// The frontend snapshot derived from a runtime snapshot: all-default when
/// not running, else the running flag with the recorded statistics (zero
/// statistics when none were recorded yet).
pub open spec fn spec_current_snapshot(s: ServerRuntimeSnapshot) -> (bool, usize, u64, u64, Option<Seq<char>>) {
    if !s.is_running {
        (false, 0usize, 0u64, 0u64, None)
    } else {
        match s.stats {
            Some(st) => (
                true,
                st.active_connections as usize,
                st.total_uploads,
                st.total_bytes_received,
                opt_view(st.last_uploaded_file),
            ),
            None => (true, 0usize, 0u64, 0u64, None),
        }
    }
}

fn copy_runtime(s: &ServerRuntimeSnapshot) -> (r: ServerRuntimeSnapshot)
    ensures
        runtime_view(r) == runtime_view(*s),
{
    ServerRuntimeSnapshot {
        bind_addr: clone_opt_string(&s.bind_addr),
        is_running: s.is_running,
        stats: match &s.stats {
            Some(st) => Some(st.copy()),
            None => None,
        },
    }
}

/// The runtime state owned by the event bus: started/stopped transitions
/// and the statistics reported while running.
#[derive(Debug)]
pub struct ServerRuntimeState {
    state: ServerRuntimeSnapshot,
}

impl ServerRuntimeState {
    /// The current value.
    pub closed spec fn view_state(&self) -> (Option<Seq<char>>, bool, Option<(u64, u64, u64, Option<Seq<char>>)>) {
        runtime_view(self.state)
    }

    /// A stopped state with nothing recorded.
    pub fn new() -> (r: ServerRuntimeState)
        ensures
            r.view_state() == empty_runtime_view(),
    {
        ServerRuntimeState {
            state: ServerRuntimeSnapshot { bind_addr: None, is_running: false, stats: None },
        }
    }

    /// Records that the server started listening on `bind_addr`.
    pub fn record_server_started(&mut self, bind_addr: String)
        ensures
            final(self).view_state() == (Some(bind_addr@), true, old(self).view_state().2),
    {
        self.state.bind_addr = Some(bind_addr);
        self.state.is_running = true;
    }

    /// Records statistics; ignored unless the server is running.
    pub fn record_stats(&mut self, stats: ServerStats)
        ensures
            old(self).view_state().1 ==> final(self).view_state() == (
                old(self).view_state().0,
                true,
                Some(stats_view(stats)),
            ),
            !old(self).view_state().1 ==> final(self).view_state() == old(self).view_state(),
    {
        if !self.state.is_running {
            return;
        }
        self.state.stats = Some(stats);
    }

    /// Records that the server stopped: everything resets.
    pub fn record_server_stopped(&mut self)
        ensures
            final(self).view_state() == empty_runtime_view(),
    {
        self.state = ServerRuntimeSnapshot { bind_addr: None, is_running: false, stats: None };
    }

    /// Copies the frontend snapshot into the running state; a not-running
    /// snapshot clears the address and statistics.
    pub fn update_running_snapshot(&mut self, snapshot: ServerStateSnapshot)
        ensures
            snapshot.is_running ==> final(self).view_state() == (
                old(self).view_state().0,
                true,
                Some(
                    (
                        snapshot.connected_clients as u64,
                        snapshot.files_received,
                        snapshot.bytes_received,
                        opt_view(snapshot.last_file),
                    ),
                ),
            ),
            !snapshot.is_running ==> final(self).view_state() == empty_runtime_view(),
    {
        self.state.is_running = snapshot.is_running;
        if snapshot.is_running {
            self.state.stats = Some(
                ServerStats {
                    active_connections: snapshot.connected_clients as u64,
                    total_uploads: snapshot.files_received,
                    total_bytes_received: snapshot.bytes_received,
                    last_uploaded_file: snapshot.last_file,
                },
            );
        } else {
            self.state.bind_addr = None;
            self.state.stats = None;
        }
    }

    /// The frontend snapshot of the current state.
    pub fn current_snapshot(&self) -> (r: ServerStateSnapshot)
        ensures
            snapshot_view(r) == self.spec_snapshot(),
    {
        if !self.state.is_running {
            return ServerStateSnapshot::new();
        }
        match &self.state.stats {
            Some(st) => ServerStateSnapshot {
                is_running: true,
                connected_clients: st.active_connections as usize,
                files_received: st.total_uploads,
                bytes_received: st.total_bytes_received,
                last_file: clone_opt_string(&st.last_uploaded_file),
            },
            None => ServerStateSnapshot {
                is_running: true,
                connected_clients: 0,
                files_received: 0,
                bytes_received: 0,
                last_file: None,
            },
        }
    }

    /// A copy of the current runtime snapshot.
    pub fn current_runtime_snapshot(&self) -> (r: ServerRuntimeSnapshot)
        ensures
            runtime_view(r) == self.view_state(),
    {
        copy_runtime(&self.state)
    }

    /// The frontend snapshot in terms of the state's value.
    pub closed spec fn spec_snapshot(&self) -> (bool, usize, u64, u64, Option<Seq<char>>) {
        spec_current_snapshot(self.state)
    }

    /// The frontend snapshot is all-default whenever the server is not running.
    pub proof fn lemma_stopped_snapshot(&self)
        ensures
            !self.view_state().1 ==> self.spec_snapshot() == (false, 0usize, 0u64, 0u64, None::<Seq<char>>),
    {
    }
}

// ---------------------------------------------------------------------------
// Start/stop slot
// ---------------------------------------------------------------------------

/// The server slot that serialises concurrent start requests: `Vacant` when no
/// server runs, `Starting` once a start has been claimed, `Running` with the
/// identity of the running server's actor.
#[derive(Debug, Clone, Copy, PartialEq, Eq)]
pub enum FtpServerSlot {
    Vacant,
    Starting,
    Running(u64),
}

/// The slot after a start claim, and whether the claim succeeded: only a
/// vacant slot can be claimed.
pub open spec fn claim_outcome(slot: FtpServerSlot) -> (FtpServerSlot, bool) {
    if slot == FtpServerSlot::Vacant {
        (FtpServerSlot::Starting, true)
    } else {
        (slot, false)
    }
}

/// The slot after a claimed start ends: running with the server's actor
/// identity on success, vacant on failure; a slot no longer `Starting` is
/// left alone.
pub open spec fn finish_outcome(slot: FtpServerSlot, started: Option<u64>) -> FtpServerSlot {
    if slot == FtpServerSlot::Starting {
        match started {
            Some(id) => FtpServerSlot::Running(id),
            None => FtpServerSlot::Vacant,
        }
    } else {
        slot
    }
}

/// The slot after the stop epilogue of the server with actor `stopped`.
pub open spec fn clear_outcome(slot: FtpServerSlot, stopped: u64) -> FtpServerSlot {
    if slot == FtpServerSlot::Running(stopped) {
        FtpServerSlot::Vacant
    } else {
        slot
    }
}

/// Of two start claims in a row, at most one succeeds, whatever the slot
/// held: concurrent start requests yield a single server.
pub proof fn law_single_start_claim(slot: FtpServerSlot)
    ensures
        !(claim_outcome(slot).1 && claim_outcome(claim_outcome(slot).0).1),
{
}

/// A start that fails after its claim leaves the slot vacant again, so a
/// later start can be claimed.
pub proof fn law_failed_start_frees_slot()
    ensures
        finish_outcome(claim_outcome(FtpServerSlot::Vacant).0, None) == FtpServerSlot::Vacant,
        claim_outcome(finish_outcome(claim_outcome(FtpServerSlot::Vacant).0, None)).1,
{
}

/// A started server's stop epilogue frees the slot; the epilogue of another
/// (stale) actor leaves the running server's slot alone.
pub proof fn law_stop_frees_only_own_slot(id: u64, other: u64)
    requires
        id != other,
    ensures
        clear_outcome(finish_outcome(claim_outcome(FtpServerSlot::Vacant).0, Some(id)), id)
            == FtpServerSlot::Vacant,
        clear_outcome(finish_outcome(claim_outcome(FtpServerSlot::Vacant).0, Some(id)), other)
            == FtpServerSlot::Running(id),
{
}

/// The refusal of a save path change while a server is active.
pub open spec fn save_path_locked_message() -> Seq<char> {
    "Cannot change the save path while the FTP server is starting or running; stop the FTP server first"@
}

/// Whether a configuration save changes the save path, and so must consult
/// the server slot; an unchanged path never touches the slot.
pub fn save_path_change_needs_slot(current_save_path: &str, incoming_save_path: &str) -> (r: bool)
    ensures
        r == (current_save_path@ != incoming_save_path@),
{
    !str_eq(current_save_path, incoming_save_path)
}

impl FtpServerSlot {
    /// The running server's actor identity, if a server is running.
    pub fn running_handle(&self) -> (r: Option<u64>)
        ensures
            match *self {
                FtpServerSlot::Running(id) => r == Some(id),
                _ => r is None,
            },
    {
        match self {
            FtpServerSlot::Running(id) => Some(*id),
            _ => None,
        }
    }

    /// Claims the right to start a server (`Vacant` becomes `Starting`); any
    /// other state refuses with `ServerAlreadyRunning` and is left unchanged.
    pub fn claim_start_slot(&mut self) -> (r: Result<(), AppError>)
        ensures
            *final(self) == claim_outcome(*old(self)).0,
            r is Ok == claim_outcome(*old(self)).1,
            *old(self) == FtpServerSlot::Vacant ==> r is Ok && *final(self) == FtpServerSlot::Starting,
            *old(self) != FtpServerSlot::Vacant ==> r == Err::<(), AppError>(AppError::ServerAlreadyRunning)
                && *final(self) == *old(self),
    {
        match self {
            FtpServerSlot::Vacant => {
                *self = FtpServerSlot::Starting;
                Ok(())
            },
            _ => Err(AppError::ServerAlreadyRunning),
        }
    }

    /// Commits a running server, only if the slot is still `Starting`.
    pub fn commit_running_slot(&mut self, handle: u64)
        ensures
            *old(self) == FtpServerSlot::Starting ==> *final(self) == FtpServerSlot::Running(handle),
            *old(self) != FtpServerSlot::Starting ==> *final(self) == *old(self),
    {
        if let FtpServerSlot::Starting = self {
            *self = FtpServerSlot::Running(handle);
        }
    }

    /// Releases a claimed start, only if the slot is still `Starting`.
    pub fn release_start_slot(&mut self)
        ensures
            *old(self) == FtpServerSlot::Starting ==> *final(self) == FtpServerSlot::Vacant,
            *old(self) != FtpServerSlot::Starting ==> *final(self) == *old(self),
    {
        if let FtpServerSlot::Starting = self {
            *self = FtpServerSlot::Vacant;
        }
    }

    /// Ends a claimed start: success commits the running server and returns
    /// the startup context, failure releases the claim and returns the error.
    pub fn finish_claimed_start<T>(&mut self, result: Result<(T, u64), AppError>) -> (r: Result<T, AppError>)
        ensures
            *final(self) == finish_outcome(
                *old(self),
                match result {
                    Ok((_, id)) => Some(id),
                    Err(_) => None,
                },
            ),
            match result {
                Ok((ctx, id)) => r == Ok::<T, AppError>(ctx) && (*old(self) == FtpServerSlot::Starting
                    ==> *final(self) == FtpServerSlot::Running(id)) && (*old(self)
                    != FtpServerSlot::Starting ==> *final(self) == *old(self)),
                Err(e) => r == Err::<T, AppError>(e) && (*old(self) == FtpServerSlot::Starting
                    ==> *final(self) == FtpServerSlot::Vacant) && (*old(self) != FtpServerSlot::Starting
                    ==> *final(self) == *old(self)),
            },
    {
        match result {
            Ok((ctx, id)) => {
                self.commit_running_slot(id);
                Ok(ctx)
            },
            Err(e) => {
                self.release_start_slot();
                Err(e)
            },
        }
    }

    /// A save that changes the save path is refused while a server is
    /// starting or running (stop the server first); it is allowed when the
    /// slot is vacant, and the caller then holds the slot until the change
    /// is persisted.
    pub fn allows_save_path_change(&self) -> (r: Result<(), AppError>)
        ensures
            *self == FtpServerSlot::Vacant ==> r is Ok,
            *self != FtpServerSlot::Vacant ==> (r matches Err(AppError::Other(m)) && m@ == save_path_locked_message()),
    {
        match self {
            FtpServerSlot::Vacant => Ok(()),
            _ => Err(AppError::Other(String::from_str(
                "Cannot change the save path while the FTP server is starting or running; stop the FTP server first",
            ))),
        }
    }

    /// The stop epilogue: resets the slot only when it still holds the
    /// stopped server, and reports whether it did.
    pub fn clear_if_same_actor(&mut self, stopped: u64) -> (r: bool)
        ensures
            *final(self) == clear_outcome(*old(self), stopped),
            r == (*old(self) == FtpServerSlot::Running(stopped)),
            r ==> *final(self) == FtpServerSlot::Vacant,
            !r ==> *final(self) == *old(self),
    {
        match self {
            FtpServerSlot::Running(id) => {
                if *id == stopped {
                    *self = FtpServerSlot::Vacant;
                    true
                } else {
                    false
                }
            },
            _ => false,
        }
    }
}

// ---------------------------------------------------------------------------
// Authentication and connection details
// ---------------------------------------------------------------------------

/// Unicode `White_Space` property (what `char::is_whitespace` tests): tab,
/// line feed, vertical tab, form feed, carriage return, space, U+0085,
/// U+00A0, U+1680, U+2000 to U+200A, U+2028, U+2029, U+202F, U+205F and U+3000.
pub open spec fn unicode_whitespace(c: char) -> bool {
    let u = c as u32;
    (9 <= u <= 13) || u == 0x20 || u == 0x85 || u == 0xA0 || u == 0x1680 || (0x2000 <= u <= 0x200A) || u
        == 0x2028 || u == 0x2029 || u == 0x202F || u == 0x205F || u == 0x3000
}

/// Whether `c` is Unicode white space.
fn is_whitespace_char(c: char) -> (r: bool)
    ensures
        r == unicode_whitespace(c),
{
    let u = c as u32;
    (9 <= u && u <= 13) || u == 0x20 || u == 0x85 || u == 0xA0 || u == 0x1680 || (0x2000 <= u && u <= 0x200A)
        || u == 0x2028 || u == 0x2029 || u == 0x202F || u == 0x205F || u == 0x3000
}

/// `s` is empty after trimming whitespace: every character is whitespace.
pub open spec fn is_blank(s: Seq<char>) -> bool {
    forall|i: int| 0 <= i < s.len() ==> unicode_whitespace(#[trigger] s[i])
}

/// Whether a string is empty after trimming whitespace.
pub fn blank(s: &str) -> (r: bool)
    ensures
        r == is_blank(s@),
{
    let c = chars_of(s);
    let mut i: usize = 0;
    while i < c.len()
        invariant
            c@ == s@,
            i <= c@.len(),
            forall|j: int| 0 <= j < i ==> unicode_whitespace(#[trigger] c@[j]),
        decreases c@.len() - i,
    {
        if !is_whitespace_char(c[i]) {
            return false;
        }
        i = i + 1;
    }
    true
}

/// FTP authentication: anonymous access, or a user with an Argon2id hash.
#[derive(Debug, Clone)]
pub enum FtpAuthConfig {
    Anonymous,
    Authenticated { username: String, password_hash: String },
}

/// The configured credentials mean anonymous access: anonymous is chosen, or
/// the username is blank, or no password hash is stored.
pub open spec fn spec_should_be_anonymous(auth: AuthConfig) -> bool {
    auth.anonymous || is_blank(auth.username@) || auth.password_hash@.len() == 0
}

impl FtpAuthConfig {
    /// Anonymous access (the default).
    pub fn anonymous() -> (r: FtpAuthConfig)
        ensures
            r is Anonymous,
    {
        FtpAuthConfig::Anonymous
    }

    /// The authentication mode that stored credentials call for.
    pub fn from_auth_config(auth: &AuthConfig) -> (r: FtpAuthConfig)
        ensures
            spec_should_be_anonymous(*auth) ==> r is Anonymous,
            !spec_should_be_anonymous(*auth) ==> r is Authenticated && r->username@ == auth.username@
                && r->password_hash@ == auth.password_hash@,
    {
        let should_be_anonymous = auth.anonymous || blank(auth.username.as_str())
            || auth.password_hash.as_str().unicode_len() == 0;
        if should_be_anonymous {
            FtpAuthConfig::Anonymous
        } else {
            FtpAuthConfig::Authenticated {
                username: auth.username.clone(),
                password_hash: auth.password_hash.clone(),
            }
        }
    }

    /// `(username, password info)` for display: nothing for anonymous access,
    /// else the username and a placeholder for the configured password.
    pub fn to_display_credentials(&self) -> (r: (Option<String>, Option<String>))
        ensures
            match *self {
                FtpAuthConfig::Anonymous => r.0 is None && r.1 is None,
                FtpAuthConfig::Authenticated { username, .. } => opt_view(r.0) == Some(username@)
                    && opt_view(r.1) == Some("(配置密码)"@),
            },
    {
        match self {
            FtpAuthConfig::Anonymous => (None, None),
            FtpAuthConfig::Authenticated { username, .. } => (
                Some(username.clone()),
                Some(String::from_str("(配置密码)")),
            ),
        }
    }
}

/// Connection details shown by the frontend.
#[derive(Debug, Clone)]
pub struct ServerInfo {
    pub is_running: bool,
    pub ip: String,
    pub port: u16,
    pub url: String,
    pub username: String,
    pub password_info: String,
}

impl ServerInfo {
    /// Connection details for a running server: the host normalised to IPv4,
    /// the `ftp://` URL, and defaults for missing credentials
    /// (`anonymous` / `(任意密码)`).
    pub fn new(ip: String, port: u16, username: Option<String>, password_info: Option<String>) -> (r: ServerInfo)
        ensures
            r.is_running,
            r.ip@ == spec_normalize_ipv4_host(ip@),
            r.port == port,
            r.url@ == "ftp://"@ + spec_normalize_ipv4_host(spec_normalize_ipv4_host(ip@)) + ":"@ + decimal(
                port as nat,
            ),
            r.username@ == (match opt_view(username) {
                Some(u) => u,
                None => "anonymous"@,
            }),
            r.password_info@ == (match opt_view(password_info) {
                Some(p) => p,
                None => "(任意密码)"@,
            }),
    {
        let ip = normalize_ipv4_host(ip.as_str());
        let url = format_ipv4_ftp_url(ip.as_str(), port);
        ServerInfo {
            is_running: true,
            ip,
            port,
            url,
            username: match username {
                Some(u) => u,
                None => String::from_str("anonymous"),
            },
            password_info: match password_info {
                Some(p) => p,
                None => String::from_str("(任意密码)"),
            },
        }
    }
}

// ---------------------------------------------------------------------------
// Events
// ---------------------------------------------------------------------------

/// Domain events published on the event bus.
#[derive(Debug, Clone)]
pub enum DomainEvent {
    ServerStarted { bind_addr: String },
    ServerStopped,
    FileUploaded { path: String, size: u64 },
    StatsUpdated(ServerStats),
}

/// Name of an event's type.
pub open spec fn spec_event_type_name(e: DomainEvent) -> Seq<char> {
    match e {
        DomainEvent::ServerStarted { .. } => "ServerStarted"@,
        DomainEvent::ServerStopped => "ServerStopped"@,
        DomainEvent::FileUploaded { .. } => "FileUploaded"@,
        DomainEvent::StatsUpdated(_) => "StatsUpdated"@,
    }
}

/// The name of an event's type.
pub fn event_type_name(event: &DomainEvent) -> (r: &'static str)
    ensures
        r@ == spec_event_type_name(*event),
{
    match event {
        DomainEvent::ServerStarted { .. } => "ServerStarted",
        DomainEvent::ServerStopped => "ServerStopped",
        DomainEvent::FileUploaded { .. } => "FileUploaded",
        DomainEvent::StatsUpdated(_) => "StatsUpdated",
    }
}

/// Whether a handler interested in `interested` (all events when `None`)
/// should receive `event`.
pub fn should_handle(interested: &Option<Vec<&str>>, event: &DomainEvent) -> (r: bool)
    ensures
        match *interested {
            None => r,
            Some(types) => r == exists|i: int|
                0 <= i < types@.len() && (#[trigger] types@[i])@ == spec_event_type_name(*event),
        },
{
    match interested {
        None => true,
        Some(types) => {
            let name = event_type_name(event);
            contains_name(types, name)
        },
    }
}

/// Whether `name` is one of `types`.
fn contains_name(types: &Vec<&str>, name: &str) -> (r: bool)
    ensures
        r == exists|i: int| 0 <= i < types@.len() && (#[trigger] types@[i])@ == name@,
{
    let mut i: usize = 0;
    while i < types.len()
        invariant
            i <= types@.len(),
            forall|j: int| 0 <= j < i ==> (#[trigger] types@[j])@ != name@,
        decreases types@.len() - i,
    {
        if str_eq(types[i], name) {
            return true;
        }
        i = i + 1;
    }
    false
}

/// Equality of two string slices.
pub fn str_eq(a: &str, b: &str) -> (r: bool)
    ensures
        r == (a@ == b@),
{
    let x = chars_of(a);
    let y = chars_of(b);
    crate::image_utils::chars_equal(x.as_slice(), y.as_slice())
}

/// Suppresses repeated statistics: an update is published only when it
/// differs from the last published one (or is the first).
#[derive(Debug)]
pub struct StatsEmitFilter {
    last: Option<ServerStats>,
}

impl StatsEmitFilter {
    /// The last published statistics.
    pub closed spec fn last_view(&self) -> Option<(u64, u64, u64, Option<Seq<char>>)> {
        match self.last {
            Some(s) => Some(stats_view(s)),
            None => None,
        }
    }

    /// Nothing published yet.
    pub fn new() -> (r: StatsEmitFilter)
        ensures
            r.last_view() is None,
    {
        StatsEmitFilter { last: None }
    }

    /// Whether `stats` should be published; when it should, it becomes the
    /// last published statistics.
    pub fn should_emit(&mut self, stats: &ServerStats) -> (r: bool)
        ensures
            r == (old(self).last_view() is None || old(self).last_view() != Some(stats_view(*stats))),
            r ==> final(self).last_view() == Some(stats_view(*stats)),
            !r ==> final(self).last_view() == old(self).last_view(),
    {
        let emit = match &self.last {
            None => true,
            Some(last) => last.has_changed(stats),
        };
        if emit {
            self.last = Some(stats.copy());
        }
        emit
    }
}

/// `bind_addr` split at `:` into exactly two parts.
pub open spec fn spec_parse_bind_addr(bind_addr: Seq<char>) -> (Seq<char>, u16) {
    let parts = split_on(bind_addr, ':');
    if parts.len() == 2 {
        (
            parts[0],
            match parse_u16_spec(parts[1]) {
                Some(p) => p,
                None => 2121,
            },
        )
    } else {
        ("0.0.0.0"@, 2121)
    }
}

/// Splits an `ip:port` bind address; the port defaults to 2121 when it does
/// not parse, and the whole address to `0.0.0.0:2121` unless it has exactly
/// one `:`.
pub fn parse_bind_addr(bind_addr: &str) -> (r: (String, u16))
    ensures
        r.0@ == spec_parse_bind_addr(bind_addr@).0,
        r.1 == spec_parse_bind_addr(bind_addr@).1,
{
    let c = chars_of(bind_addr);
    let parts = crate::network::split_chars(c.as_slice(), ':');
    let ghost views = parts@.map_values(|v: Vec<char>| v@);
    if parts.len() == 2 {
        proof {
            assert(views[0] == parts@[0]@ && views[1] == parts@[1]@);
        }
        let ip = crate::text::string_from_chars(parts[0].as_slice());
        let port = match parse_u16(parts[1].as_slice()) {
            Some(p) => p,
            None => 2121,
        };
        (ip, port)
    } else {
        (String::from_str("0.0.0.0"), 2121)
    }
}

/// How an uploaded file is processed automatically.
#[derive(Debug, Clone, Copy, PartialEq, Eq)]
pub enum UploadedFileKind {
    /// RAW file: indexed, AI-edited and auto color graded.
    RawImage,
    /// Other image (JPEG/HEIF): indexed and AI-edited.
    Image,
    /// Anything else: not processed.
    Other,
}

/// Classifies an uploaded or deleted path by image format.
pub fn classify_uploaded_file(path: &str) -> (r: UploadedFileKind)
    ensures
        spec_is_raw_file(path@) ==> r == UploadedFileKind::RawImage,
        !spec_is_raw_file(path@) && spec_is_supported_image(path@) ==> r == UploadedFileKind::Image,
        !spec_is_supported_image(path@) ==> r == UploadedFileKind::Other,
{
    if is_raw_file(path) {
        UploadedFileKind::RawImage
    } else if is_supported_image(path) {
        UploadedFileKind::Image
    } else {
        UploadedFileKind::Other
    }
}

/// A file operation reported by the FTP server.
#[derive(Debug, Clone)]
pub enum FtpDataEvent {
    Put { path: String, bytes: u64 },
    Got { path: String, bytes: u64 },
    Deleted { path: String },
    MadeDir { path: String },
    RemovedDir { path: String },
    Renamed { from: String, to: String },
}

/// What to do about a file operation: record an upload, run the upload
/// pipeline (with whether the file is RAW), remove a path from the index,
/// ask the media library to refresh.
#[derive(Debug, Clone)]
pub struct DataEventPlan {
    pub record_upload: Option<(String, u64)>,
    pub post_process: Option<bool>,
    pub remove_from_index: Option<String>,
    pub refresh_media: bool,
}

/// The plan for a file operation: every upload is counted, and an uploaded
/// image is processed (RAW files additionally color graded); a deletion is
/// removed from the index, and a deleted image refreshes the media library;
/// downloads, directories and renames are only logged.
pub fn plan_data_event(event: FtpDataEvent) -> (r: DataEventPlan)
    ensures
        match event {
            FtpDataEvent::Put { path, bytes } => (r.record_upload matches Some((p, b)) && p@ == path@ && b
                == bytes) && r.post_process == (if spec_is_supported_image(path@) {
                Some(spec_is_raw_file(path@))
            } else {
                None::<bool>
            }) && r.remove_from_index is None && !r.refresh_media,
            FtpDataEvent::Deleted { path } => r.record_upload is None && r.post_process is None && (
            r.remove_from_index matches Some(p) && p@ == path@) && r.refresh_media
                == spec_is_supported_image(path@),
            _ => r.record_upload is None && r.post_process is None && r.remove_from_index is None
                && !r.refresh_media,
        },
{
    match event {
        FtpDataEvent::Put { path, bytes } => {
            let kind = classify_uploaded_file(path.as_str());
            let post_process = match kind {
                UploadedFileKind::RawImage => Some(true),
                UploadedFileKind::Image => Some(false),
                UploadedFileKind::Other => None,
            };
            DataEventPlan {
                record_upload: Some((path, bytes)),
                post_process,
                remove_from_index: None,
                refresh_media: false,
            }
        },
        FtpDataEvent::Deleted { path } => {
            let is_image = match classify_uploaded_file(path.as_str()) {
                UploadedFileKind::Other => false,
                _ => true,
            };
            DataEventPlan {
                record_upload: None,
                post_process: None,
                remove_from_index: Some(path),
                refresh_media: is_image,
            }
        },
        _ => DataEventPlan { record_upload: None, post_process: None, remove_from_index: None, refresh_media: false },
    }
}

/// The steps of the upload pipeline for an uploaded image.
#[derive(Debug, Clone, Copy, PartialEq, Eq)]
pub struct PutPipelineSteps {
    /// Add the file to the index.
    pub index: bool,
    /// Add it once more after a delay (so that EXIF can be backfilled).
    pub delayed_reindex: bool,
    /// Offer it to automatic AI editing.
    pub ai_edit: bool,
    /// Offer it to automatic color grading.
    pub color_grade: bool,
    /// Open it in the preview (desktop only).
    pub auto_open: bool,
}

/// The pipeline: a file that never became ready is indexed best-effort,
/// re-indexed later, and gets no post-processing; a ready file is indexed,
/// offered to AI editing, to color grading when RAW, and opened on the
/// desktop.
pub fn put_pipeline_steps(file_ready: bool, is_raw: bool, desktop: bool) -> (r: PutPipelineSteps)
    ensures
        r.index,
        r.delayed_reindex == !file_ready,
        r.ai_edit == file_ready,
        r.color_grade == (file_ready && is_raw),
        r.auto_open == (file_ready && desktop),
{
    if !file_ready {
        return PutPipelineSteps { index: true, delayed_reindex: true, ai_edit: false, color_grade: false, auto_open: false };
    }
    PutPipelineSteps { index: true, delayed_reindex: false, ai_edit: true, color_grade: is_raw, auto_open: desktop }
}

/// The FTP port on the desktop when the advanced connection mode is off.
pub const DEFAULT_FTP_PORT_WINDOWS: u16 = 21;

/// The FTP port on Android when the advanced connection mode is off.
pub const DEFAULT_FTP_PORT_ANDROID: u16 = 2121;

/// The port the server asks for: the configured one in advanced connection
/// mode, else the platform's default.
pub fn requested_port(config: &AppConfig, platform_default: u16) -> (r: u16)
    ensures
        r == (if config.advanced_connection.enabled { config.port } else { platform_default }),
{
    if config.advanced_connection.enabled {
        config.port
    } else {
        platform_default
    }
}

/// The port the server binds: the requested one when free; else, with
/// automatic selection, the free port found by the search, and
/// `NoAvailablePort` when none was found or automatic selection is off.
pub fn choose_port(requested: u16, requested_free: bool, auto_select: bool, found: Option<u16>) -> (r: Result<
    u16,
    AppError,
>)
    ensures
        requested_free ==> r == Ok::<u16, AppError>(requested),
        !requested_free && auto_select && found is Some ==> r == Ok::<u16, AppError>(found->0),
        !requested_free && (!auto_select || found is None) ==> r == Err::<u16, AppError>(
            AppError::NoAvailablePort,
        ),
{
    if requested_free {
        Ok(requested)
    } else if auto_select {
        match found {
            Some(p) => Ok(p),
            None => Err(AppError::NoAvailablePort),
        }
    } else {
        Err(AppError::NoAvailablePort)
    }
}

/// The authentication of the server: the configured credentials in
/// advanced connection mode, else anonymous access.
pub fn server_auth(config: &AppConfig) -> (r: FtpAuthConfig)
    ensures
        !config.advanced_connection.enabled ==> r is Anonymous,
        config.advanced_connection.enabled ==> (spec_should_be_anonymous(config.advanced_connection.auth)
            ==> r is Anonymous) && (!spec_should_be_anonymous(config.advanced_connection.auth) ==> r is Authenticated
            && r->username@ == config.advanced_connection.auth.username@ && r->password_hash@
            == config.advanced_connection.auth.password_hash@),
{
    if config.advanced_connection.enabled {
        FtpAuthConfig::from_auth_config(&config.advanced_connection.auth)
    } else {
        FtpAuthConfig::anonymous()
    }
}

/// The address the server advertises; `NoNetworkInterface` when there is
/// none.
pub fn require_ip(ip: Option<String>) -> (r: Result<String, AppError>)
    ensures
        match ip {
            Some(s) => r == Ok::<String, AppError>(s),
            None => r == Err::<String, AppError>(AppError::NoNetworkInterface),
        },
{
    match ip {
        Some(s) => Ok(s),
        None => Err(AppError::NoNetworkInterface),
    }
}

/// The client count last shown in the tray: the tray is updated only when
/// the count changes, and reset to zero when the server stops.
#[derive(Debug)]
pub struct TrayCountTracker {
    last_client_count: u32,
}

impl TrayCountTracker {
    /// The count last shown.
    pub closed spec fn shown(&self) -> u32 {
        self.last_client_count
    }

    /// Nothing shown yet (zero).
    pub fn new() -> (r: TrayCountTracker)
        ensures
            r.shown() == 0,
    {
        TrayCountTracker { last_client_count: 0 }
    }

    /// New statistics: the count to show, when it changed.
    pub fn on_stats(&mut self, client_count: u32) -> (r: Option<u32>)
        ensures
            client_count != old(self).shown() ==> r == Some(client_count),
            client_count == old(self).shown() ==> r is None,
            final(self).shown() == client_count,
    {
        if client_count != self.last_client_count {
            self.last_client_count = client_count;
            Some(client_count)
        } else {
            None
        }
    }

    /// The server stopped: show zero.
    pub fn on_stopped(&mut self) -> (r: u32)
        ensures
            r == 0,
            final(self).shown() == 0,
    {
        self.last_client_count = 0;
        0
    }
}

/// Errors of the FTP module: a failed bind, or another I/O failure (kept as
/// its class and message).
#[derive(Debug, Clone, PartialEq, Eq)]
pub enum FtpError {
    BindFailed { addr: String, source_class: IoErrorClass, source_message: String },
    Io { class: IoErrorClass, message: String },
}

impl FtpError {
    /// The error's message (what `Display` shows).
    pub fn message(&self) -> (r: String)
        ensures
            match *self {
                FtpError::BindFailed { addr, source_message, .. } => r@ == "绑定地址失败 "@ + addr@ + ": "@
                    + source_message@,
                FtpError::Io { message, .. } => r@ == "IO错误: "@ + message@,
            },
    {
        match self {
            FtpError::BindFailed { addr, source_message, .. } => {
                let s = String::from_str("绑定地址失败 ");
                let s = s.concat(addr.as_str());
                let s = s.concat(": ");
                s.concat(source_message.as_str())
            },
            FtpError::Io { message, .. } => {
                let s = String::from_str("IO错误: ");
                s.concat(message.as_str())
            },
        }
    }

    /// The application error it becomes: a failed bind is a network error
    /// naming the address; an I/O failure converts as I/O errors do.
    pub fn to_app_error(self) -> (r: AppError)
        ensures
            match self {
                FtpError::BindFailed { addr, source_message, .. } => r matches AppError::NetworkError(m) && m@
                    == "Failed to bind to "@ + addr@ + ": "@ + source_message@,
                FtpError::Io { class, message } => crate::error::io_conversion(class, message@, r),
            },
    {
        match self {
            FtpError::BindFailed { addr, source_message, .. } => {
                let s = String::from_str("Failed to bind to ");
                let s = s.concat(addr.as_str());
                let s = s.concat(": ");
                AppError::NetworkError(s.concat(source_message.as_str()))
            },
            FtpError::Io { class, message } => AppError::from_io_parts(class, message),
        }
    }
}

} // verus!
