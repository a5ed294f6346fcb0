//! Persisted sandbox state.
//!
//! A `SandboxState` is the flat record of a capability set that is written
//! out for diagnostics and read back. Reading it back re-validates every path
//! through the same resolution that fresh capabilities go through, so that a
//! crafted record cannot smuggle in paths that never passed validation.
use crate::capability::{
    access_mode_name, fs_caps_view, network_mode_blocks,
    platform_rule_error, platform_rule_is_valid, port_range_error, port_range_is_valid,
    socket_caps_view, socket_mode_name, strings_view, AccessMode, CapabilitySet,
    CapabilitySetView, FsCapability, FsCapabilityView, IpcMode, NetworkMode, NetworkModeView,
    ProcessInfoMode, SignalMode, SocketScope, UnixSocketCapability, UnixSocketCapabilityView,
    UnixSocketMode, copy_port_ranges, copy_ports, copy_strings,
};
use crate::error::{NonoError, NonoErrorView};
use crate::path::{paths_equal, same_path};
use crate::resource::ResourceLimits;
use vstd::prelude::*;

verus! {

// ---- Which fields are left out when the state is written ----

/// Whether a flag holds its default, `false`.
pub fn is_false(b: &bool) -> (r: bool)
    ensures
        r == !*b,
{
    !*b
}

/// Whether a signal mode is the default, `Isolated`.
pub fn is_signal_default(m: &SignalMode) -> (r: bool)
    ensures
        r == (*m == SignalMode::Isolated),
{
    *m == SignalMode::Isolated
}

/// Whether a process inspection mode is the default, `Isolated`.
pub fn is_process_info_default(m: &ProcessInfoMode) -> (r: bool)
    ensures
        r == (*m == ProcessInfoMode::Isolated),
{
    *m == ProcessInfoMode::Isolated
}

/// Whether an IPC mode is the default, `SharedMemoryOnly`.
pub fn is_ipc_default(m: &IpcMode) -> (r: bool)
    ensures
        r == (*m == IpcMode::SharedMemoryOnly),
{
    *m == IpcMode::SharedMemoryOnly
}

// ---- The persisted records ----

/// The persisted form of a filesystem capability.
#[derive(Debug, Clone)]
pub struct FsCapState {
    /// Original path as specified.
    pub original: String,
    /// Resolved canonical path.
    pub resolved: String,
    /// Access mode: "read", "write" or "read+write".
    pub access: String,
    /// Whether this is a file (vs directory).
    pub is_file: bool,
}

/// A persisted filesystem capability with its strings as character sequences.
pub struct FsCapStateView {
    pub original: Seq<char>,
    pub resolved: Seq<char>,
    pub access: Seq<char>,
    pub is_file: bool,
}

impl View for FsCapState {
    type V = FsCapStateView;

    open spec fn view(&self) -> FsCapStateView {
        FsCapStateView {
            original: self.original@,
            resolved: self.resolved@,
            access: self.access@,
            is_file: self.is_file,
        }
    }
}

/// The persisted form of an AF_UNIX socket capability.
#[derive(Debug, Clone)]
pub struct UnixSocketCapState {
    /// Original path as specified.
    pub original: String,
    /// Resolved canonical path.
    pub resolved: String,
    /// Path matching scope for this socket grant.
    pub scope: Option<SocketScope>,
    /// Legacy field from before the scope was recorded.
    pub is_directory: Option<bool>,
    /// Mode: "connect" or "connect+bind".
    pub mode: String,
}

/// A persisted socket capability with its strings as character sequences.
pub struct UnixSocketCapStateView {
    pub original: Seq<char>,
    pub resolved: Seq<char>,
    pub scope: Option<SocketScope>,
    pub is_directory: Option<bool>,
    pub mode: Seq<char>,
}

impl View for UnixSocketCapState {
    type V = UnixSocketCapStateView;

    open spec fn view(&self) -> UnixSocketCapStateView {
        UnixSocketCapStateView {
            original: self.original@,
            resolved: self.resolved@,
            scope: self.scope,
            is_directory: self.is_directory,
            mode: self.mode@,
        }
    }
}

/// The persisted form of a capability set.
#[derive(Debug, Clone)]
pub struct SandboxState {
    /// Filesystem capabilities.
    pub fs: Vec<FsCapState>,
    /// AF_UNIX socket capabilities (absent in states from older builds).
    pub unix_sockets: Vec<UnixSocketCapState>,
    /// Whether the network is blocked (kept for older readers; states without
    /// `network_mode` fall back to it).
    pub net_blocked: bool,
    /// Precise network mode; absent in states from older builds.
    pub network_mode: Option<NetworkMode>,
    /// Whether the implicit DNS resolver grants are disabled.
    pub dns_blocked: bool,
    /// TCP ports that may be connected to.
    pub tcp_connect_ports: Vec<u16>,
    /// TCP ports that may be bound.
    pub tcp_bind_ports: Vec<u16>,
    /// Localhost ports open both ways.
    pub localhost_ports: Vec<u16>,
    /// Localhost port ranges (inclusive) open both ways.
    pub localhost_port_ranges: Vec<(u16, u16)>,
    /// Signal isolation mode.
    pub signal_mode: SignalMode,
    /// Process inspection mode.
    pub process_info_mode: ProcessInfoMode,
    /// IPC mode.
    pub ipc_mode: IpcMode,
    /// Whether sandbox extensions are enabled.
    pub extensions_enabled: bool,
    /// Whether Seatbelt denial logging is enabled.
    pub seatbelt_debug_deny: bool,
    /// Commands explicitly allowed.
    pub allowed_commands: Vec<String>,
    /// Commands explicitly blocked.
    pub blocked_commands: Vec<String>,
    /// Raw platform rules.
    pub platform_rules: Vec<String>,
    /// Resource ceilings; absent in states from older builds.
    pub resource_limits: Option<ResourceLimits>,
}

/// What a persisted state holds.
#[verifier::ext_equal]
pub struct SandboxStateView {
    pub fs: Seq<FsCapStateView>,
    pub unix_sockets: Seq<UnixSocketCapStateView>,
    pub net_blocked: bool,
    pub network_mode: Option<NetworkModeView>,
    pub dns_blocked: bool,
    pub tcp_connect_ports: Seq<u16>,
    pub tcp_bind_ports: Seq<u16>,
    pub localhost_ports: Seq<u16>,
    pub localhost_port_ranges: Seq<(u16, u16)>,
    pub signal_mode: SignalMode,
    pub process_info_mode: ProcessInfoMode,
    pub ipc_mode: IpcMode,
    pub extensions_enabled: bool,
    pub seatbelt_debug_deny: bool,
    pub allowed_commands: Seq<Seq<char>>,
    pub blocked_commands: Seq<Seq<char>>,
    pub platform_rules: Seq<Seq<char>>,
    pub resource_limits: Option<ResourceLimits>,
}

/// The views of a sequence of persisted filesystem capabilities.
pub open spec fn fs_states_view(v: Seq<FsCapState>) -> Seq<FsCapStateView> {
    v.map_values(|s: FsCapState| s@)
}

/// The views of a sequence of persisted socket capabilities.
pub open spec fn socket_states_view(v: Seq<UnixSocketCapState>) -> Seq<UnixSocketCapStateView> {
    v.map_values(|s: UnixSocketCapState| s@)
}

/// The view of an optional network mode.
pub open spec fn network_mode_option_view(m: Option<NetworkMode>) -> Option<NetworkModeView> {
    match m {
        Some(m) => Some(m@),
        None => None,
    }
}

impl View for SandboxState {
    type V = SandboxStateView;

    open spec fn view(&self) -> SandboxStateView {
        SandboxStateView {
            fs: fs_states_view(self.fs@),
            unix_sockets: socket_states_view(self.unix_sockets@),
            net_blocked: self.net_blocked,
            network_mode: network_mode_option_view(self.network_mode),
            dns_blocked: self.dns_blocked,
            tcp_connect_ports: self.tcp_connect_ports@,
            tcp_bind_ports: self.tcp_bind_ports@,
            localhost_ports: self.localhost_ports@,
            localhost_port_ranges: self.localhost_port_ranges@,
            signal_mode: self.signal_mode,
            process_info_mode: self.process_info_mode,
            ipc_mode: self.ipc_mode,
            extensions_enabled: self.extensions_enabled,
            seatbelt_debug_deny: self.seatbelt_debug_deny,
            allowed_commands: strings_view(self.allowed_commands@),
            blocked_commands: strings_view(self.blocked_commands@),
            platform_rules: strings_view(self.platform_rules@),
            resource_limits: self.resource_limits,
        }
    }
}

// ---- Recording a capability set ----

/// The persisted form of one filesystem capability.
pub open spec fn fs_state_of(c: FsCapabilityView) -> FsCapStateView {
    FsCapStateView {
        original: c.original,
        resolved: c.resolved,
        access: access_mode_name(c.access),
        is_file: c.is_file,
    }
}

/// The persisted form of one socket capability: the scope is recorded, the
/// legacy directory flag is not.
pub open spec fn socket_state_of(c: UnixSocketCapabilityView) -> UnixSocketCapStateView {
    UnixSocketCapStateView {
        original: c.original,
        resolved: c.resolved,
        scope: Some(c.scope),
        is_directory: None,
        mode: socket_mode_name(c.mode),
    }
}

/// The persisted form of a capability set. The precise network mode is always
/// recorded, and `net_blocked` beside it says whether that mode blocks direct
/// network access (so a proxy-only set is recorded as blocked for older
/// readers).
pub open spec fn recorded_state(c: CapabilitySetView) -> SandboxStateView {
    SandboxStateView {
        fs: c.fs.map_values(|f: FsCapabilityView| fs_state_of(f)),
        unix_sockets: c.unix_sockets.map_values(|u: UnixSocketCapabilityView| socket_state_of(u)),
        net_blocked: network_mode_blocks(c.network_mode),
        network_mode: Some(c.network_mode),
        dns_blocked: !c.dns_enabled,
        tcp_connect_ports: c.tcp_connect_ports,
        tcp_bind_ports: c.tcp_bind_ports,
        localhost_ports: c.localhost_ports,
        localhost_port_ranges: c.localhost_port_ranges,
        signal_mode: c.signal_mode,
        process_info_mode: c.process_info_mode,
        ipc_mode: c.ipc_mode,
        extensions_enabled: c.extensions_enabled,
        seatbelt_debug_deny: c.seatbelt_debug_deny,
        allowed_commands: c.allowed_commands,
        blocked_commands: c.blocked_commands,
        platform_rules: c.platform_rules,
        resource_limits: c.resource_limits,
    }
}

impl SandboxState {
    /// Create state from a capability set.
    pub fn from_caps(caps: &CapabilitySet) -> (s: Self)
        ensures
            s@ == recorded_state(caps@),
            s.fs.len() == caps@.fs.len(),
            s.unix_sockets.len() == caps@.unix_sockets.len(),
            forall|i: int|
                #![trigger s.fs@[i]]
                0 <= i < caps@.fs.len() ==> {
                    &&& s.fs@[i].original@ == caps@.fs[i].original
                    &&& s.fs@[i].resolved@ == caps@.fs[i].resolved
                    &&& s.fs@[i].is_file == caps@.fs[i].is_file
                },
            forall|i: int|
                #![trigger s.unix_sockets@[i]]
                0 <= i < caps@.unix_sockets.len() ==> {
                    &&& s.unix_sockets@[i].original@ == caps@.unix_sockets[i].original
                    &&& s.unix_sockets@[i].resolved@ == caps@.unix_sockets[i].resolved
                    &&& s.unix_sockets@[i].scope == Some(caps@.unix_sockets[i].scope)
                    &&& s.unix_sockets@[i].is_directory == None::<bool>
                },
            s.net_blocked == !(caps@.network_mode is AllowAll),
            s.dns_blocked == !caps@.dns_enabled,
            s.tcp_connect_ports@ == caps@.tcp_connect_ports,
            s.tcp_bind_ports@ == caps@.tcp_bind_ports,
            s.localhost_ports@ == caps@.localhost_ports,
            s.localhost_port_ranges@ == caps@.localhost_port_ranges,
            s.signal_mode == caps@.signal_mode,
            s.process_info_mode == caps@.process_info_mode,
            s.ipc_mode == caps@.ipc_mode,
            s.extensions_enabled == caps@.extensions_enabled,
            s.seatbelt_debug_deny == caps@.seatbelt_debug_deny,
            s.resource_limits == caps@.resource_limits,
            caps@.wf(),
    {
        let fs_caps = caps.fs_capabilities();
        let mut fs: Vec<FsCapState> = Vec::new();
        let mut i: usize = 0;
        while i < fs_caps.len()
            invariant
                i <= fs_caps.len(),
                fs_caps_view(fs_caps@) == caps@.fs,
                fs_states_view(fs@) == caps@.fs.subrange(0, i as int).map_values(
                    |f: FsCapabilityView| fs_state_of(f),
                ),
            decreases fs_caps.len() - i,
        {
            let cap = &fs_caps[i];
            let st = FsCapState {
                original: cap.original.clone(),
                resolved: cap.resolved.clone(),
                access: cap.access.to_string(),
                is_file: cap.is_file,
            };
            let ghost before = fs@;
            fs.push(st);
            proof {
                assert(caps@.fs[i as int] == fs_caps@[i as int]@);
                assert(fs_states_view(fs@) =~= fs_states_view(before).push(st@));
                assert(caps@.fs.subrange(0, i + 1) =~= caps@.fs.subrange(0, i as int).push(
                    caps@.fs[i as int],
                ));
                assert(caps@.fs.subrange(0, i + 1).map_values(|f: FsCapabilityView| fs_state_of(f))
                    =~= caps@.fs.subrange(0, i as int).map_values(
                    |f: FsCapabilityView| fs_state_of(f),
                ).push(fs_state_of(caps@.fs[i as int])));
            }
            i = i + 1;
        }
        proof {
            assert(caps@.fs.subrange(0, fs_caps.len() as int) =~= caps@.fs);
        }
        let sock_caps = caps.unix_socket_capabilities();
        let mut unix_sockets: Vec<UnixSocketCapState> = Vec::new();
        let mut j: usize = 0;
        while j < sock_caps.len()
            invariant
                j <= sock_caps.len(),
                socket_caps_view(sock_caps@) == caps@.unix_sockets,
                socket_states_view(unix_sockets@) == caps@.unix_sockets.subrange(
                    0,
                    j as int,
                ).map_values(|u: UnixSocketCapabilityView| socket_state_of(u)),
            decreases sock_caps.len() - j,
        {
            let cap = &sock_caps[j];
            let st = UnixSocketCapState {
                original: cap.original.clone(),
                resolved: cap.resolved.clone(),
                scope: Some(cap.scope),
                is_directory: None,
                mode: cap.mode.to_string(),
            };
            let ghost before = unix_sockets@;
            unix_sockets.push(st);
            proof {
                assert(caps@.unix_sockets[j as int] == sock_caps@[j as int]@);
                assert(socket_states_view(unix_sockets@) =~= socket_states_view(before).push(st@));
                assert(caps@.unix_sockets.subrange(0, j + 1) =~= caps@.unix_sockets.subrange(
                    0,
                    j as int,
                ).push(caps@.unix_sockets[j as int]));
                assert(caps@.unix_sockets.subrange(0, j + 1).map_values(
                    |u: UnixSocketCapabilityView| socket_state_of(u),
                ) =~= caps@.unix_sockets.subrange(0, j as int).map_values(
                    |u: UnixSocketCapabilityView| socket_state_of(u),
                ).push(socket_state_of(caps@.unix_sockets[j as int])));
            }
            j = j + 1;
        }
        proof {
            assert(caps@.unix_sockets.subrange(0, sock_caps.len() as int) =~= caps@.unix_sockets);
        }
        let ranges = caps.localhost_port_ranges();
        let rules = caps.platform_rules();
        let s = SandboxState {
            fs,
            unix_sockets,
            net_blocked: caps.is_network_blocked(),
            network_mode: Some(caps.network_mode().clone()),
            dns_blocked: !caps.dns_enabled(),
            tcp_connect_ports: copy_ports(caps.tcp_connect_ports()),
            tcp_bind_ports: copy_ports(caps.tcp_bind_ports()),
            localhost_ports: copy_ports(caps.localhost_ports()),
            localhost_port_ranges: copy_port_ranges(ranges),
            signal_mode: caps.signal_mode(),
            process_info_mode: caps.process_info_mode(),
            ipc_mode: caps.ipc_mode(),
            extensions_enabled: caps.extensions_enabled(),
            seatbelt_debug_deny: caps.seatbelt_debug_deny(),
            allowed_commands: copy_strings(caps.allowed_commands()),
            blocked_commands: copy_strings(caps.blocked_commands()),
            platform_rules: copy_strings(rules),
            resource_limits: caps.resource_limits(),
        };
        proof {
            assert(s@ =~= recorded_state(caps@));
            assert forall|i: int| #![trigger s.fs@[i]] 0 <= i < caps@.fs.len() implies {
                &&& s.fs@[i].original@ == caps@.fs[i].original
                &&& s.fs@[i].resolved@ == caps@.fs[i].resolved
                &&& s.fs@[i].is_file == caps@.fs[i].is_file
            } by {
                assert(s@.fs[i] == s.fs@[i]@);
                assert(s@.fs[i] == fs_state_of(caps@.fs[i]));
            }
            assert forall|i: int| #![trigger s.unix_sockets@[i]] 0 <= i < caps@.unix_sockets.len() implies {
                &&& s.unix_sockets@[i].original@ == caps@.unix_sockets[i].original
                &&& s.unix_sockets@[i].resolved@ == caps@.unix_sockets[i].resolved
                &&& s.unix_sockets@[i].scope == Some(caps@.unix_sockets[i].scope)
                &&& s.unix_sockets@[i].is_directory == None::<bool>
            } by {
                assert(s@.unix_sockets[i] == s.unix_sockets@[i]@);
                assert(s@.unix_sockets[i] == socket_state_of(caps@.unix_sockets[i]));
            }
        }
        s
    }
}

// ---- Restoring a capability set ----

/// The access mode that a persisted name stands for, if any.
pub open spec fn access_mode_named(s: Seq<char>) -> Option<AccessMode> {
    if s == "read"@ {
        Some(AccessMode::Read)
    } else if s == "write"@ {
        Some(AccessMode::Write)
    } else if s == "read+write"@ {
        Some(AccessMode::ReadWrite)
    } else {
        None
    }
}

/// The socket mode that a persisted name stands for, if any.
pub open spec fn socket_mode_named(s: Seq<char>) -> Option<UnixSocketMode> {
    if s == "connect"@ {
        Some(UnixSocketMode::Connect)
    } else if s == "connect+bind"@ {
        Some(UnixSocketMode::ConnectBind)
    } else {
        None
    }
}

/// Reads a persisted access mode name.
pub fn parse_access_mode(s: &String) -> (r: Option<AccessMode>)
    ensures
        r == access_mode_named(s@),
{
    if *s == String::from_str("read") {
        Some(AccessMode::Read)
    } else if *s == String::from_str("write") {
        Some(AccessMode::Write)
    } else if *s == String::from_str("read+write") {
        Some(AccessMode::ReadWrite)
    } else {
        None
    }
}

/// Reads a persisted socket mode name.
pub fn parse_socket_mode(s: &String) -> (r: Option<UnixSocketMode>)
    ensures
        r == socket_mode_named(s@),
{
    if *s == String::from_str("connect") {
        Some(UnixSocketMode::Connect)
    } else if *s == String::from_str("connect+bind") {
        Some(UnixSocketMode::ConnectBind)
    } else {
        None
    }
}

/// The scope a persisted socket grant is restored with: the recorded scope,
/// else (a state from before scopes were recorded) the children of a
/// directory when the legacy flag says it is one, else the file itself.
pub open spec fn scope_of(st: UnixSocketCapStateView) -> SocketScope {
    match st.scope {
        Some(sc) => sc,
        None => if st.is_directory == Some(true) {
            SocketScope::DirChildren
        } else {
            SocketScope::File
        },
    }
}

impl UnixSocketCapState {
    /// The scope this grant is restored with.
    pub fn effective_scope(&self) -> (sc: SocketScope)
        ensures
            sc == scope_of(self@),
    {
        match self.scope {
            Some(sc) => sc,
            None => if self.is_directory == Some(true) {
                SocketScope::DirChildren
            } else {
                SocketScope::File
            },
        }
    }
}

/// The error for a persisted access mode that names none.
pub open spec fn invalid_access_mode_error(other: Seq<char>) -> NonoErrorView {
    NonoErrorView::ConfigParse("invalid access mode in sandbox state: "@ + other)
}

/// The error for a persisted socket mode that names none.
pub open spec fn invalid_socket_mode_error(other: Seq<char>) -> NonoErrorView {
    NonoErrorView::ConfigParse("invalid unix socket mode in sandbox state: "@ + other)
}

/// The error for a socket grant whose path no longer resolves where it did.
pub open spec fn drift_error(serialized: Seq<char>, actual: Seq<char>) -> NonoErrorView {
    NonoErrorView::ConfigParse(
        "unix socket grant canonical path drifted at state reload: serialized resolved="@
            + serialized + ", actual resolved="@ + actual,
    )
}

fn invalid_access_mode(other: &String) -> (e: NonoError)
    ensures
        e@ == invalid_access_mode_error(other@),
{
    NonoError::ConfigParse(
        String::from_str("invalid access mode in sandbox state: ").concat(other.as_str()),
    )
}

fn invalid_socket_mode(other: &String) -> (e: NonoError)
    ensures
        e@ == invalid_socket_mode_error(other@),
{
    NonoError::ConfigParse(
        String::from_str("invalid unix socket mode in sandbox state: ").concat(other.as_str()),
    )
}

fn drifted(serialized: &String, actual: &String) -> (e: NonoError)
    ensures
        e@ == drift_error(serialized@, actual@),
{
    NonoError::ConfigParse(
        String::from_str(
            "unix socket grant canonical path drifted at state reload: serialized resolved=",
        ).concat(serialized.as_str()).concat(", actual resolved=").concat(actual.as_str()),
    )
}

/// What resolving a persisted path gave: the canonical path, or why there is none.
pub open spec fn resolution_view(r: Result<String, NonoError>) -> Result<Seq<char>, NonoErrorView> {
    match r {
        Ok(p) => Ok(p@),
        Err(e) => Err(e@),
    }
}

/// The views of a sequence of resolutions.
pub open spec fn resolutions_view(v: Seq<Result<String, NonoError>>) -> Seq<
    Result<Seq<char>, NonoErrorView>,
> {
    v.map_values(|r: Result<String, NonoError>| resolution_view(r))
}

/// One persisted filesystem capability restored, given what resolving its
/// path gave: its access mode must name one, then its path must resolve.
pub open spec fn restored_fs_cap(
    st: FsCapStateView,
    res: Result<Seq<char>, NonoErrorView>,
) -> Result<FsCapabilityView, NonoErrorView> {
    match access_mode_named(st.access) {
        None => Err(invalid_access_mode_error(st.access)),
        Some(access) => match res {
            Err(e) => Err(e),
            Ok(resolved) => Ok(
                FsCapabilityView { original: st.original, resolved, access, is_file: st.is_file },
            ),
        },
    }
}

/// One persisted socket capability restored, given what resolving its path
/// gave: its mode must name one, its path must resolve, and it must resolve
/// to the path that was recorded (the same path by components; the restored
/// grant keeps the path it resolves to now).
pub open spec fn restored_socket_cap(
    st: UnixSocketCapStateView,
    res: Result<Seq<char>, NonoErrorView>,
) -> Result<UnixSocketCapabilityView, NonoErrorView> {
    match socket_mode_named(st.mode) {
        None => Err(invalid_socket_mode_error(st.mode)),
        Some(mode) => match res {
            Err(e) => Err(e),
            Ok(resolved) => if !same_path(resolved, st.resolved) {
                Err(drift_error(st.resolved, resolved))
            } else {
                Ok(
                    UnixSocketCapabilityView {
                        original: st.original,
                        resolved,
                        scope: scope_of(st),
                        mode,
                    },
                )
            },
        },
    }
}

/// The first `n` persisted filesystem capabilities restored in order; the
/// first that fails gives the error.
pub open spec fn restored_fs_caps(
    st: Seq<FsCapStateView>,
    res: Seq<Result<Seq<char>, NonoErrorView>>,
    n: nat,
) -> Result<Seq<FsCapabilityView>, NonoErrorView>
    decreases n,
{
    if n == 0 {
        Ok(Seq::empty())
    } else {
        match restored_fs_caps(st, res, (n - 1) as nat) {
            Err(e) => Err(e),
            Ok(done) => match restored_fs_cap(st[n - 1], res[n - 1]) {
                Err(e) => Err(e),
                Ok(c) => Ok(done.push(c)),
            },
        }
    }
}

/// The first `n` persisted socket capabilities restored in order; the first
/// that fails gives the error.
pub open spec fn restored_socket_caps(
    st: Seq<UnixSocketCapStateView>,
    res: Seq<Result<Seq<char>, NonoErrorView>>,
    n: nat,
) -> Result<Seq<UnixSocketCapabilityView>, NonoErrorView>
    decreases n,
{
    if n == 0 {
        Ok(Seq::empty())
    } else {
        match restored_socket_caps(st, res, (n - 1) as nat) {
            Err(e) => Err(e),
            Ok(done) => match restored_socket_cap(st[n - 1], res[n - 1]) {
                Err(e) => Err(e),
                Ok(c) => Ok(done.push(c)),
            },
        }
    }
}

/// Whether every port range of a sequence is accepted.
pub open spec fn all_port_ranges_valid(r: Seq<(u16, u16)>) -> bool {
    forall|i: int| 0 <= i < r.len() ==> #[trigger] port_range_is_valid(r[i])
}

/// Whether every platform rule of a sequence is accepted.
pub open spec fn all_platform_rules_valid(r: Seq<Seq<char>>) -> bool {
    forall|i: int| 0 <= i < r.len() ==> #[trigger] platform_rule_is_valid(r[i])
}

/// The network mode a persisted state is restored with: the precise mode
/// where one was recorded, else (a state from an older build) `Blocked` or
/// `AllowAll` as `net_blocked` says.
pub open spec fn restored_network_mode(s: SandboxStateView) -> NetworkModeView {
    match s.network_mode {
        Some(m) => m,
        None => if s.net_blocked {
            NetworkModeView::Blocked
        } else {
            NetworkModeView::AllowAll
        },
    }
}

/// A persisted state restored, given what resolving each filesystem path and
/// each socket path gave. The filesystem capabilities are restored first, then
/// the sockets, then the port ranges and last the platform rules are checked:
/// the first failure gives the error.
pub open spec fn restored_caps(
    s: SandboxStateView,
    fs_res: Seq<Result<Seq<char>, NonoErrorView>>,
    socket_res: Seq<Result<Seq<char>, NonoErrorView>>,
) -> Result<CapabilitySetView, NonoErrorView> {
    match restored_fs_caps(s.fs, fs_res, s.fs.len()) {
        Err(e) => Err(e),
        Ok(fs) => match restored_socket_caps(s.unix_sockets, socket_res, s.unix_sockets.len()) {
            Err(e) => Err(e),
            Ok(unix_sockets) => if !all_port_ranges_valid(s.localhost_port_ranges) {
                Err(port_range_error())
            } else if !all_platform_rules_valid(s.platform_rules) {
                Err(platform_rule_error())
            } else {
                Ok(
                    CapabilitySetView {
                        fs,
                        unix_sockets,
                        network_mode: restored_network_mode(s),
                        dns_enabled: !s.dns_blocked,
                        tcp_connect_ports: s.tcp_connect_ports,
                        tcp_bind_ports: s.tcp_bind_ports,
                        localhost_ports: s.localhost_ports,
                        localhost_port_ranges: s.localhost_port_ranges,
                        signal_mode: s.signal_mode,
                        process_info_mode: s.process_info_mode,
                        ipc_mode: s.ipc_mode,
                        extensions_enabled: s.extensions_enabled,
                        seatbelt_debug_deny: s.seatbelt_debug_deny,
                        allowed_commands: s.allowed_commands,
                        blocked_commands: s.blocked_commands,
                        platform_rules: s.platform_rules,
                        resource_limits: s.resource_limits,
                    },
                )
            },
        },
    }
}

/// The view of a restored filesystem capability or its error.
pub open spec fn fs_cap_result_view(r: Result<FsCapability, NonoError>) -> Result<
    FsCapabilityView,
    NonoErrorView,
> {
    match r {
        Ok(c) => Ok(c@),
        Err(e) => Err(e@),
    }
}

/// The view of a restored socket capability or its error.
pub open spec fn socket_cap_result_view(r: Result<UnixSocketCapability, NonoError>) -> Result<
    UnixSocketCapabilityView,
    NonoErrorView,
> {
    match r {
        Ok(c) => Ok(c@),
        Err(e) => Err(e@),
    }
}

/// The view of a restored capability set or its error.
pub open spec fn caps_result_view(r: Result<CapabilitySet, NonoError>) -> Result<
    CapabilitySetView,
    NonoErrorView,
> {
    match r {
        Ok(c) => Ok(c@),
        Err(e) => Err(e@),
    }
}

fn resolved_path(res: &Result<String, NonoError>) -> (r: Result<String, NonoError>)
    ensures
        resolution_view(r) == resolution_view(*res),
{
    match res {
        Ok(p) => Ok(p.clone()),
        Err(e) => Err(e.clone()),
    }
}

/// Restores one persisted filesystem capability, given what resolving its
/// path gave.
pub fn restore_fs_cap(st: &FsCapState, res: &Result<String, NonoError>) -> (r: Result<
    FsCapability,
    NonoError,
>)
    ensures
        fs_cap_result_view(r) == restored_fs_cap(st@, resolution_view(*res)),
{
    let access = match parse_access_mode(&st.access) {
        Some(a) => a,
        None => {
            return Err(invalid_access_mode(&st.access));
        },
    };
    match resolved_path(res) {
        Err(e) => Err(e),
        Ok(resolved) => Ok(
            FsCapability { original: st.original.clone(), resolved, access, is_file: st.is_file },
        ),
    }
}

/// Restores one persisted socket capability, given what resolving its path
/// gave; a path that now resolves elsewhere than recorded is refused.
pub fn restore_socket_cap(st: &UnixSocketCapState, res: &Result<String, NonoError>) -> (r: Result<
    UnixSocketCapability,
    NonoError,
>)
    ensures
        socket_cap_result_view(r) == restored_socket_cap(st@, resolution_view(*res)),
{
    let mode = match parse_socket_mode(&st.mode) {
        Some(m) => m,
        None => {
            return Err(invalid_socket_mode(&st.mode));
        },
    };
    let scope = st.effective_scope();
    match resolved_path(res) {
        Err(e) => Err(e),
        Ok(resolved) => {
            if !paths_equal(&resolved, &st.resolved) {
                return Err(drifted(&st.resolved, &resolved));
            }
            Ok(UnixSocketCapability { original: st.original.clone(), resolved, scope, mode })
        },
    }
}

proof fn lemma_fs_failure_persists(
    st: Seq<FsCapStateView>,
    res: Seq<Result<Seq<char>, NonoErrorView>>,
    n: nat,
    m: nat,
)
    requires
        n <= m,
        restored_fs_caps(st, res, n) is Err,
    ensures
        restored_fs_caps(st, res, m) == restored_fs_caps(st, res, n),
    decreases m,
{
    if m > n {
        lemma_fs_failure_persists(st, res, n, (m - 1) as nat);
    }
}

proof fn lemma_socket_failure_persists(
    st: Seq<UnixSocketCapStateView>,
    res: Seq<Result<Seq<char>, NonoErrorView>>,
    n: nat,
    m: nat,
)
    requires
        n <= m,
        restored_socket_caps(st, res, n) is Err,
    ensures
        restored_socket_caps(st, res, m) == restored_socket_caps(st, res, n),
    decreases m,
{
    if m > n {
        lemma_socket_failure_persists(st, res, n, (m - 1) as nat);
    }
}

/// Restores the persisted filesystem capabilities in order into `caps`.
fn restore_fs_caps(
    caps: &mut CapabilitySet,
    states: &Vec<FsCapState>,
    res: &Vec<Result<String, NonoError>>,
) -> (r: Result<(), NonoError>)
    requires
        res.len() == states.len(),
    ensures
        match restored_fs_caps(fs_states_view(states@), resolutions_view(res@), states.len() as nat) {
            Ok(v) => r is Ok && final(caps)@ == (CapabilitySetView {
                fs: old(caps)@.fs + v,
                ..old(caps)@
            }),
            Err(e) => r is Err && r->Err_0@ == e,
        },
{
    let ghost start = caps@;
    let ghost sv = fs_states_view(states@);
    let ghost rv = resolutions_view(res@);
    let mut i: usize = 0;
    while i < states.len()
        invariant
            i <= states.len(),
            res.len() == states.len(),
            sv == fs_states_view(states@),
            rv == resolutions_view(res@),
            restored_fs_caps(sv, rv, i as nat) is Ok,
            caps@ == (CapabilitySetView {
                fs: start.fs + restored_fs_caps(sv, rv, i as nat)->Ok_0,
                ..start
            }),
        decreases states.len() - i,
    {
        let ghost done = restored_fs_caps(sv, rv, i as nat)->Ok_0;
        proof {
            assert(sv[i as int] == states@[i as int]@);
            assert(rv[i as int] == resolution_view(res@[i as int]));
        }
        match restore_fs_cap(&states[i], &res[i]) {
            Err(e) => {
                proof {
                    lemma_fs_failure_persists(sv, rv, (i + 1) as nat, states.len() as nat);
                }
                return Err(e);
            },
            Ok(cap) => {
                let ghost cv = cap@;
                caps.add_fs(cap);
                proof {
                    assert(start.fs + done.push(cv) =~= (start.fs + done).push(cv));
                }
            },
        }
        i = i + 1;
    }
    Ok(())
}

/// Restores the persisted socket capabilities in order into `caps`.
fn restore_socket_caps(
    caps: &mut CapabilitySet,
    states: &Vec<UnixSocketCapState>,
    res: &Vec<Result<String, NonoError>>,
) -> (r: Result<(), NonoError>)
    requires
        res.len() == states.len(),
    ensures
        match restored_socket_caps(
            socket_states_view(states@),
            resolutions_view(res@),
            states.len() as nat,
        ) {
            Ok(v) => r is Ok && final(caps)@ == (CapabilitySetView {
                unix_sockets: old(caps)@.unix_sockets + v,
                ..old(caps)@
            }),
            Err(e) => r is Err && r->Err_0@ == e,
        },
{
    let ghost start = caps@;
    let ghost sv = socket_states_view(states@);
    let ghost rv = resolutions_view(res@);
    let mut i: usize = 0;
    while i < states.len()
        invariant
            i <= states.len(),
            res.len() == states.len(),
            sv == socket_states_view(states@),
            rv == resolutions_view(res@),
            restored_socket_caps(sv, rv, i as nat) is Ok,
            caps@ == (CapabilitySetView {
                unix_sockets: start.unix_sockets + restored_socket_caps(sv, rv, i as nat)->Ok_0,
                ..start
            }),
        decreases states.len() - i,
    {
        let ghost done = restored_socket_caps(sv, rv, i as nat)->Ok_0;
        proof {
            assert(sv[i as int] == states@[i as int]@);
            assert(rv[i as int] == resolution_view(res@[i as int]));
        }
        match restore_socket_cap(&states[i], &res[i]) {
            Err(e) => {
                proof {
                    lemma_socket_failure_persists(sv, rv, (i + 1) as nat, states.len() as nat);
                }
                return Err(e);
            },
            Ok(cap) => {
                let ghost cv = cap@;
                caps.add_unix_socket(cap);
                proof {
                    assert(start.unix_sockets + done.push(cv) =~= (start.unix_sockets + done).push(
                        cv,
                    ));
                }
            },
        }
        i = i + 1;
    }
    Ok(())
}

/// Adds the TCP ports that may be connected to, in order.
fn add_tcp_connect_ports(caps: &mut CapabilitySet, ports: &Vec<u16>)
    ensures
        final(caps)@ == (CapabilitySetView {
            tcp_connect_ports: old(caps)@.tcp_connect_ports + ports@,
            ..old(caps)@
        }),
{
    let ghost start = caps@;
    let mut i: usize = 0;
    while i < ports.len()
        invariant
            i <= ports.len(),
            caps@ == (CapabilitySetView {
                tcp_connect_ports: start.tcp_connect_ports + ports@.subrange(0, i as int),
                ..start
            }),
        decreases ports.len() - i,
    {
        caps.add_tcp_connect_port(ports[i]);
        proof {
            assert(start.tcp_connect_ports + ports@.subrange(0, i + 1) =~= (start.tcp_connect_ports
                + ports@.subrange(0, i as int)).push(ports@[i as int]));
        }
        i = i + 1;
    }
    proof {
        assert(ports@.subrange(0, ports.len() as int) =~= ports@);
    }
}

/// Adds the TCP ports that may be bound, in order.
fn add_tcp_bind_ports(caps: &mut CapabilitySet, ports: &Vec<u16>)
    ensures
        final(caps)@ == (CapabilitySetView {
            tcp_bind_ports: old(caps)@.tcp_bind_ports + ports@,
            ..old(caps)@
        }),
{
    let ghost start = caps@;
    let mut i: usize = 0;
    while i < ports.len()
        invariant
            i <= ports.len(),
            caps@ == (CapabilitySetView {
                tcp_bind_ports: start.tcp_bind_ports + ports@.subrange(0, i as int),
                ..start
            }),
        decreases ports.len() - i,
    {
        caps.add_tcp_bind_port(ports[i]);
        proof {
            assert(start.tcp_bind_ports + ports@.subrange(0, i + 1) =~= (start.tcp_bind_ports
                + ports@.subrange(0, i as int)).push(ports@[i as int]));
        }
        i = i + 1;
    }
    proof {
        assert(ports@.subrange(0, ports.len() as int) =~= ports@);
    }
}

/// Adds the localhost ports, in order.
fn add_localhost_ports(caps: &mut CapabilitySet, ports: &Vec<u16>)
    ensures
        final(caps)@ == (CapabilitySetView {
            localhost_ports: old(caps)@.localhost_ports + ports@,
            ..old(caps)@
        }),
{
    let ghost start = caps@;
    let mut i: usize = 0;
    while i < ports.len()
        invariant
            i <= ports.len(),
            caps@ == (CapabilitySetView {
                localhost_ports: start.localhost_ports + ports@.subrange(0, i as int),
                ..start
            }),
        decreases ports.len() - i,
    {
        caps.add_localhost_port(ports[i]);
        proof {
            assert(start.localhost_ports + ports@.subrange(0, i + 1) =~= (start.localhost_ports
                + ports@.subrange(0, i as int)).push(ports@[i as int]));
        }
        i = i + 1;
    }
    proof {
        assert(ports@.subrange(0, ports.len() as int) =~= ports@);
    }
}

/// Adds the allowed commands, in order.
fn add_allowed_commands(caps: &mut CapabilitySet, cmds: &Vec<String>)
    ensures
        final(caps)@ == (CapabilitySetView {
            allowed_commands: old(caps)@.allowed_commands + strings_view(cmds@),
            ..old(caps)@
        }),
{
    let ghost start = caps@;
    let mut i: usize = 0;
    while i < cmds.len()
        invariant
            i <= cmds.len(),
            caps@ == (CapabilitySetView {
                allowed_commands: start.allowed_commands + strings_view(cmds@.subrange(0, i as int)),
                ..start
            }),
        decreases cmds.len() - i,
    {
        caps.add_allowed_command(cmds[i].clone());
        proof {
            assert(strings_view(cmds@.subrange(0, i + 1)) =~= strings_view(
                cmds@.subrange(0, i as int),
            ).push(cmds@[i as int]@));
            assert(start.allowed_commands + strings_view(cmds@.subrange(0, i + 1)) =~= (start.allowed_commands
                + strings_view(cmds@.subrange(0, i as int))).push(cmds@[i as int]@));
        }
        i = i + 1;
    }
    proof {
        assert(cmds@.subrange(0, cmds.len() as int) =~= cmds@);
    }
}

/// Adds the blocked commands, in order.
fn add_blocked_commands(caps: &mut CapabilitySet, cmds: &Vec<String>)
    ensures
        final(caps)@ == (CapabilitySetView {
            blocked_commands: old(caps)@.blocked_commands + strings_view(cmds@),
            ..old(caps)@
        }),
{
    let ghost start = caps@;
    let mut i: usize = 0;
    while i < cmds.len()
        invariant
            i <= cmds.len(),
            caps@ == (CapabilitySetView {
                blocked_commands: start.blocked_commands + strings_view(cmds@.subrange(0, i as int)),
                ..start
            }),
        decreases cmds.len() - i,
    {
        caps.add_blocked_command(cmds[i].clone());
        proof {
            assert(strings_view(cmds@.subrange(0, i + 1)) =~= strings_view(
                cmds@.subrange(0, i as int),
            ).push(cmds@[i as int]@));
            assert(start.blocked_commands + strings_view(cmds@.subrange(0, i + 1)) =~= (start.blocked_commands
                + strings_view(cmds@.subrange(0, i as int))).push(cmds@[i as int]@));
        }
        i = i + 1;
    }
    proof {
        assert(cmds@.subrange(0, cmds.len() as int) =~= cmds@);
    }
}

/// Adds the localhost port ranges in order; the first refused range stops it.
fn add_port_ranges(caps: &mut CapabilitySet, ranges: &Vec<(u16, u16)>) -> (r: Result<
    (),
    NonoError,
>)
    ensures
        all_port_ranges_valid(ranges@) ==> r is Ok && final(caps)@ == (CapabilitySetView {
            localhost_port_ranges: old(caps)@.localhost_port_ranges + ranges@,
            ..old(caps)@
        }),
        !all_port_ranges_valid(ranges@) ==> r is Err && r->Err_0@ == port_range_error(),
{
    let ghost start = caps@;
    let mut i: usize = 0;
    while i < ranges.len()
        invariant
            i <= ranges.len(),
            forall|j: int| 0 <= j < i ==> #[trigger] port_range_is_valid(ranges@[j]),
            caps@ == (CapabilitySetView {
                localhost_port_ranges: start.localhost_port_ranges + ranges@.subrange(0, i as int),
                ..start
            }),
        decreases ranges.len() - i,
    {
        let (lo, hi) = ranges[i];
        match caps.add_localhost_port_range(lo, hi) {
            Err(e) => {
                proof {
                    assert(!port_range_is_valid(ranges@[i as int]));
                }
                return Err(e);
            },
            Ok(()) => {},
        }
        proof {
            assert(start.localhost_port_ranges + ranges@.subrange(0, i + 1) =~= (
            start.localhost_port_ranges + ranges@.subrange(0, i as int)).push(ranges@[i as int]));
        }
        i = i + 1;
    }
    proof {
        assert(ranges@.subrange(0, ranges.len() as int) =~= ranges@);
    }
    Ok(())
}

/// Adds the platform rules in order; the first refused rule stops it.
fn add_platform_rules(caps: &mut CapabilitySet, rules: &Vec<String>) -> (r: Result<
    (),
    NonoError,
>)
    ensures
        all_platform_rules_valid(strings_view(rules@)) ==> r is Ok && final(caps)@ == (
        CapabilitySetView {
            platform_rules: old(caps)@.platform_rules + strings_view(rules@),
            ..old(caps)@
        }),
        !all_platform_rules_valid(strings_view(rules@)) ==> r is Err && r->Err_0@
            == platform_rule_error(),
{
    let ghost start = caps@;
    let ghost rv = strings_view(rules@);
    let mut i: usize = 0;
    while i < rules.len()
        invariant
            i <= rules.len(),
            rv == strings_view(rules@),
            forall|j: int| 0 <= j < i ==> #[trigger] platform_rule_is_valid(rv[j]),
            caps@ == (CapabilitySetView {
                platform_rules: start.platform_rules + strings_view(rules@.subrange(0, i as int)),
                ..start
            }),
        decreases rules.len() - i,
    {
        proof {
            assert(rv[i as int] == rules@[i as int]@);
        }
        match caps.add_platform_rule(rules[i].clone()) {
            Err(e) => {
                proof {
                    assert(!platform_rule_is_valid(rv[i as int]));
                }
                return Err(e);
            },
            Ok(()) => {},
        }
        proof {
            assert(strings_view(rules@.subrange(0, i + 1)) =~= strings_view(
                rules@.subrange(0, i as int),
            ).push(rules@[i as int]@));
            assert(start.platform_rules + strings_view(rules@.subrange(0, i + 1)) =~= (
            start.platform_rules + strings_view(rules@.subrange(0, i as int))).push(
                rules@[i as int]@,
            ));
        }
        i = i + 1;
    }
    proof {
        assert(rules@.subrange(0, rules.len() as int) =~= rules@);
    }
    Ok(())
}

impl SandboxState {
    /// Convert the state back to a capability set.
    ///
    /// Every path is re-validated: `fs_resolved[i]` is what resolving
    /// `self.fs[i]` gave (the canonical path of `original`, which must exist
    /// and be a file or a directory as `is_file` says), and
    /// `socket_resolved[i]` what resolving `self.unix_sockets[i]` gave (for
    /// its mode and its effective scope). A socket grant whose path now
    /// resolves elsewhere than recorded is refused, so that a crafted record
    /// cannot pair an arbitrary `original` with a legitimate `resolved`.
    pub fn to_caps(
        &self,
        fs_resolved: &Vec<Result<String, NonoError>>,
        socket_resolved: &Vec<Result<String, NonoError>>,
    ) -> (r: Result<CapabilitySet, NonoError>)
        requires
            fs_resolved.len() == self.fs.len(),
            socket_resolved.len() == self.unix_sockets.len(),
        ensures
            caps_result_view(r) == restored_caps(
                self@,
                resolutions_view(fs_resolved@),
                resolutions_view(socket_resolved@),
            ),
    {
        let mut caps = CapabilitySet::new();
        match restore_fs_caps(&mut caps, &self.fs, fs_resolved) {
            Err(e) => {
                return Err(e);
            },
            Ok(()) => {},
        }
        match restore_socket_caps(&mut caps, &self.unix_sockets, socket_resolved) {
            Err(e) => {
                return Err(e);
            },
            Ok(()) => {},
        }
        match &self.network_mode {
            Some(mode) => caps.set_network_mode_mut(mode.clone()),
            None => caps.set_network_blocked(self.net_blocked),
        }
        if self.dns_blocked {
            caps = caps.block_dns();
        }
        add_tcp_connect_ports(&mut caps, &self.tcp_connect_ports);
        add_tcp_bind_ports(&mut caps, &self.tcp_bind_ports);
        add_localhost_ports(&mut caps, &self.localhost_ports);
        match add_port_ranges(&mut caps, &self.localhost_port_ranges) {
            Err(e) => {
                return Err(e);
            },
            Ok(()) => {},
        }
        caps.set_signal_mode_mut(self.signal_mode);
        caps.set_process_info_mode_mut(self.process_info_mode);
        caps.set_ipc_mode_mut(self.ipc_mode);
        if self.extensions_enabled {
            caps = caps.enable_extensions();
        }
        if self.seatbelt_debug_deny {
            caps.set_seatbelt_debug_deny(true);
        }
        add_allowed_commands(&mut caps, &self.allowed_commands);
        add_blocked_commands(&mut caps, &self.blocked_commands);
        match add_platform_rules(&mut caps, &self.platform_rules) {
            Err(e) => {
                return Err(e);
            },
            Ok(()) => {},
        }
        if let Some(limits) = self.resource_limits {
            caps = caps.with_resource_limits(limits);
        }
        proof {
            let expected = restored_caps(
                self@,
                resolutions_view(fs_resolved@),
                resolutions_view(socket_resolved@),
            );
            assert(caps@ =~= expected->Ok_0);
        }
        Ok(caps)
    }
}

// ---- Laws ----

/// The name an access mode is written under reads back as that mode.
pub proof fn lemma_access_mode_name_read_back(a: AccessMode)
    ensures
        access_mode_named(access_mode_name(a)) == Some(a),
{
    reveal_strlit("read");
    reveal_strlit("write");
    reveal_strlit("read+write");
    assert("read"@.len() == 4);
    assert("write"@.len() == 5);
    assert("read+write"@.len() == 10);
}

/// The name a socket mode is written under reads back as that mode.
pub proof fn lemma_socket_mode_name_read_back(m: UnixSocketMode)
    ensures
        socket_mode_named(socket_mode_name(m)) == Some(m),
{
    reveal_strlit("connect");
    reveal_strlit("connect+bind");
    assert("connect"@.len() == 7);
    assert("connect+bind"@.len() == 12);
}

proof fn lemma_recorded_fs_caps_restore(
    caps: Seq<FsCapabilityView>,
    res: Seq<Result<Seq<char>, NonoErrorView>>,
    n: nat,
)
    requires
        n <= caps.len(),
        res.len() == caps.len(),
        forall|i: int| 0 <= i < caps.len() ==> #[trigger] res[i] == Ok::<Seq<char>, NonoErrorView>(
            caps[i].resolved,
        ),
    ensures
        restored_fs_caps(caps.map_values(|f: FsCapabilityView| fs_state_of(f)), res, n) == Ok::<
            Seq<FsCapabilityView>,
            NonoErrorView,
        >(caps.subrange(0, n as int)),
    decreases n,
{
    if n > 0 {
        lemma_recorded_fs_caps_restore(caps, res, (n - 1) as nat);
        lemma_access_mode_name_read_back(caps[n - 1].access);
        assert(res[n - 1] == Ok::<Seq<char>, NonoErrorView>(caps[n - 1].resolved));
        assert(caps.subrange(0, n as int) =~= caps.subrange(0, n - 1).push(caps[n - 1]));
    } else {
        assert(caps.subrange(0, 0) =~= Seq::<FsCapabilityView>::empty());
    }
}

proof fn lemma_recorded_socket_caps_restore(
    caps: Seq<UnixSocketCapabilityView>,
    res: Seq<Result<Seq<char>, NonoErrorView>>,
    n: nat,
)
    requires
        n <= caps.len(),
        res.len() == caps.len(),
        forall|i: int| 0 <= i < caps.len() ==> #[trigger] res[i] == Ok::<Seq<char>, NonoErrorView>(
            caps[i].resolved,
        ),
    ensures
        restored_socket_caps(
            caps.map_values(|u: UnixSocketCapabilityView| socket_state_of(u)),
            res,
            n,
        ) == Ok::<Seq<UnixSocketCapabilityView>, NonoErrorView>(caps.subrange(0, n as int)),
    decreases n,
{
    if n > 0 {
        lemma_recorded_socket_caps_restore(caps, res, (n - 1) as nat);
        lemma_socket_mode_name_read_back(caps[n - 1].mode);
        assert(res[n - 1] == Ok::<Seq<char>, NonoErrorView>(caps[n - 1].resolved));
        assert(caps.subrange(0, n as int) =~= caps.subrange(0, n - 1).push(caps[n - 1]));
    } else {
        assert(caps.subrange(0, 0) =~= Seq::<UnixSocketCapabilityView>::empty());
    }
}

/// Recording a capability set and restoring the record gives the same set
/// back, every field of it (the precise network mode, DNS, ports, ranges,
/// modes, extensions, denial logging, commands, platform rules and resource
/// limits), provided every recorded path still resolves where it did when it
/// was recorded.
pub proof fn lemma_restore_after_record(
    caps: CapabilitySetView,
    fs_res: Seq<Result<Seq<char>, NonoErrorView>>,
    socket_res: Seq<Result<Seq<char>, NonoErrorView>>,
)
    requires
        caps.wf(),
        fs_res.len() == caps.fs.len(),
        forall|i: int| 0 <= i < caps.fs.len() ==> #[trigger] fs_res[i] == Ok::<
            Seq<char>,
            NonoErrorView,
        >(caps.fs[i].resolved),
        socket_res.len() == caps.unix_sockets.len(),
        forall|i: int|
            0 <= i < caps.unix_sockets.len() ==> #[trigger] socket_res[i] == Ok::<
                Seq<char>,
                NonoErrorView,
            >(caps.unix_sockets[i].resolved),
    ensures
        restored_caps(recorded_state(caps), fs_res, socket_res) == Ok::<
            CapabilitySetView,
            NonoErrorView,
        >(caps),
{
    let s = recorded_state(caps);
    lemma_recorded_fs_caps_restore(caps.fs, fs_res, caps.fs.len());
    lemma_recorded_socket_caps_restore(caps.unix_sockets, socket_res, caps.unix_sockets.len());
    assert(caps.fs.subrange(0, caps.fs.len() as int) =~= caps.fs);
    assert(caps.unix_sockets.subrange(0, caps.unix_sockets.len() as int) =~= caps.unix_sockets);
    assert(all_port_ranges_valid(s.localhost_port_ranges));
    assert(all_platform_rules_valid(s.platform_rules));
    assert(restored_caps(s, fs_res, socket_res)->Ok_0 =~= caps);
}

/// A state written by an older build, which records no precise network mode,
/// is restored with the network `Blocked` when `net_blocked` is set and fully
/// open otherwise (a proxy cannot be inferred from the flag); and whatever the
/// build, DNS stays enabled unless `dns_blocked` says otherwise.
pub proof fn lemma_legacy_network_fallback(
    s: SandboxStateView,
    fs_res: Seq<Result<Seq<char>, NonoErrorView>>,
    socket_res: Seq<Result<Seq<char>, NonoErrorView>>,
)
    requires
        restored_caps(s, fs_res, socket_res) is Ok,
    ensures
        s.network_mode is None ==> restored_caps(s, fs_res, socket_res)->Ok_0.network_mode == (
        if s.net_blocked {
            NetworkModeView::Blocked
        } else {
            NetworkModeView::AllowAll
        }),
        s.network_mode matches Some(m) ==> restored_caps(s, fs_res, socket_res)->Ok_0.network_mode
            == m,
        restored_caps(s, fs_res, socket_res)->Ok_0.dns_enabled == !s.dns_blocked,
{
}

/// A persisted filesystem capability that cannot be restored on its own (its
/// access mode names none, or its path no longer resolves) makes restoring
/// the whole state fail.
pub proof fn lemma_bad_fs_entry_refused(
    s: SandboxStateView,
    fs_res: Seq<Result<Seq<char>, NonoErrorView>>,
    socket_res: Seq<Result<Seq<char>, NonoErrorView>>,
    i: int,
)
    requires
        0 <= i < s.fs.len(),
        restored_fs_cap(s.fs[i], fs_res[i]) is Err,
    ensures
        restored_caps(s, fs_res, socket_res) is Err,
{
    if restored_fs_caps(s.fs, fs_res, i as nat) is Err {
        lemma_fs_failure_persists(s.fs, fs_res, i as nat, s.fs.len());
    } else {
        assert(restored_fs_caps(s.fs, fs_res, (i + 1) as nat) is Err);
        lemma_fs_failure_persists(s.fs, fs_res, (i + 1) as nat, s.fs.len());
    }
}

/// A persisted socket capability that cannot be restored on its own (its mode
/// names none, its path no longer resolves, or it resolves elsewhere than
/// recorded) makes restoring the whole state fail.
pub proof fn lemma_bad_socket_entry_refused(
    s: SandboxStateView,
    fs_res: Seq<Result<Seq<char>, NonoErrorView>>,
    socket_res: Seq<Result<Seq<char>, NonoErrorView>>,
    i: int,
)
    requires
        0 <= i < s.unix_sockets.len(),
        restored_socket_cap(s.unix_sockets[i], socket_res[i]) is Err,
    ensures
        restored_caps(s, fs_res, socket_res) is Err,
{
    if restored_socket_caps(s.unix_sockets, socket_res, i as nat) is Err {
        lemma_socket_failure_persists(s.unix_sockets, socket_res, i as nat, s.unix_sockets.len());
    } else {
        assert(restored_socket_caps(s.unix_sockets, socket_res, (i + 1) as nat) is Err);
        lemma_socket_failure_persists(
            s.unix_sockets,
            socket_res,
            (i + 1) as nat,
            s.unix_sockets.len(),
        );
    }
}

/// A persisted access mode other than "read", "write" and "read+write" is
/// refused.
pub proof fn lemma_unknown_access_mode_refused(
    s: SandboxStateView,
    fs_res: Seq<Result<Seq<char>, NonoErrorView>>,
    socket_res: Seq<Result<Seq<char>, NonoErrorView>>,
    i: int,
)
    requires
        0 <= i < s.fs.len(),
        s.fs[i].access != "read"@,
        s.fs[i].access != "write"@,
        s.fs[i].access != "read+write"@,
    ensures
        restored_caps(s, fs_res, socket_res) is Err,
{
    lemma_bad_fs_entry_refused(s, fs_res, socket_res, i);
}

/// A persisted filesystem path that no longer resolves is refused.
pub proof fn lemma_unresolved_fs_path_refused(
    s: SandboxStateView,
    fs_res: Seq<Result<Seq<char>, NonoErrorView>>,
    socket_res: Seq<Result<Seq<char>, NonoErrorView>>,
    i: int,
)
    requires
        0 <= i < s.fs.len(),
        fs_res[i] is Err,
    ensures
        restored_caps(s, fs_res, socket_res) is Err,
{
    lemma_bad_fs_entry_refused(s, fs_res, socket_res, i);
}

/// A persisted socket mode other than "connect" and "connect+bind" is refused.
pub proof fn lemma_unknown_socket_mode_refused(
    s: SandboxStateView,
    fs_res: Seq<Result<Seq<char>, NonoErrorView>>,
    socket_res: Seq<Result<Seq<char>, NonoErrorView>>,
    i: int,
)
    requires
        0 <= i < s.unix_sockets.len(),
        s.unix_sockets[i].mode != "connect"@,
        s.unix_sockets[i].mode != "connect+bind"@,
    ensures
        restored_caps(s, fs_res, socket_res) is Err,
{
    lemma_bad_socket_entry_refused(s, fs_res, socket_res, i);
}

/// A socket grant whose path now resolves elsewhere than recorded (another
/// path by components) is refused.
pub proof fn lemma_drifted_socket_refused(
    s: SandboxStateView,
    fs_res: Seq<Result<Seq<char>, NonoErrorView>>,
    socket_res: Seq<Result<Seq<char>, NonoErrorView>>,
    i: int,
)
    requires
        0 <= i < s.unix_sockets.len(),
        socket_res[i] matches Ok(actual) && !same_path(actual, s.unix_sockets[i].resolved),
    ensures
        restored_caps(s, fs_res, socket_res) is Err,
{
    lemma_bad_socket_entry_refused(s, fs_res, socket_res, i);
}

pub(crate) proof fn lemma_fs_caps_by_entry(
    st: Seq<FsCapStateView>,
    res: Seq<Result<Seq<char>, NonoErrorView>>,
    n: nat,
)
    ensures
        restored_fs_caps(st, res, n) is Ok <==> (forall|j: int|
            0 <= j < n ==> #[trigger] restored_fs_cap(st[j], res[j]) is Ok),
        restored_fs_caps(st, res, n) is Ok ==> restored_fs_caps(st, res, n)->Ok_0.len() == n,
        restored_fs_caps(st, res, n) is Ok ==> forall|j: int|
            0 <= j < n ==> #[trigger] restored_fs_cap(st[j], res[j]) == Ok::<
                FsCapabilityView,
                NonoErrorView,
            >(restored_fs_caps(st, res, n)->Ok_0[j]),
    decreases n,
{
    if n > 0 {
        let m = (n - 1) as nat;
        lemma_fs_caps_by_entry(st, res, m);
        if restored_fs_caps(st, res, n) is Ok {
            let prev = restored_fs_caps(st, res, m)->Ok_0;
            let v = restored_fs_caps(st, res, n)->Ok_0;
            assert(restored_fs_caps(st, res, m) is Ok);
            assert(v == prev.push(restored_fs_cap(st[m as int], res[m as int])->Ok_0));
            assert forall|j: int| 0 <= j < n implies #[trigger] restored_fs_cap(st[j], res[j])
                == Ok::<FsCapabilityView, NonoErrorView>(v[j]) by {
                if j < m {
                    assert(restored_fs_cap(st[j], res[j]) == Ok::<
                        FsCapabilityView,
                        NonoErrorView,
                    >(prev[j]));
                }
            }
        } else {
            if restored_fs_caps(st, res, m) is Err {
                assert(!(forall|j: int| 0 <= j < m ==> #[trigger] restored_fs_cap(st[j], res[j]) is Ok));
            } else {
                assert(restored_fs_cap(st[m as int], res[m as int]) is Err);
            }
        }
    }
}

pub(crate) proof fn lemma_socket_caps_by_entry(
    st: Seq<UnixSocketCapStateView>,
    res: Seq<Result<Seq<char>, NonoErrorView>>,
    n: nat,
)
    ensures
        restored_socket_caps(st, res, n) is Ok <==> (forall|j: int|
            0 <= j < n ==> #[trigger] restored_socket_cap(st[j], res[j]) is Ok),
        restored_socket_caps(st, res, n) is Ok ==> restored_socket_caps(st, res, n)->Ok_0.len()
            == n,
        restored_socket_caps(st, res, n) is Ok ==> forall|j: int|
            0 <= j < n ==> #[trigger] restored_socket_cap(st[j], res[j]) == Ok::<
                UnixSocketCapabilityView,
                NonoErrorView,
            >(restored_socket_caps(st, res, n)->Ok_0[j]),
    decreases n,
{
    if n > 0 {
        let m = (n - 1) as nat;
        lemma_socket_caps_by_entry(st, res, m);
        if restored_socket_caps(st, res, n) is Ok {
            let prev = restored_socket_caps(st, res, m)->Ok_0;
            let v = restored_socket_caps(st, res, n)->Ok_0;
            assert(restored_socket_caps(st, res, m) is Ok);
            assert(v == prev.push(restored_socket_cap(st[m as int], res[m as int])->Ok_0));
            assert forall|j: int| 0 <= j < n implies #[trigger] restored_socket_cap(st[j], res[j])
                == Ok::<UnixSocketCapabilityView, NonoErrorView>(v[j]) by {
                if j < m {
                    assert(restored_socket_cap(st[j], res[j]) == Ok::<
                        UnixSocketCapabilityView,
                        NonoErrorView,
                    >(prev[j]));
                }
            }
        } else {
            if restored_socket_caps(st, res, m) is Err {
                assert(!(forall|j: int|
                    0 <= j < m ==> #[trigger] restored_socket_cap(st[j], res[j]) is Ok));
            } else {
                assert(restored_socket_cap(st[m as int], res[m as int]) is Err);
            }
        }
    }
}

/// Recording a capability set keeps each of its fields: every filesystem
/// grant with its original path, the path it resolved to, its access mode
/// under its name and whether it is a file; every socket grant with its paths,
/// its scope and its mode under its name, and no legacy directory flag; the
/// precise network mode, with `net_blocked` set exactly when that mode is not
/// `AllowAll`; DNS blocked exactly when DNS is not enabled; and every list,
/// mode, flag and limit as it is.
pub proof fn lemma_record_keeps_each_field(c: CapabilitySetView)
    ensures
        ({
            let s = recorded_state(c);
            &&& s.fs.len() == c.fs.len()
            &&& forall|i: int|
                #![trigger s.fs[i]]
                0 <= i < c.fs.len() ==> {
                    &&& s.fs[i].original == c.fs[i].original
                    &&& s.fs[i].resolved == c.fs[i].resolved
                    &&& access_mode_named(s.fs[i].access) == Some(c.fs[i].access)
                    &&& s.fs[i].is_file == c.fs[i].is_file
                }
            &&& s.unix_sockets.len() == c.unix_sockets.len()
            &&& forall|i: int|
                #![trigger s.unix_sockets[i]]
                0 <= i < c.unix_sockets.len() ==> {
                    &&& s.unix_sockets[i].original == c.unix_sockets[i].original
                    &&& s.unix_sockets[i].resolved == c.unix_sockets[i].resolved
                    &&& s.unix_sockets[i].scope == Some(c.unix_sockets[i].scope)
                    &&& s.unix_sockets[i].is_directory == None::<bool>
                    &&& socket_mode_named(s.unix_sockets[i].mode) == Some(c.unix_sockets[i].mode)
                }
            &&& s.network_mode == Some(c.network_mode)
            &&& s.net_blocked == !(c.network_mode is AllowAll)
            &&& s.dns_blocked == !c.dns_enabled
            &&& s.tcp_connect_ports == c.tcp_connect_ports
            &&& s.tcp_bind_ports == c.tcp_bind_ports
            &&& s.localhost_ports == c.localhost_ports
            &&& s.localhost_port_ranges == c.localhost_port_ranges
            &&& s.signal_mode == c.signal_mode
            &&& s.process_info_mode == c.process_info_mode
            &&& s.ipc_mode == c.ipc_mode
            &&& s.extensions_enabled == c.extensions_enabled
            &&& s.seatbelt_debug_deny == c.seatbelt_debug_deny
            &&& s.allowed_commands == c.allowed_commands
            &&& s.blocked_commands == c.blocked_commands
            &&& s.platform_rules == c.platform_rules
            &&& s.resource_limits == c.resource_limits
        }),
{
    let s = recorded_state(c);
    assert forall|i: int| #![trigger s.fs[i]] 0 <= i < c.fs.len() implies access_mode_named(
        s.fs[i].access,
    ) == Some(c.fs[i].access) by {
        lemma_access_mode_name_read_back(c.fs[i].access);
    }
    assert forall|i: int| #![trigger s.unix_sockets[i]] 0 <= i < c.unix_sockets.len() implies socket_mode_named(
        s.unix_sockets[i].mode,
    ) == Some(c.unix_sockets[i].mode) by {
        lemma_socket_mode_name_read_back(c.unix_sockets[i].mode);
    }
}

/// A restored capability set takes each of its fields from the record: every
/// filesystem grant keeps its original path and whether it is a file, takes
/// the access mode the record names and the path its own path resolved to
/// now; every socket grant keeps its original path, takes the mode the record
/// names, the scope recorded (or, for a record without one, the children of a
/// directory when the legacy flag says it is one, else the file itself) and
/// the path its own path resolved to now, which is the recorded path by
/// components; the network mode is the recorded one or, without one,
/// `Blocked` or `AllowAll` as `net_blocked` says; DNS is enabled exactly when
/// not recorded as blocked; every list, mode, flag and limit is the recorded
/// one.
pub proof fn lemma_restore_keeps_each_field(
    s: SandboxStateView,
    fs_res: Seq<Result<Seq<char>, NonoErrorView>>,
    socket_res: Seq<Result<Seq<char>, NonoErrorView>>,
)
    requires
        restored_caps(s, fs_res, socket_res) is Ok,
    ensures
        ({
            let c = restored_caps(s, fs_res, socket_res)->Ok_0;
            &&& c.fs.len() == s.fs.len()
            &&& forall|i: int|
                #![trigger c.fs[i]]
                0 <= i < s.fs.len() ==> {
                    &&& c.fs[i].original == s.fs[i].original
                    &&& fs_res[i] == Ok::<Seq<char>, NonoErrorView>(c.fs[i].resolved)
                    &&& access_mode_name(c.fs[i].access) == s.fs[i].access
                    &&& c.fs[i].is_file == s.fs[i].is_file
                }
            &&& c.unix_sockets.len() == s.unix_sockets.len()
            &&& forall|i: int|
                #![trigger c.unix_sockets[i]]
                0 <= i < s.unix_sockets.len() ==> {
                    &&& c.unix_sockets[i].original == s.unix_sockets[i].original
                    &&& socket_res[i] == Ok::<Seq<char>, NonoErrorView>(c.unix_sockets[i].resolved)
                    &&& same_path(c.unix_sockets[i].resolved, s.unix_sockets[i].resolved)
                    &&& socket_mode_name(c.unix_sockets[i].mode) == s.unix_sockets[i].mode
                    &&& c.unix_sockets[i].scope == match s.unix_sockets[i].scope {
                        Some(sc) => sc,
                        None => if s.unix_sockets[i].is_directory == Some(true) {
                            SocketScope::DirChildren
                        } else {
                            SocketScope::File
                        },
                    }
                }
            &&& c.network_mode == match s.network_mode {
                Some(m) => m,
                None => if s.net_blocked {
                    NetworkModeView::Blocked
                } else {
                    NetworkModeView::AllowAll
                },
            }
            &&& c.dns_enabled == !s.dns_blocked
            &&& c.tcp_connect_ports == s.tcp_connect_ports
            &&& c.tcp_bind_ports == s.tcp_bind_ports
            &&& c.localhost_ports == s.localhost_ports
            &&& c.localhost_port_ranges == s.localhost_port_ranges
            &&& c.signal_mode == s.signal_mode
            &&& c.process_info_mode == s.process_info_mode
            &&& c.ipc_mode == s.ipc_mode
            &&& c.extensions_enabled == s.extensions_enabled
            &&& c.seatbelt_debug_deny == s.seatbelt_debug_deny
            &&& c.allowed_commands == s.allowed_commands
            &&& c.blocked_commands == s.blocked_commands
            &&& c.platform_rules == s.platform_rules
            &&& c.resource_limits == s.resource_limits
        }),
{
    let c = restored_caps(s, fs_res, socket_res)->Ok_0;
    lemma_fs_caps_by_entry(s.fs, fs_res, s.fs.len());
    lemma_socket_caps_by_entry(s.unix_sockets, socket_res, s.unix_sockets.len());
    assert(restored_fs_caps(s.fs, fs_res, s.fs.len()) is Ok);
    assert(restored_socket_caps(s.unix_sockets, socket_res, s.unix_sockets.len()) is Ok);
    assert forall|i: int| #![trigger c.fs[i]] 0 <= i < s.fs.len() implies {
        &&& c.fs[i].original == s.fs[i].original
        &&& fs_res[i] == Ok::<Seq<char>, NonoErrorView>(c.fs[i].resolved)
        &&& access_mode_name(c.fs[i].access) == s.fs[i].access
        &&& c.fs[i].is_file == s.fs[i].is_file
    } by {
        assert(restored_fs_cap(s.fs[i], fs_res[i]) == Ok::<FsCapabilityView, NonoErrorView>(
            c.fs[i],
        ));
    }
    assert forall|i: int| #![trigger c.unix_sockets[i]] 0 <= i < s.unix_sockets.len() implies {
        &&& c.unix_sockets[i].original == s.unix_sockets[i].original
        &&& socket_res[i] == Ok::<Seq<char>, NonoErrorView>(c.unix_sockets[i].resolved)
        &&& same_path(c.unix_sockets[i].resolved, s.unix_sockets[i].resolved)
        &&& socket_mode_name(c.unix_sockets[i].mode) == s.unix_sockets[i].mode
        &&& c.unix_sockets[i].scope == match s.unix_sockets[i].scope {
            Some(sc) => sc,
            None => if s.unix_sockets[i].is_directory == Some(true) {
                SocketScope::DirChildren
            } else {
                SocketScope::File
            },
        }
    } by {
        assert(restored_socket_cap(s.unix_sockets[i], socket_res[i]) == Ok::<
            UnixSocketCapabilityView,
            NonoErrorView,
        >(c.unix_sockets[i]));
    }
}

} // verus!
