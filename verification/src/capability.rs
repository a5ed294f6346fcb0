//! Capabilities that a sandbox grants, and the set that collects them.
use crate::error::{NonoError, NonoErrorView};
use crate::resource::ResourceLimits;
use vstd::prelude::*;

verus! {

/// How a filesystem path may be accessed.
#[derive(Debug, Clone, Copy, PartialEq, Eq, Structural)]
pub enum AccessMode {
    Read,
    Write,
    ReadWrite,
}

/// The name under which an access mode is written.
pub open spec fn access_mode_name(a: AccessMode) -> Seq<char> {
    match a {
        AccessMode::Read => "read"@,
        AccessMode::Write => "write"@,
        AccessMode::ReadWrite => "read+write"@,
    }
}

impl AccessMode {
    /// The name of the access mode: "read", "write" or "read+write".
    pub fn to_string(&self) -> (s: String)
        ensures
            s@ == access_mode_name(*self),
    {
        match self {
            AccessMode::Read => String::from_str("read"),
            AccessMode::Write => String::from_str("write"),
            AccessMode::ReadWrite => String::from_str("read+write"),
        }
    }
}

/// What may be done with an AF_UNIX socket.
#[derive(Debug, Clone, Copy, PartialEq, Eq, Structural)]
pub enum UnixSocketMode {
    Connect,
    ConnectBind,
}

/// The name under which a socket mode is written.
pub open spec fn socket_mode_name(m: UnixSocketMode) -> Seq<char> {
    match m {
        UnixSocketMode::Connect => "connect"@,
        UnixSocketMode::ConnectBind => "connect+bind"@,
    }
}

impl UnixSocketMode {
    /// The name of the socket mode: "connect" or "connect+bind".
    pub fn to_string(&self) -> (s: String)
        ensures
            s@ == socket_mode_name(*self),
    {
        match self {
            UnixSocketMode::Connect => String::from_str("connect"),
            UnixSocketMode::ConnectBind => String::from_str("connect+bind"),
        }
    }
}

/// Which paths a socket grant matches.
#[derive(Debug, Clone, Copy, PartialEq, Eq, Structural)]
pub enum SocketScope {
    /// Exactly the socket file.
    File,
    /// The sockets directly inside a directory.
    DirChildren,
    /// The sockets anywhere below a directory.
    DirSubtree,
}

/// Whether a sandboxed process may send signals.
#[derive(Debug, Clone, Copy, PartialEq, Eq, Structural)]
pub enum SignalMode {
    Isolated,
    AllowAll,
}

impl Default for SignalMode {
    fn default() -> (m: Self)
        ensures
            m == SignalMode::Isolated,
    {
        SignalMode::Isolated
    }
}

/// Whether a sandboxed process may inspect other processes.
#[derive(Debug, Clone, Copy, PartialEq, Eq, Structural)]
pub enum ProcessInfoMode {
    Isolated,
    AllowAll,
}

impl Default for ProcessInfoMode {
    fn default() -> (m: Self)
        ensures
            m == ProcessInfoMode::Isolated,
    {
        ProcessInfoMode::Isolated
    }
}

/// Which inter-process communication a sandboxed process may use.
#[derive(Debug, Clone, Copy, PartialEq, Eq, Structural)]
pub enum IpcMode {
    SharedMemoryOnly,
    Full,
}

impl Default for IpcMode {
    fn default() -> (m: Self)
        ensures
            m == IpcMode::SharedMemoryOnly,
    {
        IpcMode::SharedMemoryOnly
    }
}

/// How the network is reachable from the sandbox.
#[derive(Debug, PartialEq, Eq)]
pub enum NetworkMode {
    /// No network access.
    Blocked,
    /// Unrestricted network access.
    AllowAll,
    /// Outbound traffic only through a local proxy on `port`; the sandbox may
    /// also bind the listed ports.
    ProxyOnly { port: u16, bind_ports: Vec<u16> },
}

/// A network mode with its ports as a sequence.
#[verifier::ext_equal]
pub enum NetworkModeView {
    Blocked,
    AllowAll,
    ProxyOnly { port: u16, bind_ports: Seq<u16> },
}

impl View for NetworkMode {
    type V = NetworkModeView;

    open spec fn view(&self) -> NetworkModeView {
        match self {
            NetworkMode::Blocked => NetworkModeView::Blocked,
            NetworkMode::AllowAll => NetworkModeView::AllowAll,
            NetworkMode::ProxyOnly { port, bind_ports } => NetworkModeView::ProxyOnly {
                port: *port,
                bind_ports: bind_ports@,
            },
        }
    }
}

/// Whether a network mode keeps the sandbox from reaching the network
/// directly: every mode but `AllowAll`.
pub open spec fn network_mode_blocks(m: NetworkModeView) -> bool {
    !(m is AllowAll)
}

impl Clone for NetworkMode {
    fn clone(&self) -> (m: Self)
        ensures
            m@ == self@,
    {
        match self {
            NetworkMode::Blocked => NetworkMode::Blocked,
            NetworkMode::AllowAll => NetworkMode::AllowAll,
            NetworkMode::ProxyOnly { port, bind_ports } => NetworkMode::ProxyOnly {
                port: *port,
                bind_ports: copy_ports(bind_ports),
            },
        }
    }
}

/// A copy of a list of ports.
pub fn copy_ports(v: &Vec<u16>) -> (r: Vec<u16>)
    ensures
        r@ == v@,
{
    let mut r: Vec<u16> = Vec::new();
    let mut i: usize = 0;
    while i < v.len()
        invariant
            i <= v.len(),
            r@ == v@.subrange(0, i as int),
        decreases v.len() - i,
    {
        r.push(v[i]);
        i = i + 1;
    }
    r
}

/// A copy of a list of port ranges.
pub fn copy_port_ranges(v: &Vec<(u16, u16)>) -> (r: Vec<(u16, u16)>)
    ensures
        r@ == v@,
{
    let mut r: Vec<(u16, u16)> = Vec::new();
    let mut i: usize = 0;
    while i < v.len()
        invariant
            i <= v.len(),
            r@ == v@.subrange(0, i as int),
        decreases v.len() - i,
    {
        r.push(v[i]);
        i = i + 1;
    }
    r
}

/// The characters of each string of a sequence.
pub open spec fn strings_view(v: Seq<String>) -> Seq<Seq<char>> {
    v.map_values(|s: String| s@)
}

/// A copy of a list of strings.
pub fn copy_strings(v: &Vec<String>) -> (r: Vec<String>)
    ensures
        strings_view(r@) == strings_view(v@),
{
    let mut r: Vec<String> = Vec::new();
    let mut i: usize = 0;
    while i < v.len()
        invariant
            i <= v.len(),
            strings_view(r@) == strings_view(v@.subrange(0, i as int)),
        decreases v.len() - i,
    {
        let ghost before = r@;
        r.push(v[i].clone());
        proof {
            assert(v@.subrange(0, i + 1) =~= v@.subrange(0, i as int).push(v@[i as int]));
            assert(strings_view(r@) =~= strings_view(before).push(v@[i as int]@));
            assert(strings_view(v@.subrange(0, i + 1)) =~= strings_view(
                v@.subrange(0, i as int),
            ).push(v@[i as int]@));
        }
        i = i + 1;
    }
    proof {
        assert(v@.subrange(0, v.len() as int) =~= v@);
    }
    r
}

/// A filesystem capability: a path, where it resolved to, and how it may be accessed.
#[derive(Debug, PartialEq, Eq)]
pub struct FsCapability {
    /// The path as it was given.
    pub original: String,
    /// The canonical path it resolved to.
    pub resolved: String,
    /// How the path may be accessed.
    pub access: AccessMode,
    /// Whether the path is a file (else a directory).
    pub is_file: bool,
}

/// A filesystem capability with its paths as character sequences.
pub struct FsCapabilityView {
    pub original: Seq<char>,
    pub resolved: Seq<char>,
    pub access: AccessMode,
    pub is_file: bool,
}

impl View for FsCapability {
    type V = FsCapabilityView;

    open spec fn view(&self) -> FsCapabilityView {
        FsCapabilityView {
            original: self.original@,
            resolved: self.resolved@,
            access: self.access,
            is_file: self.is_file,
        }
    }
}

impl Clone for FsCapability {
    fn clone(&self) -> (c: Self)
        ensures
            c@ == self@,
    {
        FsCapability {
            original: self.original.clone(),
            resolved: self.resolved.clone(),
            access: self.access,
            is_file: self.is_file,
        }
    }
}

/// An AF_UNIX socket capability.
#[derive(Debug, PartialEq, Eq)]
pub struct UnixSocketCapability {
    /// The path as it was given.
    pub original: String,
    /// The canonical path it resolved to.
    pub resolved: String,
    /// Which socket paths the grant matches.
    pub scope: SocketScope,
    /// What may be done with the socket.
    pub mode: UnixSocketMode,
}

/// A socket capability with its paths as character sequences.
pub struct UnixSocketCapabilityView {
    pub original: Seq<char>,
    pub resolved: Seq<char>,
    pub scope: SocketScope,
    pub mode: UnixSocketMode,
}

impl View for UnixSocketCapability {
    type V = UnixSocketCapabilityView;

    open spec fn view(&self) -> UnixSocketCapabilityView {
        UnixSocketCapabilityView {
            original: self.original@,
            resolved: self.resolved@,
            scope: self.scope,
            mode: self.mode,
        }
    }
}

impl Clone for UnixSocketCapability {
    fn clone(&self) -> (c: Self)
        ensures
            c@ == self@,
    {
        UnixSocketCapability {
            original: self.original.clone(),
            resolved: self.resolved.clone(),
            scope: self.scope,
            mode: self.mode,
        }
    }
}

/// The views of a sequence of filesystem capabilities.
pub open spec fn fs_caps_view(v: Seq<FsCapability>) -> Seq<FsCapabilityView> {
    v.map_values(|c: FsCapability| c@)
}

/// The views of a sequence of socket capabilities.
pub open spec fn socket_caps_view(v: Seq<UnixSocketCapability>) -> Seq<UnixSocketCapabilityView> {
    v.map_values(|c: UnixSocketCapability| c@)
}

/// Whether a localhost port range is accepted: its start does not exceed its end.
pub open spec fn port_range_is_valid(r: (u16, u16)) -> bool {
    r.0 <= r.1
}

/// Whether a raw platform rule is accepted: a non-empty expression that opens
/// with `(` and closes with `)`.
pub open spec fn platform_rule_is_valid(rule: Seq<char>) -> bool {
    rule.len() > 0 && rule[0] == '(' && rule[rule.len() - 1] == ')'
}

/// The error for a refused localhost port range.
pub open spec fn port_range_error() -> NonoErrorView {
    NonoErrorView::InvalidConfig("localhost port range start must not exceed its end"@)
}

/// The error for a refused platform rule.
pub open spec fn platform_rule_error() -> NonoErrorView {
    NonoErrorView::InvalidConfig("platform rule must be an expression enclosed in parentheses"@)
}

/// What a capability set holds.
#[verifier::ext_equal]
pub struct CapabilitySetView {
    pub fs: Seq<FsCapabilityView>,
    pub unix_sockets: Seq<UnixSocketCapabilityView>,
    pub network_mode: NetworkModeView,
    pub dns_enabled: bool,
    pub tcp_connect_ports: Seq<u16>,
    pub tcp_bind_ports: Seq<u16>,
    pub localhost_ports: Seq<u16>,
    pub localhost_port_ranges: Seq<(u16, u16)>,
    pub signal_mode: SignalMode,
    pub process_info_mode: ProcessInfoMode,
    pub ipc_mode: IpcMode,
    pub extensions_enabled: bool,
    pub seatbelt_debug_deny: bool,
    pub allowed_commands: Seq<Seq<char>>,
    pub blocked_commands: Seq<Seq<char>>,
    pub platform_rules: Seq<Seq<char>>,
    pub resource_limits: Option<ResourceLimits>,
}

impl CapabilitySetView {
    /// Every port range and every platform rule in the set was accepted.
    pub open spec fn wf(self) -> bool {
        &&& forall|i: int|
            0 <= i < self.localhost_port_ranges.len() ==> #[trigger] port_range_is_valid(
                self.localhost_port_ranges[i],
            )
        &&& forall|i: int|
            0 <= i < self.platform_rules.len() ==> #[trigger] platform_rule_is_valid(
                self.platform_rules[i],
            )
    }
}

/// The capability set that `CapabilitySet::new` makes: no capabilities, the
/// network open, DNS enabled, signals and process inspection isolated, IPC
/// limited to shared memory, no extensions, no limits.
pub open spec fn default_capability_set() -> CapabilitySetView {
    CapabilitySetView {
        fs: Seq::empty(),
        unix_sockets: Seq::empty(),
        network_mode: NetworkModeView::AllowAll,
        dns_enabled: true,
        tcp_connect_ports: Seq::empty(),
        tcp_bind_ports: Seq::empty(),
        localhost_ports: Seq::empty(),
        localhost_port_ranges: Seq::empty(),
        signal_mode: SignalMode::Isolated,
        process_info_mode: ProcessInfoMode::Isolated,
        ipc_mode: IpcMode::SharedMemoryOnly,
        extensions_enabled: false,
        seatbelt_debug_deny: false,
        allowed_commands: Seq::empty(),
        blocked_commands: Seq::empty(),
        platform_rules: Seq::empty(),
        resource_limits: None,
    }
}

/// The set of capabilities a sandbox is built from.
#[derive(Debug)]
pub struct CapabilitySet {
    fs: Vec<FsCapability>,
    unix_sockets: Vec<UnixSocketCapability>,
    network_mode: NetworkMode,
    dns_enabled: bool,
    tcp_connect_ports: Vec<u16>,
    tcp_bind_ports: Vec<u16>,
    localhost_ports: Vec<u16>,
    localhost_port_ranges: Vec<(u16, u16)>,
    signal_mode: SignalMode,
    process_info_mode: ProcessInfoMode,
    ipc_mode: IpcMode,
    extensions_enabled: bool,
    seatbelt_debug_deny: bool,
    allowed_commands: Vec<String>,
    blocked_commands: Vec<String>,
    platform_rules: Vec<String>,
    resource_limits: Option<ResourceLimits>,
}

impl View for CapabilitySet {
    type V = CapabilitySetView;

    closed spec fn view(&self) -> CapabilitySetView {
        CapabilitySetView {
            fs: fs_caps_view(self.fs@),
            unix_sockets: socket_caps_view(self.unix_sockets@),
            network_mode: self.network_mode@,
            dns_enabled: self.dns_enabled,
            tcp_connect_ports: self.tcp_connect_ports@,
            tcp_bind_ports: self.tcp_bind_ports@,
            localhost_ports: self.localhost_ports@,
            localhost_port_ranges: self.localhost_port_ranges@,
            signal_mode: self.signal_mode,
            process_info_mode: self.process_info_mode,
            ipc_mode: self.ipc_mode,
            extensions_enabled: self.extensions_enabled,
            seatbelt_debug_deny: self.seatbelt_debug_deny,
            allowed_commands: strings_view(self.allowed_commands@),
            blocked_commands: strings_view(self.blocked_commands@),
            platform_rules: strings_view(self.platform_rules@),
            resource_limits: self.resource_limits,
        }
    }
}

impl CapabilitySet {
    #[verifier::type_invariant]
    closed spec fn inv(self) -> bool {
        self@.wf()
    }

    /// An empty capability set.
    pub fn new() -> (c: Self)
        ensures
            c@ == default_capability_set(),
    {
        let c = CapabilitySet {
            fs: Vec::new(),
            unix_sockets: Vec::new(),
            network_mode: NetworkMode::AllowAll,
            dns_enabled: true,
            tcp_connect_ports: Vec::new(),
            tcp_bind_ports: Vec::new(),
            localhost_ports: Vec::new(),
            localhost_port_ranges: Vec::new(),
            signal_mode: SignalMode::Isolated,
            process_info_mode: ProcessInfoMode::Isolated,
            ipc_mode: IpcMode::SharedMemoryOnly,
            extensions_enabled: false,
            seatbelt_debug_deny: false,
            allowed_commands: Vec::new(),
            blocked_commands: Vec::new(),
            platform_rules: Vec::new(),
            resource_limits: None,
        };
        proof {
            assert(c@ =~= default_capability_set());
        }
        c
    }

    // ---- Getters ----

    /// The filesystem capabilities, in the order they were added.
    pub fn fs_capabilities(&self) -> (r: &Vec<FsCapability>)
        ensures
            fs_caps_view(r@) == self@.fs,
    {
        &self.fs
    }

    /// The socket capabilities, in the order they were added.
    pub fn unix_socket_capabilities(&self) -> (r: &Vec<UnixSocketCapability>)
        ensures
            socket_caps_view(r@) == self@.unix_sockets,
    {
        &self.unix_sockets
    }

    /// The network mode.
    pub fn network_mode(&self) -> (r: &NetworkMode)
        ensures
            r@ == self@.network_mode,
    {
        &self.network_mode
    }

    /// Whether direct network access is blocked: true for `Blocked` and for
    /// `ProxyOnly`.
    pub fn is_network_blocked(&self) -> (b: bool)
        ensures
            b == network_mode_blocks(self@.network_mode),
    {
        match &self.network_mode {
            NetworkMode::AllowAll => false,
            _ => true,
        }
    }

    /// Whether the implicit DNS resolver grants are enabled.
    pub fn dns_enabled(&self) -> (b: bool)
        ensures
            b == self@.dns_enabled,
    {
        self.dns_enabled
    }

    /// The TCP ports that may be connected to.
    pub fn tcp_connect_ports(&self) -> (r: &Vec<u16>)
        ensures
            r@ == self@.tcp_connect_ports,
    {
        &self.tcp_connect_ports
    }

    /// The TCP ports that may be bound.
    pub fn tcp_bind_ports(&self) -> (r: &Vec<u16>)
        ensures
            r@ == self@.tcp_bind_ports,
    {
        &self.tcp_bind_ports
    }

    /// The localhost ports open both ways.
    pub fn localhost_ports(&self) -> (r: &Vec<u16>)
        ensures
            r@ == self@.localhost_ports,
    {
        &self.localhost_ports
    }

    /// The localhost port ranges (inclusive) open both ways.
    pub fn localhost_port_ranges(&self) -> (r: &Vec<(u16, u16)>)
        ensures
            r@ == self@.localhost_port_ranges,
            self@.wf(),
    {
        proof {
            use_type_invariant(self);
        }
        &self.localhost_port_ranges
    }

    /// The signal mode.
    pub fn signal_mode(&self) -> (m: SignalMode)
        ensures
            m == self@.signal_mode,
    {
        self.signal_mode
    }

    /// The process inspection mode.
    pub fn process_info_mode(&self) -> (m: ProcessInfoMode)
        ensures
            m == self@.process_info_mode,
    {
        self.process_info_mode
    }

    /// The IPC mode.
    pub fn ipc_mode(&self) -> (m: IpcMode)
        ensures
            m == self@.ipc_mode,
    {
        self.ipc_mode
    }

    /// Whether sandbox extensions are enabled.
    pub fn extensions_enabled(&self) -> (b: bool)
        ensures
            b == self@.extensions_enabled,
    {
        self.extensions_enabled
    }

    /// Whether Seatbelt denial logging is enabled.
    pub fn seatbelt_debug_deny(&self) -> (b: bool)
        ensures
            b == self@.seatbelt_debug_deny,
    {
        self.seatbelt_debug_deny
    }

    /// The commands explicitly allowed.
    pub fn allowed_commands(&self) -> (r: &Vec<String>)
        ensures
            strings_view(r@) == self@.allowed_commands,
    {
        &self.allowed_commands
    }

    /// The commands explicitly blocked.
    pub fn blocked_commands(&self) -> (r: &Vec<String>)
        ensures
            strings_view(r@) == self@.blocked_commands,
    {
        &self.blocked_commands
    }

    /// The raw platform rules.
    pub fn platform_rules(&self) -> (r: &Vec<String>)
        ensures
            strings_view(r@) == self@.platform_rules,
            self@.wf(),
    {
        proof {
            use_type_invariant(self);
        }
        &self.platform_rules
    }

    /// The resource ceilings, if any.
    pub fn resource_limits(&self) -> (r: Option<ResourceLimits>)
        ensures
            r == self@.resource_limits,
    {
        self.resource_limits
    }
    // ---- Changes in place ----

    /// Adds a filesystem capability at the end.
    pub fn add_fs(&mut self, cap: FsCapability)
        ensures
            final(self)@ == (CapabilitySetView { fs: old(self)@.fs.push(cap@), ..old(self)@ }),
    {
        proof {
            use_type_invariant(&*self);
        }
        let mut v: Vec<FsCapability> = Vec::new();
        std::mem::swap(&mut v, &mut self.fs);
        let ghost before = v@;
        let ghost cap_view = cap@;
        v.push(cap);
        self.fs = v;
        proof {
            assert(fs_caps_view(self.fs@) =~= fs_caps_view(before).push(cap_view));
        }
    }

    /// Adds a socket capability at the end.
    pub fn add_unix_socket(&mut self, cap: UnixSocketCapability)
        ensures
            final(self)@ == (CapabilitySetView {
                unix_sockets: old(self)@.unix_sockets.push(cap@),
                ..old(self)@
            }),
    {
        proof {
            use_type_invariant(&*self);
        }
        let mut v: Vec<UnixSocketCapability> = Vec::new();
        std::mem::swap(&mut v, &mut self.unix_sockets);
        let ghost before = v@;
        let ghost cap_view = cap@;
        v.push(cap);
        self.unix_sockets = v;
        proof {
            assert(socket_caps_view(self.unix_sockets@) =~= socket_caps_view(before).push(
                cap_view,
            ));
        }
    }

    /// Sets the network mode.
    pub fn set_network_mode_mut(&mut self, mode: NetworkMode)
        ensures
            final(self)@ == (CapabilitySetView { network_mode: mode@, ..old(self)@ }),
    {
        proof {
            use_type_invariant(&*self);
        }
        self.network_mode = mode;
    }

    /// Blocks the network, or opens it fully.
    pub fn set_network_blocked(&mut self, blocked: bool)
        ensures
            final(self)@ == (CapabilitySetView {
                network_mode: if blocked {
                    NetworkModeView::Blocked
                } else {
                    NetworkModeView::AllowAll
                },
                ..old(self)@
            }),
    {
        proof {
            use_type_invariant(&*self);
        }
        if blocked {
            self.network_mode = NetworkMode::Blocked;
        } else {
            self.network_mode = NetworkMode::AllowAll;
        }
    }

    /// Adds a TCP port that may be connected to.
    pub fn add_tcp_connect_port(&mut self, port: u16)
        ensures
            final(self)@ == (CapabilitySetView {
                tcp_connect_ports: old(self)@.tcp_connect_ports.push(port),
                ..old(self)@
            }),
    {
        proof {
            use_type_invariant(&*self);
        }
        let mut v: Vec<u16> = Vec::new();
        std::mem::swap(&mut v, &mut self.tcp_connect_ports);
        v.push(port);
        self.tcp_connect_ports = v;
    }

    /// Adds a TCP port that may be bound.
    pub fn add_tcp_bind_port(&mut self, port: u16)
        ensures
            final(self)@ == (CapabilitySetView {
                tcp_bind_ports: old(self)@.tcp_bind_ports.push(port),
                ..old(self)@
            }),
    {
        proof {
            use_type_invariant(&*self);
        }
        let mut v: Vec<u16> = Vec::new();
        std::mem::swap(&mut v, &mut self.tcp_bind_ports);
        v.push(port);
        self.tcp_bind_ports = v;
    }

    /// Adds a localhost port open both ways.
    pub fn add_localhost_port(&mut self, port: u16)
        ensures
            final(self)@ == (CapabilitySetView {
                localhost_ports: old(self)@.localhost_ports.push(port),
                ..old(self)@
            }),
    {
        proof {
            use_type_invariant(&*self);
        }
        let mut v: Vec<u16> = Vec::new();
        std::mem::swap(&mut v, &mut self.localhost_ports);
        v.push(port);
        self.localhost_ports = v;
    }

    /// Adds an inclusive localhost port range open both ways. A range whose
    /// start exceeds its end is refused and the set is left as it was.
    pub fn add_localhost_port_range(&mut self, start: u16, end: u16) -> (r: Result<(), NonoError>)
        ensures
            start <= end ==> r is Ok && final(self)@ == (CapabilitySetView {
                localhost_port_ranges: old(self)@.localhost_port_ranges.push((start, end)),
                ..old(self)@
            }),
            start > end ==> (r matches Err(e) && e@ == port_range_error() && final(self)@ == old(
                self,
            )@),
    {
        proof {
            use_type_invariant(&*self);
        }
        if start > end {
            return Err(
                NonoError::InvalidConfig(
                    String::from_str("localhost port range start must not exceed its end"),
                ),
            );
        }
        let mut v: Vec<(u16, u16)> = Vec::new();
        std::mem::swap(&mut v, &mut self.localhost_port_ranges);
        v.push((start, end));
        self.localhost_port_ranges = v;
        Ok(())
    }

    /// Sets the signal mode.
    pub fn set_signal_mode_mut(&mut self, mode: SignalMode)
        ensures
            final(self)@ == (CapabilitySetView { signal_mode: mode, ..old(self)@ }),
    {
        proof {
            use_type_invariant(&*self);
        }
        self.signal_mode = mode;
    }

    /// Sets the process inspection mode.
    pub fn set_process_info_mode_mut(&mut self, mode: ProcessInfoMode)
        ensures
            final(self)@ == (CapabilitySetView { process_info_mode: mode, ..old(self)@ }),
    {
        proof {
            use_type_invariant(&*self);
        }
        self.process_info_mode = mode;
    }

    /// Sets the IPC mode.
    pub fn set_ipc_mode_mut(&mut self, mode: IpcMode)
        ensures
            final(self)@ == (CapabilitySetView { ipc_mode: mode, ..old(self)@ }),
    {
        proof {
            use_type_invariant(&*self);
        }
        self.ipc_mode = mode;
    }

    /// Turns Seatbelt denial logging on or off.
    pub fn set_seatbelt_debug_deny(&mut self, enabled: bool)
        ensures
            final(self)@ == (CapabilitySetView { seatbelt_debug_deny: enabled, ..old(self)@ }),
    {
        proof {
            use_type_invariant(&*self);
        }
        self.seatbelt_debug_deny = enabled;
    }

    /// Adds a command that is allowed even where a blocklist names it.
    pub fn add_allowed_command(&mut self, cmd: String)
        ensures
            final(self)@ == (CapabilitySetView {
                allowed_commands: old(self)@.allowed_commands.push(cmd@),
                ..old(self)@
            }),
    {
        proof {
            use_type_invariant(&*self);
        }
        let mut v: Vec<String> = Vec::new();
        std::mem::swap(&mut v, &mut self.allowed_commands);
        let ghost before = v@;
        let ghost cmd_view = cmd@;
        v.push(cmd);
        self.allowed_commands = v;
        proof {
            assert(strings_view(self.allowed_commands@) =~= strings_view(before).push(cmd_view));
        }
    }

    /// Adds a command that is blocked.
    pub fn add_blocked_command(&mut self, cmd: String)
        ensures
            final(self)@ == (CapabilitySetView {
                blocked_commands: old(self)@.blocked_commands.push(cmd@),
                ..old(self)@
            }),
    {
        proof {
            use_type_invariant(&*self);
        }
        let mut v: Vec<String> = Vec::new();
        std::mem::swap(&mut v, &mut self.blocked_commands);
        let ghost before = v@;
        let ghost cmd_view = cmd@;
        v.push(cmd);
        self.blocked_commands = v;
        proof {
            assert(strings_view(self.blocked_commands@) =~= strings_view(before).push(cmd_view));
        }
    }

    /// Adds a raw platform rule. A rule that is not an expression enclosed in
    /// parentheses is refused and the set is left as it was.
    pub fn add_platform_rule(&mut self, rule: String) -> (r: Result<(), NonoError>)
        ensures
            platform_rule_is_valid(rule@) ==> r is Ok && final(self)@ == (CapabilitySetView {
                platform_rules: old(self)@.platform_rules.push(rule@),
                ..old(self)@
            }),
            !platform_rule_is_valid(rule@) ==> (r matches Err(e) && e@ == platform_rule_error()
                && final(self)@ == old(self)@),
    {
        proof {
            use_type_invariant(&*self);
        }
        let n = rule.as_str().unicode_len();
        let ok = n > 0 && rule.as_str().get_char(0) == '(' && rule.as_str().get_char(n - 1) == ')';
        if !ok {
            return Err(
                NonoError::InvalidConfig(
                    String::from_str("platform rule must be an expression enclosed in parentheses"),
                ),
            );
        }
        let mut v: Vec<String> = Vec::new();
        std::mem::swap(&mut v, &mut self.platform_rules);
        let ghost before = v@;
        let ghost rule_view = rule@;
        v.push(rule);
        proof {
            assert(strings_view(v@) =~= strings_view(before).push(rule_view));
        }
        self.platform_rules = v;
        Ok(())
    }

    // ---- Builders ----

    /// The same set with the network blocked.
    pub fn block_network(self) -> (c: Self)
        ensures
            c@ == (CapabilitySetView { network_mode: NetworkModeView::Blocked, ..self@ }),
    {
        let mut c = self;
        c.set_network_mode_mut(NetworkMode::Blocked);
        c
    }

    /// The same set with outbound traffic only through a proxy on `port`.
    pub fn proxy_only(self, port: u16) -> (c: Self)
        ensures
            c@ == (CapabilitySetView {
                network_mode: NetworkModeView::ProxyOnly { port, bind_ports: Seq::empty() },
                ..self@
            }),
    {
        let mut c = self;
        c.set_network_mode_mut(NetworkMode::ProxyOnly { port, bind_ports: Vec::new() });
        c
    }

    /// The same set with outbound traffic only through a proxy on `port`, and
    /// the given ports open for binding.
    pub fn proxy_only_with_bind(self, port: u16, bind_ports: Vec<u16>) -> (c: Self)
        ensures
            c@ == (CapabilitySetView {
                network_mode: NetworkModeView::ProxyOnly { port, bind_ports: bind_ports@ },
                ..self@
            }),
    {
        let mut c = self;
        c.set_network_mode_mut(NetworkMode::ProxyOnly { port, bind_ports });
        c
    }

    /// The same set with the implicit DNS resolver grants disabled.
    pub fn block_dns(self) -> (c: Self)
        ensures
            c@ == (CapabilitySetView { dns_enabled: false, ..self@ }),
    {
        let mut c = self;
        proof {
            use_type_invariant(&c);
        }
        c.dns_enabled = false;
        c
    }

    /// The same set with sandbox extensions enabled.
    pub fn enable_extensions(self) -> (c: Self)
        ensures
            c@ == (CapabilitySetView { extensions_enabled: true, ..self@ }),
    {
        let mut c = self;
        proof {
            use_type_invariant(&c);
        }
        c.extensions_enabled = true;
        c
    }

    /// The same set with the given resource ceilings.
    pub fn with_resource_limits(self, limits: ResourceLimits) -> (c: Self)
        ensures
            c@ == (CapabilitySetView { resource_limits: Some(limits), ..self@ }),
    {
        let mut c = self;
        proof {
            use_type_invariant(&c);
        }
        c.resource_limits = Some(limits);
        c
    }

    /// The same set with one more TCP port that may be connected to.
    pub fn allow_tcp_connect(self, port: u16) -> (c: Self)
        ensures
            c@ == (CapabilitySetView {
                tcp_connect_ports: self@.tcp_connect_ports.push(port),
                ..self@
            }),
    {
        let mut c = self;
        c.add_tcp_connect_port(port);
        c
    }

    /// The same set with one more TCP port that may be bound.
    pub fn allow_tcp_bind(self, port: u16) -> (c: Self)
        ensures
            c@ == (CapabilitySetView { tcp_bind_ports: self@.tcp_bind_ports.push(port), ..self@ }),
    {
        let mut c = self;
        c.add_tcp_bind_port(port);
        c
    }

    /// The same set with one more localhost port open both ways.
    pub fn allow_localhost_port(self, port: u16) -> (c: Self)
        ensures
            c@ == (CapabilitySetView { localhost_ports: self@.localhost_ports.push(port), ..self@ }),
    {
        let mut c = self;
        c.add_localhost_port(port);
        c
    }

    /// The same set with one more inclusive localhost port range; refused when
    /// the start exceeds the end.
    pub fn allow_localhost_port_range(self, start: u16, end: u16) -> (r: Result<Self, NonoError>)
        ensures
            start <= end ==> (r matches Ok(c) && c@ == (CapabilitySetView {
                localhost_port_ranges: self@.localhost_port_ranges.push((start, end)),
                ..self@
            })),
            start > end ==> (r matches Err(e) && e@ == port_range_error()),
    {
        let mut c = self;
        match c.add_localhost_port_range(start, end) {
            Ok(()) => Ok(c),
            Err(e) => Err(e),
        }
    }

    /// The same set with the given signal mode.
    pub fn set_signal_mode(self, mode: SignalMode) -> (c: Self)
        ensures
            c@ == (CapabilitySetView { signal_mode: mode, ..self@ }),
    {
        let mut c = self;
        c.set_signal_mode_mut(mode);
        c
    }

    /// The same set with the given process inspection mode.
    pub fn set_process_info_mode(self, mode: ProcessInfoMode) -> (c: Self)
        ensures
            c@ == (CapabilitySetView { process_info_mode: mode, ..self@ }),
    {
        let mut c = self;
        c.set_process_info_mode_mut(mode);
        c
    }

    /// The same set with the given IPC mode.
    pub fn set_ipc_mode(self, mode: IpcMode) -> (c: Self)
        ensures
            c@ == (CapabilitySetView { ipc_mode: mode, ..self@ }),
    {
        let mut c = self;
        c.set_ipc_mode_mut(mode);
        c
    }

    /// The same set with one more allowed command.
    pub fn allow_command(self, cmd: &str) -> (c: Self)
        ensures
            c@ == (CapabilitySetView {
                allowed_commands: self@.allowed_commands.push(cmd@),
                ..self@
            }),
    {
        let mut c = self;
        c.add_allowed_command(String::from_str(cmd));
        c
    }

    /// The same set with one more blocked command.
    pub fn block_command(self, cmd: &str) -> (c: Self)
        ensures
            c@ == (CapabilitySetView {
                blocked_commands: self@.blocked_commands.push(cmd@),
                ..self@
            }),
    {
        let mut c = self;
        c.add_blocked_command(String::from_str(cmd));
        c
    }

    /// The same set with one more raw platform rule; refused when the rule is
    /// not an expression enclosed in parentheses.
    pub fn platform_rule(self, rule: String) -> (r: Result<Self, NonoError>)
        ensures
            platform_rule_is_valid(rule@) ==> (r matches Ok(c) && c@ == (CapabilitySetView {
                platform_rules: self@.platform_rules.push(rule@),
                ..self@
            })),
            !platform_rule_is_valid(rule@) ==> (r matches Err(e) && e@ == platform_rule_error()),
    {
        let mut c = self;
        match c.add_platform_rule(rule) {
            Ok(()) => Ok(c),
            Err(e) => Err(e),
        }
    }
}

impl Clone for CapabilitySet {
    fn clone(&self) -> (c: Self)
        ensures
            c@ == self@,
    {
        proof {
            use_type_invariant(self);
        }
        let mut fs: Vec<FsCapability> = Vec::new();
        let mut i: usize = 0;
        while i < self.fs.len()
            invariant
                i <= self.fs.len(),
                fs_caps_view(fs@) == fs_caps_view(self.fs@.subrange(0, i as int)),
            decreases self.fs.len() - i,
        {
            let ghost before = fs@;
            fs.push(self.fs[i].clone());
            proof {
                assert(self.fs@.subrange(0, i + 1) =~= self.fs@.subrange(0, i as int).push(
                    self.fs@[i as int],
                ));
                assert(fs_caps_view(fs@) =~= fs_caps_view(before).push(self.fs@[i as int]@));
                assert(fs_caps_view(self.fs@.subrange(0, i + 1)) =~= fs_caps_view(
                    self.fs@.subrange(0, i as int),
                ).push(self.fs@[i as int]@));
            }
            i = i + 1;
        }
        proof {
            assert(self.fs@.subrange(0, self.fs.len() as int) =~= self.fs@);
        }
        let mut socks: Vec<UnixSocketCapability> = Vec::new();
        let mut j: usize = 0;
        while j < self.unix_sockets.len()
            invariant
                j <= self.unix_sockets.len(),
                socket_caps_view(socks@) == socket_caps_view(
                    self.unix_sockets@.subrange(0, j as int),
                ),
            decreases self.unix_sockets.len() - j,
        {
            let ghost before = socks@;
            socks.push(self.unix_sockets[j].clone());
            proof {
                assert(self.unix_sockets@.subrange(0, j + 1) =~= self.unix_sockets@.subrange(
                    0,
                    j as int,
                ).push(self.unix_sockets@[j as int]));
                assert(socket_caps_view(socks@) =~= socket_caps_view(before).push(
                    self.unix_sockets@[j as int]@,
                ));
                assert(socket_caps_view(self.unix_sockets@.subrange(0, j + 1)) =~= socket_caps_view(
                    self.unix_sockets@.subrange(0, j as int),
                ).push(self.unix_sockets@[j as int]@));
            }
            j = j + 1;
        }
        proof {
            assert(self.unix_sockets@.subrange(0, self.unix_sockets.len() as int)
                =~= self.unix_sockets@);
        }
        let c = CapabilitySet {
            fs,
            unix_sockets: socks,
            network_mode: self.network_mode.clone(),
            dns_enabled: self.dns_enabled,
            tcp_connect_ports: copy_ports(&self.tcp_connect_ports),
            tcp_bind_ports: copy_ports(&self.tcp_bind_ports),
            localhost_ports: copy_ports(&self.localhost_ports),
            localhost_port_ranges: copy_port_ranges(&self.localhost_port_ranges),
            signal_mode: self.signal_mode,
            process_info_mode: self.process_info_mode,
            ipc_mode: self.ipc_mode,
            extensions_enabled: self.extensions_enabled,
            seatbelt_debug_deny: self.seatbelt_debug_deny,
            allowed_commands: copy_strings(&self.allowed_commands),
            blocked_commands: copy_strings(&self.blocked_commands),
            platform_rules: copy_strings(&self.platform_rules),
            resource_limits: self.resource_limits,
        };
        proof {
            assert(c@ =~= self@);
        }
        c
    }
}

} // verus!
