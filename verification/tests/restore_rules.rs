use nono::capability::{
    AccessMode, CapabilitySet, IpcMode, NetworkMode, ProcessInfoMode, SignalMode, SocketScope,
    UnixSocketMode,
};
use nono::error::NonoError;
use nono::state::{
    is_false, is_ipc_default, is_process_info_default, is_signal_default, parse_access_mode,
    parse_socket_mode, restore_fs_cap, restore_socket_cap, FsCapState, SandboxState,
    UnixSocketCapState,
};

fn empty_state() -> SandboxState {
    SandboxState::from_caps(&CapabilitySet::new())
}

fn fs_entry(path: &str, access: &str, is_file: bool) -> FsCapState {
    FsCapState {
        original: path.to_string(),
        resolved: path.to_string(),
        access: access.to_string(),
        is_file,
    }
}

fn socket_entry(
    path: &str,
    scope: Option<SocketScope>,
    is_directory: Option<bool>,
    mode: &str,
) -> UnixSocketCapState {
    UnixSocketCapState {
        original: path.to_string(),
        resolved: path.to_string(),
        scope,
        is_directory,
        mode: mode.to_string(),
    }
}

fn config_parse_message(r: Result<CapabilitySet, NonoError>) -> String {
    match r {
        Err(NonoError::ConfigParse(m)) => m,
        other => panic!("expected a ConfigParse error, got {:?}", other.map(|_| ())),
    }
}

#[test]
fn skip_predicates_match_defaults() {
    assert!(is_false(&false));
    assert!(!is_false(&true));
    assert!(is_signal_default(&SignalMode::Isolated));
    assert!(!is_signal_default(&SignalMode::AllowAll));
    assert!(is_process_info_default(&ProcessInfoMode::Isolated));
    assert!(!is_process_info_default(&ProcessInfoMode::AllowAll));
    assert!(is_ipc_default(&IpcMode::SharedMemoryOnly));
    assert!(!is_ipc_default(&IpcMode::Full));
    assert!(is_signal_default(&SignalMode::default()));
    assert!(is_process_info_default(&ProcessInfoMode::default()));
    assert!(is_ipc_default(&IpcMode::default()));
}

#[test]
fn mode_names_read_back() {
    for a in [AccessMode::Read, AccessMode::Write, AccessMode::ReadWrite] {
        assert_eq!(parse_access_mode(&a.to_string()), Some(a));
    }
    assert_eq!(AccessMode::ReadWrite.to_string(), "read+write");
    assert_eq!(parse_access_mode(&"READ".to_string()), None);
    assert_eq!(parse_access_mode(&"".to_string()), None);
    for m in [UnixSocketMode::Connect, UnixSocketMode::ConnectBind] {
        assert_eq!(parse_socket_mode(&m.to_string()), Some(m));
    }
    assert_eq!(UnixSocketMode::ConnectBind.to_string(), "connect+bind");
    assert_eq!(parse_socket_mode(&"bind".to_string()), None);
}

#[test]
fn effective_scope_prefers_recorded_scope() {
    let e = socket_entry("/s", Some(SocketScope::DirSubtree), Some(false), "connect");
    assert_eq!(e.effective_scope(), SocketScope::DirSubtree);
    let e = socket_entry("/s", None, Some(true), "connect");
    assert_eq!(e.effective_scope(), SocketScope::DirChildren);
    let e = socket_entry("/s", None, Some(false), "connect");
    assert_eq!(e.effective_scope(), SocketScope::File);
    let e = socket_entry("/s", None, None, "connect");
    assert_eq!(e.effective_scope(), SocketScope::File);
}

#[test]
fn invalid_access_mode_message() {
    let mut state = empty_state();
    state.fs.push(fs_entry("/tmp", "root-access", false));
    let m = config_parse_message(state.to_caps(&vec![Ok("/tmp".to_string())], &Vec::new()));
    assert_eq!(m, "invalid access mode in sandbox state: root-access");
}

#[test]
fn invalid_socket_mode_message() {
    let mut state = empty_state();
    state.unix_sockets.push(socket_entry("/tmp", None, Some(true), "bind-only"));
    let m = config_parse_message(state.to_caps(&Vec::new(), &vec![Ok("/tmp".to_string())]));
    assert_eq!(m, "invalid unix socket mode in sandbox state: bind-only");
}

#[test]
fn drifted_socket_is_refused() {
    let mut state = empty_state();
    state.unix_sockets.push(UnixSocketCapState {
        original: "/evil/link".to_string(),
        resolved: "/run/app.sock".to_string(),
        scope: Some(SocketScope::File),
        is_directory: None,
        mode: "connect".to_string(),
    });
    let m = config_parse_message(
        state.to_caps(&Vec::new(), &vec![Ok("/evil/target.sock".to_string())]),
    );
    assert_eq!(
        m,
        "unix socket grant canonical path drifted at state reload: \
         serialized resolved=/run/app.sock, actual resolved=/evil/target.sock"
    );
}

#[test]
fn resolution_error_is_passed_on() {
    let mut state = empty_state();
    state.fs.push(fs_entry("/etc", "read", true));
    let r = state.to_caps(&vec![Err(NonoError::ExpectedFile("/etc".to_string()))], &Vec::new());
    assert!(matches!(r, Err(NonoError::ExpectedFile(p)) if p == "/etc"));
    let mut state = empty_state();
    state.unix_sockets.push(socket_entry("/run/x", None, None, "connect"));
    let r = state.to_caps(
        &Vec::new(),
        &vec![Err(NonoError::ExpectedDirectory("/run/x".to_string()))],
    );
    assert!(matches!(r, Err(NonoError::ExpectedDirectory(p)) if p == "/run/x"));
}

#[test]
fn first_failing_entry_gives_the_error() {
    // The path of the first entry does not resolve; the second entry's access
    // mode is bad. The first failure in order wins.
    let mut state = empty_state();
    state.fs.push(fs_entry("/missing", "read", false));
    state.fs.push(fs_entry("/tmp", "bogus", false));
    let r = state.to_caps(
        &vec![
            Err(NonoError::PathNotFound("/missing".to_string())),
            Ok("/tmp".to_string()),
        ],
        &Vec::new(),
    );
    assert!(matches!(r, Err(NonoError::PathNotFound(p)) if p == "/missing"));
    // A bad access mode is reported before the path of the same entry.
    let mut state = empty_state();
    state.fs.push(fs_entry("/missing", "bogus", false));
    let r = state.to_caps(
        &vec![Err(NonoError::PathNotFound("/missing".to_string()))],
        &Vec::new(),
    );
    assert_eq!(
        config_parse_message(r),
        "invalid access mode in sandbox state: bogus"
    );
}

#[test]
fn filesystem_errors_come_before_socket_errors() {
    let mut state = empty_state();
    state.fs.push(fs_entry("/tmp", "nope", false));
    state.unix_sockets.push(socket_entry("/tmp", None, None, "nope"));
    let r = state.to_caps(&vec![Ok("/tmp".to_string())], &vec![Ok("/tmp".to_string())]);
    assert_eq!(
        config_parse_message(r),
        "invalid access mode in sandbox state: nope"
    );
}

#[test]
fn reversed_port_range_is_refused() {
    let mut state = empty_state();
    state.localhost_port_ranges.push((5000, 4000));
    let r = state.to_caps(&Vec::new(), &Vec::new());
    assert!(
        matches!(r, Err(NonoError::InvalidConfig(m)) if m == "localhost port range start must not exceed its end")
    );
    assert!(CapabilitySet::new()
        .allow_localhost_port_range(5000, 4000)
        .is_err());
    let caps = CapabilitySet::new()
        .allow_localhost_port_range(4000, 4000)
        .expect("a range of one port");
    assert_eq!(caps.localhost_port_ranges(), &vec![(4000, 4000)]);
}

#[test]
fn malformed_platform_rule_is_refused() {
    for rule in ["", "(", ")", "allow file-read*", "(allow file-read*"] {
        let mut state = empty_state();
        state.platform_rules.push(rule.to_string());
        let r = state.to_caps(&Vec::new(), &Vec::new());
        assert!(
            matches!(r, Err(NonoError::InvalidConfig(ref m)) if m == "platform rule must be an expression enclosed in parentheses"),
            "rule {rule:?} must be refused"
        );
    }
    let mut caps = CapabilitySet::new();
    assert!(caps.add_platform_rule("()".to_string()).is_ok());
    assert!(caps.add_platform_rule("bad".to_string()).is_err());
    assert_eq!(caps.platform_rules(), &vec!["()".to_string()]);
}

#[test]
fn port_range_error_comes_before_platform_rule_error() {
    let mut state = empty_state();
    state.localhost_port_ranges.push((2, 1));
    state.platform_rules.push("bad".to_string());
    let r = state.to_caps(&Vec::new(), &Vec::new());
    assert!(
        matches!(r, Err(NonoError::InvalidConfig(m)) if m == "localhost port range start must not exceed its end")
    );
}

#[test]
fn restore_single_entries() {
    let st = fs_entry("/data", "write", false);
    let cap = restore_fs_cap(&st, &Ok("/srv/data".to_string())).expect("restored");
    assert_eq!(cap.original, "/data");
    assert_eq!(cap.resolved, "/srv/data");
    assert_eq!(cap.access, AccessMode::Write);
    assert!(!cap.is_file);

    let st = socket_entry("/run/d", None, Some(true), "connect+bind");
    let cap = restore_socket_cap(&st, &Ok("/run/d".to_string())).expect("restored");
    assert_eq!(cap.scope, SocketScope::DirChildren);
    assert_eq!(cap.mode, UnixSocketMode::ConnectBind);
}

#[test]
fn proxy_state_is_recorded_as_blocked_for_older_readers() {
    let caps = CapabilitySet::new().proxy_only_with_bind(9090, vec![3000]);
    let state = SandboxState::from_caps(&caps);
    assert!(state.net_blocked);
    assert!(!state.dns_blocked);
    assert_eq!(
        state.network_mode,
        Some(NetworkMode::ProxyOnly {
            port: 9090,
            bind_ports: vec![3000]
        })
    );
    let state = SandboxState::from_caps(&CapabilitySet::new());
    assert!(!state.net_blocked);
}

#[test]
fn recorded_socket_has_scope_and_no_legacy_flag() {
    let mut caps = CapabilitySet::new();
    caps.add_unix_socket(nono::capability::UnixSocketCapability {
        original: "/run/sockets".to_string(),
        resolved: "/run/sockets".to_string(),
        scope: SocketScope::DirSubtree,
        mode: UnixSocketMode::ConnectBind,
    });
    let state = SandboxState::from_caps(&caps);
    assert_eq!(state.unix_sockets[0].scope, Some(SocketScope::DirSubtree));
    assert_eq!(state.unix_sockets[0].is_directory, None);
    assert_eq!(state.unix_sockets[0].mode, "connect+bind");
}

#[test]
fn capability_set_defaults() {
    let caps = CapabilitySet::new();
    assert_eq!(caps.network_mode(), &NetworkMode::AllowAll);
    assert!(!caps.is_network_blocked());
    assert!(caps.dns_enabled());
    assert!(!caps.block_dns().dns_enabled());
    assert!(CapabilitySet::new().block_network().is_network_blocked());
    assert!(CapabilitySet::new().proxy_only(1).is_network_blocked());
    let mut caps = CapabilitySet::new();
    caps.set_network_blocked(true);
    assert_eq!(caps.network_mode(), &NetworkMode::Blocked);
    caps.set_network_blocked(false);
    assert_eq!(caps.network_mode(), &NetworkMode::AllowAll);
}
