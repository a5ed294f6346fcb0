use nono::capability::{
    AccessMode, CapabilitySet, FsCapability, IpcMode, NetworkMode, ProcessInfoMode, SignalMode,
    SocketScope, UnixSocketCapability, UnixSocketMode,
};
use nono::error::NonoError;
use nono::resource::ResourceLimits;
use nono::state::{
    is_false, is_ipc_default, is_process_info_default, is_signal_default, FsCapState,
    SandboxState, UnixSocketCapState,
};

type Resolutions = Vec<Result<String, NonoError>>;

/// What resolving every recorded path gives when nothing on disk has changed:
/// the path that was recorded.
fn unchanged(state: &SandboxState) -> (Resolutions, Resolutions) {
    let fs = state.fs.iter().map(|c| Ok(c.resolved.clone())).collect();
    let sockets = state.unix_sockets.iter().map(|c| Ok(c.resolved.clone())).collect();
    (fs, sockets)
}

fn restore(state: &SandboxState) -> Result<CapabilitySet, NonoError> {
    let (fs, sockets) = unchanged(state);
    state.to_caps(&fs, &sockets)
}

/// The state that a JSON record written by an older build reads as (only `fs`
/// and `net_blocked` present, every other field at the default that serde fills
/// in, in app/).
fn legacy_state(net_blocked: bool) -> SandboxState {
    SandboxState {
        fs: Vec::new(),
        unix_sockets: Vec::new(),
        net_blocked,
        network_mode: None,
        dns_blocked: false,
        tcp_connect_ports: Vec::new(),
        tcp_bind_ports: Vec::new(),
        localhost_ports: Vec::new(),
        localhost_port_ranges: Vec::new(),
        signal_mode: SignalMode::default(),
        process_info_mode: ProcessInfoMode::default(),
        ipc_mode: IpcMode::default(),
        extensions_enabled: false,
        seatbelt_debug_deny: false,
        allowed_commands: Vec::new(),
        blocked_commands: Vec::new(),
        platform_rules: Vec::new(),
        resource_limits: None,
    }
}

#[test]
fn test_dns_blocking_roundtrip() -> Result<(), NonoError> {
    // The JSON leg of this round trip is in app/; here the record goes straight back.
    for caps in [
        CapabilitySet::new(),
        CapabilitySet::new().block_network(),
        CapabilitySet::new().proxy_only(8080),
    ] {
        for block_dns in [false, true] {
            let caps = if block_dns {
                caps.clone().block_dns()
            } else {
                caps.clone()
            };
            let restored = restore(&SandboxState::from_caps(&caps))?;
            assert_eq!(restored.dns_enabled(), caps.dns_enabled());
        }
    }
    Ok(())
}

#[test]
fn test_legacy_state_keeps_dns_enabled() -> Result<(), NonoError> {
    // Reading an older JSON record (defaults filled in by serde) is in app/; here the record it reads as.
    for net_blocked in [false, true] {
        let restored = restore(&legacy_state(net_blocked))?;
        assert!(restored.dns_enabled());
        assert_eq!(restored.is_network_blocked(), net_blocked);
    }
    Ok(())
}

#[test]
fn test_state_roundtrip() {
    // Writing and reading the JSON is in app/; here the record itself.
    let caps = CapabilitySet::new().block_network();
    let state = SandboxState::from_caps(&caps);

    assert!(state.net_blocked);
    assert!(state.fs.is_empty());

    let restored = restore(&state).expect("restore state");
    assert!(restored.is_network_blocked());
}

#[test]
fn test_resource_limits_roundtrip() {
    // The JSON leg of this round trip is in app/; here the record goes straight back.
    let caps = CapabilitySet::new().with_resource_limits(ResourceLimits {
        memory_bytes: Some(512 * 1024 * 1024),
        max_processes: None,
    });
    let state = SandboxState::from_caps(&caps);
    assert_eq!(
        state.resource_limits.and_then(|l| l.memory_bytes),
        Some(512 * 1024 * 1024)
    );

    let caps2 = restore(&state).expect("to_caps");
    assert_eq!(caps2.resource_limits(), caps.resource_limits());
}

#[test]
fn test_resource_limits_absent_in_legacy_state() {
    // Filling in an absent key is serde's, in app/; here the record an older JSON reads as.
    let state = legacy_state(false);
    assert!(state.resource_limits.is_none());
    let caps = restore(&state).expect("legacy state");
    assert!(caps.resource_limits().is_none());
}

#[test]
fn state_without_limits_omits_resource_limits_key() {
    // Which keys the JSON omits is decided in app/; here only that the record holds no limits.
    let caps = CapabilitySet::new().block_network();
    let state = SandboxState::from_caps(&caps);
    assert!(state.resource_limits.is_none());
}

#[test]
fn state_with_limits_serializes_inner_value() {
    // The JSON shape is in app/; here only the value the record holds.
    let caps = CapabilitySet::new()
        .block_network()
        .with_resource_limits(ResourceLimits {
            memory_bytes: Some(256 * 1024 * 1024),
            max_processes: None,
        });
    let state = SandboxState::from_caps(&caps);
    let inner = state.resource_limits.and_then(|l| l.memory_bytes);
    assert_eq!(inner, Some(256 * 1024 * 1024));
}

#[test]
fn legacy_state_defaults_resource_limits_and_unix_sockets() {
    // Filling in absent keys is serde's, in app/; here the record an older JSON reads as, restored.
    let state = legacy_state(true);
    assert!(state.resource_limits.is_none(), "absent field -> None");
    assert!(state.unix_sockets.is_empty(), "absent field -> empty vec");
    assert!(state.net_blocked);
    let caps = restore(&state).expect("legacy state loads");
    assert!(caps.resource_limits().is_none());
    assert!(caps.unix_socket_capabilities().is_empty());
}

#[test]
fn test_to_caps_rejects_nonexistent_path() {
    let mut state = legacy_state(false);
    state.fs.push(FsCapState {
        original: "/nonexistent/crafted/path".to_string(),
        resolved: "/nonexistent/crafted/path".to_string(),
        access: "read+write".to_string(),
        is_file: false,
    });
    let fs = vec![Err(NonoError::PathNotFound(
        "/nonexistent/crafted/path".to_string(),
    ))];
    let result = state.to_caps(&fs, &Vec::new());
    assert!(result.is_err(), "to_caps must reject nonexistent paths");
    assert!(matches!(result, Err(NonoError::PathNotFound(p)) if p == "/nonexistent/crafted/path"));
}

#[test]
fn test_to_caps_rejects_invalid_access_mode() {
    let mut state = legacy_state(false);
    state.fs.push(FsCapState {
        original: "/tmp".to_string(),
        resolved: "/tmp".to_string(),
        access: "root-access".to_string(),
        is_file: false,
    });
    assert!(
        restore(&state).is_err(),
        "to_caps must reject invalid access modes"
    );
}

#[test]
fn test_unix_socket_state_roundtrip_preserves_original_and_resolved() {
    let mut caps = CapabilitySet::new();
    caps.add_unix_socket(UnixSocketCapability {
        original: "/tmp/nono-test/a.sock".to_string(),
        resolved: "/private/tmp/nono-test/a.sock".to_string(),
        scope: SocketScope::File,
        mode: UnixSocketMode::Connect,
    });
    let state = SandboxState::from_caps(&caps);
    let restored = restore(&state).expect("to_caps");

    let round = restored.unix_socket_capabilities();
    assert_eq!(round.len(), 1);
    let before = &caps.unix_socket_capabilities()[0];
    let after = &round[0];
    assert_eq!(after.resolved, before.resolved);
    assert_eq!(after.original, before.original);
    assert_eq!(after.mode, before.mode);
    assert_eq!(after.scope, before.scope);
}

#[test]
fn test_unix_socket_state_legacy_is_directory_maps_to_dir_children() {
    let mut state = legacy_state(false);
    state.unix_sockets.push(UnixSocketCapState {
        original: "/tmp/nono-dir".to_string(),
        resolved: "/private/tmp/nono-dir".to_string(),
        scope: None,
        is_directory: Some(true),
        mode: "connect".to_string(),
    });
    let caps = restore(&state).expect("to_caps");
    let sockets = caps.unix_socket_capabilities();
    assert_eq!(sockets.len(), 1);
    assert_eq!(sockets[0].scope, SocketScope::DirChildren);
}

#[test]
fn test_unix_socket_state_rejects_invalid_mode() {
    let mut state = legacy_state(false);
    state.unix_sockets.push(UnixSocketCapState {
        original: "/tmp".to_string(),
        resolved: "/tmp".to_string(),
        scope: None,
        is_directory: Some(true),
        mode: "bind-only".to_string(),
    });
    assert!(
        restore(&state).is_err(),
        "to_caps must reject unknown unix socket modes"
    );
}

#[test]
fn test_network_mode_proxy_only_roundtrip() -> Result<(), NonoError> {
    let caps = CapabilitySet::new().proxy_only(8080);
    let state = SandboxState::from_caps(&caps);
    assert_eq!(
        state.network_mode,
        Some(NetworkMode::ProxyOnly {
            port: 8080,
            bind_ports: Vec::new()
        })
    );
    // net_blocked stays true for backward compat
    assert!(state.net_blocked);
    let restored = restore(&state)?;
    assert_eq!(restored.network_mode(), caps.network_mode());
    assert_eq!(restored.is_network_blocked(), caps.is_network_blocked());
    Ok(())
}

#[test]
fn test_network_mode_proxy_only_with_bind_ports_roundtrip() -> Result<(), NonoError> {
    let caps = CapabilitySet::new().proxy_only_with_bind(9090, vec![3000, 3001]);
    let state = SandboxState::from_caps(&caps);
    let restored = restore(&state)?;
    assert_eq!(restored.network_mode(), caps.network_mode());
    Ok(())
}

#[test]
fn test_network_mode_blocked_and_allow_all_roundtrip() -> Result<(), NonoError> {
    for caps in [CapabilitySet::new().block_network(), CapabilitySet::new()] {
        let state = SandboxState::from_caps(&caps);
        let restored = restore(&state)?;
        assert_eq!(restored.network_mode(), caps.network_mode());
    }
    Ok(())
}

#[test]
fn test_legacy_proxy_only_collapse_fixed() -> Result<(), NonoError> {
    // The JSON leg is in app/; here the records themselves.
    // A legacy record has net_blocked=true but no network_mode: it falls back
    // to Blocked (a proxy cannot be inferred).
    let legacy = restore(&legacy_state(true))?;
    assert_eq!(legacy.network_mode(), &NetworkMode::Blocked);

    // A new record keeps ProxyOnly distinct.
    let caps = CapabilitySet::new().proxy_only(7070);
    let state = SandboxState::from_caps(&caps);
    assert!(
        state.network_mode.is_some(),
        "new state must include network_mode"
    );
    let restored = restore(&state)?;
    assert_eq!(
        restored.network_mode(),
        &NetworkMode::ProxyOnly {
            port: 7070,
            bind_ports: vec![]
        }
    );
    Ok(())
}

#[test]
fn test_localhost_and_tcp_ports_roundtrip() -> Result<(), NonoError> {
    let caps = CapabilitySet::new()
        .allow_localhost_port(3000)
        .allow_localhost_port(3001)
        .allow_tcp_connect(443)
        .allow_tcp_bind(8080);
    let caps = caps.allow_localhost_port_range(4000, 4005).expect("range");
    let state = SandboxState::from_caps(&caps);
    assert_eq!(state.localhost_ports, vec![3000, 3001]);
    assert_eq!(state.tcp_connect_ports, vec![443]);
    assert_eq!(state.tcp_bind_ports, vec![8080]);
    assert_eq!(state.localhost_port_ranges, vec![(4000, 4005)]);
    let restored = restore(&state)?;
    assert_eq!(restored.localhost_ports(), caps.localhost_ports());
    assert_eq!(restored.tcp_connect_ports(), caps.tcp_connect_ports());
    assert_eq!(restored.tcp_bind_ports(), caps.tcp_bind_ports());
    assert_eq!(
        restored.localhost_port_ranges(),
        caps.localhost_port_ranges()
    );
    Ok(())
}

#[test]
fn test_signal_and_ipc_modes_roundtrip() -> Result<(), NonoError> {
    let caps = CapabilitySet::new()
        .set_signal_mode(SignalMode::AllowAll)
        .set_process_info_mode(ProcessInfoMode::AllowAll)
        .set_ipc_mode(IpcMode::Full);
    let state = SandboxState::from_caps(&caps);
    let restored = restore(&state)?;
    assert_eq!(restored.signal_mode(), caps.signal_mode());
    assert_eq!(restored.process_info_mode(), caps.process_info_mode());
    assert_eq!(restored.ipc_mode(), caps.ipc_mode());
    Ok(())
}

#[test]
fn test_commands_and_platform_rules_roundtrip() -> Result<(), NonoError> {
    let caps = CapabilitySet::new()
        .allow_command("cargo")
        .block_command("curl")
        .platform_rule("(allow file-read* (subpath \"/tmp\"))".to_string())
        .expect("platform rule");
    let caps = caps.enable_extensions();
    let mut caps = caps;
    caps.set_seatbelt_debug_deny(true);
    let state = SandboxState::from_caps(&caps);
    assert_eq!(state.allowed_commands, vec!["cargo"]);
    assert_eq!(state.blocked_commands, vec!["curl"]);
    assert_eq!(
        state.platform_rules,
        vec!["(allow file-read* (subpath \"/tmp\"))"]
    );
    assert!(state.extensions_enabled);
    assert!(state.seatbelt_debug_deny);
    let restored = restore(&state)?;
    assert_eq!(restored.allowed_commands(), caps.allowed_commands());
    assert_eq!(restored.blocked_commands(), caps.blocked_commands());
    assert_eq!(restored.platform_rules(), caps.platform_rules());
    assert_eq!(restored.extensions_enabled(), caps.extensions_enabled());
    assert_eq!(restored.seatbelt_debug_deny(), caps.seatbelt_debug_deny());
    Ok(())
}

#[test]
fn test_legacy_state_without_new_fields_still_loads() -> Result<(), NonoError> {
    // Filling in absent keys is serde's, in app/; here the record an older JSON reads as, restored.
    let state = legacy_state(false);
    assert!(state.network_mode.is_none());
    assert!(state.tcp_connect_ports.is_empty());
    assert!(state.localhost_ports.is_empty());
    assert_eq!(state.signal_mode, SignalMode::Isolated);
    let caps = restore(&state)?;
    assert_eq!(caps.network_mode(), &NetworkMode::AllowAll);
    Ok(())
}

#[test]
fn test_new_state_omits_default_fields_for_backward_compat() -> Result<(), NonoError> {
    // The JSON leaves out the fields that these checks call default (in app/); here the record and the checks.
    let caps = CapabilitySet::new();
    let state = SandboxState::from_caps(&caps);
    // Empty lists and default modes and flags are the values left out when
    // the state is written.
    assert!(
        state.tcp_connect_ports.is_empty(),
        "empty tcp_connect_ports should be omitted"
    );
    assert!(
        state.localhost_ports.is_empty(),
        "empty localhost_ports should be omitted"
    );
    assert!(
        state.platform_rules.is_empty(),
        "empty platform_rules should be omitted"
    );
    assert!(
        state.allowed_commands.is_empty(),
        "empty allowed_commands should be omitted"
    );
    assert!(is_signal_default(&state.signal_mode));
    assert!(is_process_info_default(&state.process_info_mode));
    assert!(is_ipc_default(&state.ipc_mode));
    assert!(is_false(&state.extensions_enabled));
    assert!(is_false(&state.seatbelt_debug_deny));
    // network_mode is Some(AllowAll): it is recorded explicitly.
    assert!(
        state.network_mode.is_some(),
        "AllowAll should be serialized explicitly"
    );
    assert_eq!(state.network_mode, Some(NetworkMode::AllowAll));
    Ok(())
}

#[test]
fn fs_capability_roundtrip_keeps_every_field() -> Result<(), NonoError> {
    let mut caps = CapabilitySet::new();
    caps.add_fs(FsCapability {
        original: "/home/user/project".to_string(),
        resolved: "/home/user/project".to_string(),
        access: AccessMode::ReadWrite,
        is_file: false,
    });
    caps.add_fs(FsCapability {
        original: "/etc/hosts".to_string(),
        resolved: "/private/etc/hosts".to_string(),
        access: AccessMode::Read,
        is_file: true,
    });
    let state = SandboxState::from_caps(&caps);
    assert_eq!(state.fs[0].access, "read+write");
    assert_eq!(state.fs[1].access, "read");
    assert!(state.fs[1].is_file);
    let restored = restore(&state)?;
    assert_eq!(restored.fs_capabilities(), caps.fs_capabilities());
    Ok(())
}
