use nono::capability::{CapabilitySet, SocketScope, UnixSocketMode};
use nono::error::NonoError;
use nono::path::paths_equal;
use nono::resolve::{resolve_fs_path, resolve_socket_path, PathFacts};
use nono::state::{FsCapState, SandboxState, UnixSocketCapState};

fn same(a: &str, b: &str) -> bool {
    paths_equal(&a.to_string(), &b.to_string())
}

#[test]
fn paths_compare_by_components() {
    assert!(same("/tmp/s/", "/tmp/s"));
    assert!(same("/tmp//s", "/tmp/s"));
    assert!(same("/tmp/./s", "/tmp/s"));
    assert!(same("/tmp/s/.", "/tmp/s"));
    assert!(same("/", "//"));
    assert!(same("a/b", "a//b/"));
    assert!(same(".", "./"));
    assert!(same("", ""));
    assert!(!same("/tmp/s", "/tmp/t"));
    assert!(!same("/tmp/s", "tmp/s"));
    assert!(!same("./a", "a"));
    assert!(!same("/a/../b", "/b"));
    assert!(!same("/tmp/s", "/tmp/s/x"));
    assert!(!same("/tmp/ab", "/tmp/a/b"));
}

fn socket_state(recorded: &str) -> SandboxState {
    let mut state = SandboxState::from_caps(&CapabilitySet::new());
    state.unix_sockets.push(UnixSocketCapState {
        original: "/tmp/link".to_string(),
        resolved: recorded.to_string(),
        scope: Some(SocketScope::File),
        is_directory: None,
        mode: "connect".to_string(),
    });
    state
}

#[test]
fn socket_path_with_trailing_separator_is_no_drift() {
    let state = socket_state("/tmp/s/");
    let caps = state
        .to_caps(&Vec::new(), &vec![Ok("/tmp/s".to_string())])
        .expect("the same path");
    assert_eq!(caps.unix_socket_capabilities()[0].resolved, "/tmp/s");
}

#[test]
fn socket_path_with_other_components_drifts() {
    let state = socket_state("/a/../b");
    let r = state.to_caps(&Vec::new(), &vec![Ok("/b".to_string())]);
    assert!(matches!(r, Err(NonoError::ConfigParse(_))));
}

fn facts(canonical: &str, is_file: bool, is_dir: bool) -> Option<PathFacts> {
    Some(PathFacts {
        canonical: canonical.to_string(),
        is_file,
        is_dir,
    })
}

#[test]
fn fs_path_resolution() {
    let p = "/home/u/link".to_string();
    assert_eq!(
        resolve_fs_path(&p, false, &facts("/srv/home", false, true)).unwrap(),
        "/srv/home"
    );
    assert!(matches!(resolve_fs_path(&p, false, &None), Err(NonoError::PathNotFound(x)) if x == p));
    assert!(matches!(
        resolve_fs_path(&p, true, &facts("/srv/home", false, true)),
        Err(NonoError::ExpectedFile(x)) if x == p
    ));
    assert!(matches!(
        resolve_fs_path(&p, false, &facts("/srv/f", true, false)),
        Err(NonoError::ExpectedDirectory(x)) if x == p
    ));
}

#[test]
fn socket_path_resolution() {
    let p = "/run/app.sock".to_string();
    let existing = facts("/private/run/app.sock", false, false);
    assert_eq!(
        resolve_socket_path(&p, SocketScope::File, UnixSocketMode::Connect, &existing, &None)
            .unwrap(),
        "/private/run/app.sock"
    );
    // A socket that does not exist yet may be bound, under its canonical parent.
    let pending = Some("/private/run/app.sock".to_string());
    assert_eq!(
        resolve_socket_path(&p, SocketScope::File, UnixSocketMode::ConnectBind, &None, &pending)
            .unwrap(),
        "/private/run/app.sock"
    );
    // ... but not merely connected to.
    assert!(matches!(
        resolve_socket_path(&p, SocketScope::File, UnixSocketMode::Connect, &None, &pending),
        Err(NonoError::PathNotFound(_))
    ));
    assert!(matches!(
        resolve_socket_path(&p, SocketScope::File, UnixSocketMode::ConnectBind, &None, &None),
        Err(NonoError::PathNotFound(_))
    ));
    assert!(matches!(
        resolve_socket_path(
            &p,
            SocketScope::File,
            UnixSocketMode::Connect,
            &facts("/run", false, true),
            &None
        ),
        Err(NonoError::ExpectedFile(_))
    ));
    assert!(matches!(
        resolve_socket_path(&p, SocketScope::DirChildren, UnixSocketMode::Connect, &existing, &None),
        Err(NonoError::ExpectedDirectory(_))
    ));
    assert_eq!(
        resolve_socket_path(
            &p,
            SocketScope::DirSubtree,
            UnixSocketMode::Connect,
            &facts("/run", false, true),
            &None
        )
        .unwrap(),
        "/run"
    );
}

#[test]
fn persisted_records_can_be_cloned() {
    let state = socket_state("/tmp/s");
    let copy = state.clone();
    assert_eq!(copy.unix_sockets[0].resolved, state.unix_sockets[0].resolved);
    assert_eq!(copy.unix_sockets.len(), 1);
}

#[test]
fn restore_from_facts_checks_each_entry_as_it_calls_for() {
    let mut state = SandboxState::from_caps(&CapabilitySet::new());
    state.fs.push(FsCapState {
        original: "/etc/hosts".to_string(),
        resolved: "/etc/hosts".to_string(),
        access: "read".to_string(),
        is_file: true,
    });
    state.unix_sockets.push(UnixSocketCapState {
        original: "/run/new.sock".to_string(),
        resolved: "/private/run/new.sock".to_string(),
        scope: Some(SocketScope::File),
        is_directory: None,
        mode: "connect+bind".to_string(),
    });
    let caps = state
        .to_caps_from_facts(
            &vec![facts("/private/etc/hosts", true, false)],
            &vec![None],
            &vec![Some("/private/run/new.sock".to_string())],
        )
        .expect("restored");
    assert_eq!(caps.fs_capabilities()[0].resolved, "/private/etc/hosts");
    assert_eq!(caps.unix_socket_capabilities()[0].resolved, "/private/run/new.sock");

    // The file entry names a directory now.
    let r = state.to_caps_from_facts(
        &vec![facts("/private/etc/hosts", false, true)],
        &vec![None],
        &vec![Some("/private/run/new.sock".to_string())],
    );
    assert!(matches!(r, Err(NonoError::ExpectedFile(p)) if p == "/etc/hosts"));

    // A connect-only socket must exist.
    state.unix_sockets[0].mode = "connect".to_string();
    let r = state.to_caps_from_facts(
        &vec![facts("/private/etc/hosts", true, false)],
        &vec![None],
        &vec![Some("/private/run/new.sock".to_string())],
    );
    assert!(matches!(r, Err(NonoError::PathNotFound(p)) if p == "/run/new.sock"));

    // An unknown mode is refused for its mode.
    state.unix_sockets[0].mode = "listen".to_string();
    let r = state.to_caps_from_facts(
        &vec![facts("/private/etc/hosts", true, false)],
        &vec![None],
        &vec![None],
    );
    assert!(
        matches!(r, Err(NonoError::ConfigParse(m)) if m == "invalid unix socket mode in sandbox state: listen")
    );
}
