//! How a recorded path is resolved, from what the filesystem says of it.
//!
//! Looking at the disk is left to the caller; these functions decide, from
//! those plain facts, which canonical path a capability gets or why it gets
//! none.
use crate::capability::{CapabilitySet, SocketScope, UnixSocketMode};
use crate::error::{NonoError, NonoErrorView};
use crate::path::same_path;
use crate::state::{
    all_platform_rules_valid, all_port_ranges_valid, caps_result_view,
    lemma_fs_caps_by_entry, lemma_socket_caps_by_entry, parse_socket_mode, resolution_view,
    resolutions_view, restored_caps, restored_fs_caps, restored_socket_caps, scope_of,
    socket_mode_named, FsCapStateView, SandboxState, SandboxStateView, UnixSocketCapStateView,
};
use vstd::prelude::*;

verus! {

/// What the filesystem says of a path that exists.
#[derive(Debug)]
pub struct PathFacts {
    /// The path with every symbolic link and relative step resolved.
    pub canonical: String,
    /// Whether it is a regular file.
    pub is_file: bool,
    /// Whether it is a directory.
    pub is_dir: bool,
}

/// The facts of a path with its canonical path as a character sequence.
pub struct PathFactsView {
    pub canonical: Seq<char>,
    pub is_file: bool,
    pub is_dir: bool,
}

impl View for PathFacts {
    type V = PathFactsView;

    open spec fn view(&self) -> PathFactsView {
        PathFactsView { canonical: self.canonical@, is_file: self.is_file, is_dir: self.is_dir }
    }
}

/// The view of the facts of a path that may not exist.
pub open spec fn facts_view(f: Option<PathFacts>) -> Option<PathFactsView> {
    match f {
        Some(f) => Some(f@),
        None => None,
    }
}

/// A filesystem capability's path resolved: it must exist (`facts` is `None`
/// where it does not) and be a file or a directory as `is_file` says; it
/// resolves to its canonical path.
pub open spec fn resolved_fs_path(
    original: Seq<char>,
    is_file: bool,
    facts: Option<PathFactsView>,
) -> Result<Seq<char>, NonoErrorView> {
    match facts {
        None => Err(NonoErrorView::PathNotFound(original)),
        Some(f) => if is_file && !f.is_file {
            Err(NonoErrorView::ExpectedFile(original))
        } else if !is_file && !f.is_dir {
            Err(NonoErrorView::ExpectedDirectory(original))
        } else {
            Ok(f.canonical)
        },
    }
}

/// A socket capability's path resolved. For the directory scopes it must be
/// an existing directory. For a single socket it must exist and not be a
/// directory, except that a socket the sandbox may bind need not exist yet:
/// it then resolves to `pending`, its canonical parent directory joined with
/// its file name (`None` where the parent does not resolve).
pub open spec fn resolved_socket_path(
    original: Seq<char>,
    scope: SocketScope,
    mode: UnixSocketMode,
    target: Option<PathFactsView>,
    pending: Option<Seq<char>>,
) -> Result<Seq<char>, NonoErrorView> {
    match scope {
        SocketScope::File => match target {
            None => if mode == UnixSocketMode::ConnectBind {
                match pending {
                    Some(p) => Ok(p),
                    None => Err(NonoErrorView::PathNotFound(original)),
                }
            } else {
                Err(NonoErrorView::PathNotFound(original))
            },
            Some(f) => if f.is_dir {
                Err(NonoErrorView::ExpectedFile(original))
            } else {
                Ok(f.canonical)
            },
        },
        _ => resolved_fs_path(original, false, target),
    }
}

/// Resolves a filesystem capability's path from what the filesystem says of it.
pub fn resolve_fs_path(original: &String, is_file: bool, facts: &Option<PathFacts>) -> (r: Result<
    String,
    NonoError,
>)
    ensures
        resolution_view(r) == resolved_fs_path(original@, is_file, facts_view(*facts)),
{
    match facts {
        None => Err(NonoError::PathNotFound(original.clone())),
        Some(f) => {
            if is_file && !f.is_file {
                Err(NonoError::ExpectedFile(original.clone()))
            } else if !is_file && !f.is_dir {
                Err(NonoError::ExpectedDirectory(original.clone()))
            } else {
                Ok(f.canonical.clone())
            }
        },
    }
}

/// Resolves a socket capability's path from what the filesystem says of it
/// and, for a socket that does not exist yet, of its parent directory.
pub fn resolve_socket_path(
    original: &String,
    scope: SocketScope,
    mode: UnixSocketMode,
    target: &Option<PathFacts>,
    pending: &Option<String>,
) -> (r: Result<String, NonoError>)
    ensures
        resolution_view(r) == resolved_socket_path(
            original@,
            scope,
            mode,
            facts_view(*target),
            match *pending {
                Some(p) => Some(p@),
                None => None,
            },
        ),
{
    match scope {
        SocketScope::File => match target {
            None => {
                if mode == UnixSocketMode::ConnectBind {
                    match pending {
                        Some(p) => Ok(p.clone()),
                        None => Err(NonoError::PathNotFound(original.clone())),
                    }
                } else {
                    Err(NonoError::PathNotFound(original.clone()))
                }
            },
            Some(f) => {
                if f.is_dir {
                    Err(NonoError::ExpectedFile(original.clone()))
                } else {
                    Ok(f.canonical.clone())
                }
            },
        },
        _ => resolve_fs_path(original, false, target),
    }
}

/// The view of a path that may be missing.
pub open spec fn pending_view(p: Option<String>) -> Option<Seq<char>> {
    match p {
        Some(p) => Some(p@),
        None => None,
    }
}

/// What resolving each persisted filesystem path gives, from what the
/// filesystem says of each: entry `i` is checked for its own `is_file`.
pub open spec fn fs_outcomes(
    entries: Seq<FsCapStateView>,
    facts: Seq<Option<PathFacts>>,
) -> Seq<Result<Seq<char>, NonoErrorView>> {
    Seq::new(
        entries.len(),
        |i: int| resolved_fs_path(entries[i].original, entries[i].is_file, facts_view(facts[i])),
    )
}

/// What resolving one persisted socket path gives: checked for the entry's
/// effective scope and its mode. An entry whose mode names none is refused for
/// that before its path is looked at; its outcome here is `PathNotFound`.
pub open spec fn socket_outcome(
    entry: UnixSocketCapStateView,
    facts: Option<PathFacts>,
    pending: Option<String>,
) -> Result<Seq<char>, NonoErrorView> {
    match socket_mode_named(entry.mode) {
        Some(mode) => resolved_socket_path(
            entry.original,
            scope_of(entry),
            mode,
            facts_view(facts),
            pending_view(pending),
        ),
        None => Err(NonoErrorView::PathNotFound(entry.original)),
    }
}

/// What resolving each persisted socket path gives.
pub open spec fn socket_outcomes(
    entries: Seq<UnixSocketCapStateView>,
    facts: Seq<Option<PathFacts>>,
    pending: Seq<Option<String>>,
) -> Seq<Result<Seq<char>, NonoErrorView>> {
    Seq::new(entries.len(), |i: int| socket_outcome(entries[i], facts[i], pending[i]))
}

/// A persisted state restored from what the disk says of each recorded path.
pub open spec fn restored_from_facts(
    s: SandboxStateView,
    fs_facts: Seq<Option<PathFacts>>,
    socket_facts: Seq<Option<PathFacts>>,
    pending: Seq<Option<String>>,
) -> Result<crate::capability::CapabilitySetView, NonoErrorView> {
    restored_caps(s, fs_outcomes(s.fs, fs_facts), socket_outcomes(s.unix_sockets, socket_facts, pending))
}

impl SandboxState {
    /// Convert the state back to a capability set from what the filesystem
    /// says of each recorded path: `fs_facts[i]` of `self.fs[i].original`,
    /// `socket_facts[i]` of `self.unix_sockets[i].original`, and `pending[i]`
    /// the canonical parent of that socket joined with its file name (where
    /// the socket does not exist and its parent resolves). Each path is
    /// resolved with the checks its entry calls for, then the state is
    /// restored as `to_caps` does.
    pub fn to_caps_from_facts(
        &self,
        fs_facts: &Vec<Option<PathFacts>>,
        socket_facts: &Vec<Option<PathFacts>>,
        pending: &Vec<Option<String>>,
    ) -> (r: Result<CapabilitySet, NonoError>)
        requires
            fs_facts.len() == self.fs.len(),
            socket_facts.len() == self.unix_sockets.len(),
            pending.len() == self.unix_sockets.len(),
        ensures
            caps_result_view(r) == restored_caps(
                self@,
                fs_outcomes(self@.fs, fs_facts@),
                socket_outcomes(self@.unix_sockets, socket_facts@, pending@),
            ),
    {
        let ghost fs_want = fs_outcomes(self@.fs, fs_facts@);
        let ghost sock_want = socket_outcomes(self@.unix_sockets, socket_facts@, pending@);
        let mut fs_res: Vec<Result<String, NonoError>> = Vec::new();
        let mut i: usize = 0;
        while i < self.fs.len()
            invariant
                i <= self.fs.len(),
                fs_facts.len() == self.fs.len(),
                fs_want == fs_outcomes(self@.fs, fs_facts@),
                resolutions_view(fs_res@) == fs_want.subrange(0, i as int),
            decreases self.fs.len() - i,
        {
            let entry = &self.fs[i];
            let out = resolve_fs_path(&entry.original, entry.is_file, &fs_facts[i]);
            let ghost before = fs_res@;
            proof {
                assert(self@.fs[i as int] == entry@);
            }
            fs_res.push(out);
            proof {
                assert(resolutions_view(fs_res@) =~= resolutions_view(before).push(
                    resolution_view(out),
                ));
                assert(fs_want.subrange(0, i + 1) =~= fs_want.subrange(0, i as int).push(
                    fs_want[i as int],
                ));
            }
            i = i + 1;
        }
        proof {
            assert(fs_want.subrange(0, self.fs.len() as int) =~= fs_want);
        }
        let mut sock_res: Vec<Result<String, NonoError>> = Vec::new();
        let mut j: usize = 0;
        while j < self.unix_sockets.len()
            invariant
                j <= self.unix_sockets.len(),
                socket_facts.len() == self.unix_sockets.len(),
                pending.len() == self.unix_sockets.len(),
                sock_want == socket_outcomes(self@.unix_sockets, socket_facts@, pending@),
                resolutions_view(sock_res@) == sock_want.subrange(0, j as int),
            decreases self.unix_sockets.len() - j,
        {
            let entry = &self.unix_sockets[j];
            proof {
                assert(self@.unix_sockets[j as int] == entry@);
            }
            let out = match parse_socket_mode(&entry.mode) {
                Some(mode) => resolve_socket_path(
                    &entry.original,
                    entry.effective_scope(),
                    mode,
                    &socket_facts[j],
                    &pending[j],
                ),
                None => Err(NonoError::PathNotFound(entry.original.clone())),
            };
            let ghost before = sock_res@;
            sock_res.push(out);
            proof {
                assert(resolutions_view(sock_res@) =~= resolutions_view(before).push(
                    resolution_view(out),
                ));
                assert(sock_want.subrange(0, j + 1) =~= sock_want.subrange(0, j as int).push(
                    sock_want[j as int],
                ));
            }
            j = j + 1;
        }
        proof {
            assert(sock_want.subrange(0, self.unix_sockets.len() as int) =~= sock_want);
        }
        self.to_caps(&fs_res, &sock_res)
    }
}

// ---- Laws ----

/// A filesystem path resolves to its canonical path exactly when it exists
/// and is a file or a directory as the grant says; a missing path is reported
/// as not found, and one of the other kind as expected to be a file or a
/// directory, naming the original path.
pub proof fn lemma_fs_path_resolution(
    original: Seq<char>,
    is_file: bool,
    facts: Option<PathFactsView>,
)
    ensures
        facts is None ==> resolved_fs_path(original, is_file, facts) == Err::<
            Seq<char>,
            NonoErrorView,
        >(NonoErrorView::PathNotFound(original)),
        facts is Some && (if is_file {
            facts->0.is_file
        } else {
            facts->0.is_dir
        }) ==> resolved_fs_path(original, is_file, facts) == Ok::<Seq<char>, NonoErrorView>(
            facts->0.canonical,
        ),
        facts is Some && is_file && !facts->0.is_file ==> resolved_fs_path(original, is_file, facts)
            == Err::<Seq<char>, NonoErrorView>(NonoErrorView::ExpectedFile(original)),
        facts is Some && !is_file && !facts->0.is_dir ==> resolved_fs_path(
            original,
            is_file,
            facts,
        ) == Err::<Seq<char>, NonoErrorView>(NonoErrorView::ExpectedDirectory(original)),
{
}

/// How a socket path resolves. A socket that exists resolves to its canonical
/// path when the grant is for that one socket and it is not a directory,
/// whatever the mode and whatever `pending` holds; a directory there is
/// reported as expected to be a file. The directory scopes need an existing
/// directory and resolve to its canonical path. Only a single socket that does
/// not exist and may be bound resolves to `pending`, its canonical parent
/// joined with its name; any other missing path is not found.
pub proof fn lemma_socket_path_resolution(
    original: Seq<char>,
    scope: SocketScope,
    mode: UnixSocketMode,
    target: Option<PathFactsView>,
    pending: Option<Seq<char>>,
)
    ensures
        scope == SocketScope::File && target is Some && !target->0.is_dir ==> resolved_socket_path(
            original,
            scope,
            mode,
            target,
            pending,
        ) == Ok::<Seq<char>, NonoErrorView>(target->0.canonical),
        scope == SocketScope::File && target is Some && target->0.is_dir ==> resolved_socket_path(
            original,
            scope,
            mode,
            target,
            pending,
        ) == Err::<Seq<char>, NonoErrorView>(NonoErrorView::ExpectedFile(original)),
        scope == SocketScope::File && target is None && mode == UnixSocketMode::ConnectBind
            && pending is Some ==> resolved_socket_path(original, scope, mode, target, pending)
            == Ok::<Seq<char>, NonoErrorView>(pending->0),
        scope == SocketScope::File && target is None && !(mode == UnixSocketMode::ConnectBind
            && pending is Some) ==> resolved_socket_path(original, scope, mode, target, pending)
            == Err::<Seq<char>, NonoErrorView>(NonoErrorView::PathNotFound(original)),
        scope != SocketScope::File && target is None ==> resolved_socket_path(
            original,
            scope,
            mode,
            target,
            pending,
        ) == Err::<Seq<char>, NonoErrorView>(NonoErrorView::PathNotFound(original)),
        scope != SocketScope::File && target is Some && target->0.is_dir ==> resolved_socket_path(
            original,
            scope,
            mode,
            target,
            pending,
        ) == Ok::<Seq<char>, NonoErrorView>(target->0.canonical),
        scope != SocketScope::File && target is Some && !target->0.is_dir ==> resolved_socket_path(
            original,
            scope,
            mode,
            target,
            pending,
        ) == Err::<Seq<char>, NonoErrorView>(NonoErrorView::ExpectedDirectory(original)),
{
}

/// Restoring from what the disk says succeeds when every recorded path holds:
/// each filesystem entry names an access mode and its path exists as a file
/// or a directory as recorded; each socket entry names a mode and its path
/// exists, as a directory for the directory scopes and as something else for
/// a single socket, where the scope is the recorded one or, for a record
/// without one, the children of a directory when the legacy flag says it is
/// one, else the file itself; and it is still the recorded path; and every
/// port range and platform rule is one the set accepts. Each restored grant
/// then holds the canonical path found, and each socket grant that scope.
pub proof fn lemma_restore_from_facts_when_every_path_holds(
    s: SandboxStateView,
    fs_facts: Seq<Option<PathFacts>>,
    socket_facts: Seq<Option<PathFacts>>,
    pending: Seq<Option<String>>,
)
    requires
        fs_facts.len() == s.fs.len(),
        socket_facts.len() == s.unix_sockets.len(),
        pending.len() == s.unix_sockets.len(),
        forall|i: int|
            #![trigger s.fs[i]]
            0 <= i < s.fs.len() ==> {
                &&& (s.fs[i].access == "read"@ || s.fs[i].access == "write"@ || s.fs[i].access
                    == "read+write"@)
                &&& fs_facts[i] is Some
                &&& if s.fs[i].is_file {
                    fs_facts[i]->0.is_file
                } else {
                    fs_facts[i]->0.is_dir
                }
            },
        forall|j: int|
            #![trigger s.unix_sockets[j]]
            0 <= j < s.unix_sockets.len() ==> {
                &&& (s.unix_sockets[j].mode == "connect"@ || s.unix_sockets[j].mode
                    == "connect+bind"@)
                &&& socket_facts[j] is Some
                &&& same_path(socket_facts[j]->0.canonical@, s.unix_sockets[j].resolved)
                &&& if match s.unix_sockets[j].scope {
                    Some(sc) => sc,
                    None => if s.unix_sockets[j].is_directory == Some(true) {
                        SocketScope::DirChildren
                    } else {
                        SocketScope::File
                    },
                } == SocketScope::File {
                    !socket_facts[j]->0.is_dir
                } else {
                    socket_facts[j]->0.is_dir
                }
            },
        forall|k: int|
            0 <= k < s.localhost_port_ranges.len() ==> #[trigger] s.localhost_port_ranges[k].0
                <= s.localhost_port_ranges[k].1,
        forall|k: int|
            0 <= k < s.platform_rules.len() ==> {
                &&& #[trigger] s.platform_rules[k].len() > 0
                &&& s.platform_rules[k][0] == '('
                &&& s.platform_rules[k][s.platform_rules[k].len() - 1] == ')'
            },
    ensures
        restored_from_facts(s, fs_facts, socket_facts, pending) is Ok,
        forall|i: int|
            #![trigger restored_from_facts(s, fs_facts, socket_facts, pending)->Ok_0.fs[i]]
            0 <= i < s.fs.len() ==> restored_from_facts(s, fs_facts, socket_facts, pending)->Ok_0.fs[i].resolved
                == fs_facts[i]->0.canonical@,
        forall|j: int|
            #![trigger restored_from_facts(s, fs_facts, socket_facts, pending)->Ok_0.unix_sockets[j]]
            0 <= j < s.unix_sockets.len() ==> {
                &&& restored_from_facts(s, fs_facts, socket_facts, pending)->Ok_0.unix_sockets[j].resolved
                    == socket_facts[j]->0.canonical@
                &&& restored_from_facts(s, fs_facts, socket_facts, pending)->Ok_0.unix_sockets[j].scope
                    == match s.unix_sockets[j].scope {
                    Some(sc) => sc,
                    None => if s.unix_sockets[j].is_directory == Some(true) {
                        SocketScope::DirChildren
                    } else {
                        SocketScope::File
                    },
                }
            },
{
    let fo = fs_outcomes(s.fs, fs_facts);
    let so = socket_outcomes(s.unix_sockets, socket_facts, pending);
    assert forall|i: int| 0 <= i < s.fs.len() implies #[trigger] crate::state::restored_fs_cap(
        s.fs[i],
        fo[i],
    ) == Ok::<crate::capability::FsCapabilityView, NonoErrorView>(
        crate::capability::FsCapabilityView {
            original: s.fs[i].original,
            resolved: fs_facts[i]->0.canonical@,
            access: crate::state::access_mode_named(s.fs[i].access)->0,
            is_file: s.fs[i].is_file,
        },
    ) by {
        assert(s.fs[i] == s.fs[i]);
    }
    assert forall|j: int| 0 <= j < s.unix_sockets.len() implies #[trigger] crate::state::restored_socket_cap(
        s.unix_sockets[j],
        so[j],
    ) == Ok::<crate::capability::UnixSocketCapabilityView, NonoErrorView>(
        crate::capability::UnixSocketCapabilityView {
            original: s.unix_sockets[j].original,
            resolved: socket_facts[j]->0.canonical@,
            scope: scope_of(s.unix_sockets[j]),
            mode: socket_mode_named(s.unix_sockets[j].mode)->0,
        },
    ) by {
        assert(s.unix_sockets[j] == s.unix_sockets[j]);
    }
    lemma_fs_caps_by_entry(s.fs, fo, s.fs.len());
    lemma_socket_caps_by_entry(s.unix_sockets, so, s.unix_sockets.len());
    assert(all_port_ranges_valid(s.localhost_port_ranges));
    assert(all_platform_rules_valid(s.platform_rules));
    let v = restored_fs_caps(s.fs, fo, s.fs.len())->Ok_0;
    let w = restored_socket_caps(s.unix_sockets, so, s.unix_sockets.len())->Ok_0;
    assert forall|i: int| 0 <= i < s.fs.len() implies #[trigger] v[i].resolved
        == fs_facts[i]->0.canonical@ by {
        assert(crate::state::restored_fs_cap(s.fs[i], fo[i]) == Ok::<
            crate::capability::FsCapabilityView,
            NonoErrorView,
        >(v[i]));
    }
    assert forall|j: int| 0 <= j < s.unix_sockets.len() implies #[trigger] w[j].resolved
        == socket_facts[j]->0.canonical@ && w[j].scope == scope_of(s.unix_sockets[j]) by {
        assert(crate::state::restored_socket_cap(s.unix_sockets[j], so[j]) == Ok::<
            crate::capability::UnixSocketCapabilityView,
            NonoErrorView,
        >(w[j]));
    }
    let r = restored_from_facts(s, fs_facts, socket_facts, pending);
    assert(r == restored_caps(s, fo, so));
    assert(r is Ok);
    assert(r->Ok_0.fs == v);
    assert(r->Ok_0.unix_sockets == w);
    assert forall|i: int| #![trigger r->Ok_0.fs[i]] 0 <= i < s.fs.len() implies r->Ok_0.fs[i].resolved
        == fs_facts[i]->0.canonical@ by {
        assert(v[i].resolved == fs_facts[i]->0.canonical@);
    }
    assert forall|j: int| #![trigger r->Ok_0.unix_sockets[j]] 0 <= j < s.unix_sockets.len() implies {
        &&& r->Ok_0.unix_sockets[j].resolved == socket_facts[j]->0.canonical@
        &&& r->Ok_0.unix_sockets[j].scope == match s.unix_sockets[j].scope {
            Some(sc) => sc,
            None => if s.unix_sockets[j].is_directory == Some(true) {
                SocketScope::DirChildren
            } else {
                SocketScope::File
            },
        }
    } by {
        assert(crate::state::restored_socket_cap(s.unix_sockets[j], so[j]) == Ok::<
            crate::capability::UnixSocketCapabilityView,
            NonoErrorView,
        >(w[j]));
        assert(w[j].resolved == socket_facts[j]->0.canonical@);
    }
}

} // verus!
