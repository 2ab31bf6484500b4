//! The launcher's decisions: a machine from state and event to next state and
//! action, and the process supervisor's choices of executable and arguments.
//! Whoever drives it performs each action and hands back what came of it.
use vstd::prelude::*;
use vstd::string::*;
use crate::paths::parent_dir;
use crate::protocol::{
    encode_frame, frame_text, kind_str, kind_token, ActivationRequest, RepoKind,
    PROTOCOL_TIMEOUT_SECS,
};
use crate::text::{join_path, join_spec};

verus! {

/// Why the host process could not be started.
#[derive(Clone, Debug)]
pub enum SpawnError {
    /// No host executable beside the launcher.
    ExecutableNotFound { path: String },
    /// The operating system refused to start it, or its location is unknown.
    SpawnFailure { reason: String },
}

/// Why a launch ended in failure.
#[derive(Clone, Debug)]
pub enum LaunchError {
    /// The path argument could not be made canonical.
    PathResolution { input: String },
    /// The path argument names something other than a directory.
    NotADirectory { input: String },
    /// The host could not be started.
    Spawn { error: SpawnError },
}

/// Where a launch stands.
#[derive(Debug)]
pub enum LaunchState {
    Init,
    /// Waiting for the canonical form of `input`.
    Resolving { input: String },
    /// Waiting to learn whether `path` is a directory.
    Classifying { input: String, path: String },
    /// Waiting to learn whether `path` lies inside a repository.
    Probing { path: String },
    /// Waiting for the running host's acknowledgment.
    Connecting { request: ActivationRequest },
    /// Waiting for a new host to start.
    Spawning { request: ActivationRequest },
    Forwarded,
    Spawned,
    Failed { error: LaunchError },
}

/// What came of the last action.
#[derive(Debug)]
pub enum LaunchEvent {
    /// The launcher started, with its optional path argument.
    Start { argument: Option<String> },
    /// The canonical path, or `None` where resolution failed.
    Resolved { path: Option<String> },
    DirectoryChecked { is_dir: bool },
    RepositoryChecked { is_git: bool },
    /// Whether the exchange with a running host ended in its acknowledgment;
    /// a refused connection, a timeout or another answer count as `false`.
    Delivered { acknowledged: bool },
    SpawnFinished { error: Option<SpawnError> },
}

/// What the driver is to do next.
#[derive(Debug)]
pub enum LaunchAction {
    /// Canonicalize `input`.
    Resolve { input: String },
    /// Tell whether `path` is a directory.
    CheckDirectory { path: String },
    /// Tell whether `path` lies inside a repository.
    CheckRepository { path: String },
    /// Connect to the well-known endpoint, write `frame` and its terminator,
    /// read two bytes back, each within `timeout_secs`.
    Send { frame: String, timeout_secs: u64 },
    /// Start the host detached, with `args`.
    Spawn { args: Vec<String> },
    /// Print what is given and exit with `code`.
    Exit { code: i32, stdout: Option<String>, stderr: Option<String> },
    /// The event does not belong to this state; nothing changes.
    Ignore,
}

pub open spec fn resolve_error_text(input: Seq<char>) -> Seq<char> {
    "Error: Cannot resolve path "@ + input
}

pub open spec fn not_directory_text(input: Seq<char>) -> Seq<char> {
    "Error: "@ + input + " is not a directory"@
}

pub open spec fn forwarded_text(path: Seq<char>, kind: RepoKind) -> Seq<char> {
    match kind {
        RepoKind::Git => "Opening "@ + path + " in Prism..."@,
        RepoKind::PlainDirectory => "Opening "@ + path + " (not a Git repository)..."@,
    }
}

pub open spec fn started_text(path: Option<Seq<char>>) -> Seq<char> {
    match path {
        Some(p) => "Starting Prism with "@ + p + "..."@,
        None => "Starting Prism..."@,
    }
}

pub open spec fn spawn_error_text(e: SpawnError) -> Seq<char> {
    match e {
        SpawnError::ExecutableNotFound { path } => "GUI binary not found: "@ + path@,
        SpawnError::SpawnFailure { reason } => "Failed to start GUI: "@ + reason@,
    }
}

/// The host's startup arguments for a request: none without a path, else the
/// path and its kind token.
pub open spec fn host_args_spec(req: (Option<Seq<char>>, RepoKind)) -> Seq<Seq<char>> {
    match req.0 {
        None => Seq::empty(),
        Some(p) => seq![p, kind_token(req.1)],
    }
}

pub open spec fn host_name(windows: bool) -> Seq<char> {
    if windows {
        "prism-gui.exe"@
    } else {
        "prism-gui"@
    }
}

pub open spec fn strings_view(v: Seq<String>) -> Seq<Seq<char>> {
    v.map_values(|s: String| s@)
}

impl SpawnError {
    /// The error as the user reads it.
    pub fn message(&self) -> (r: String)
        ensures
            r@ == spawn_error_text(*self),
    {
        match self {
            SpawnError::ExecutableNotFound { path } => String::from_str("GUI binary not found: ").concat(
                path.as_str(),
            ),
            SpawnError::SpawnFailure { reason } => String::from_str("Failed to start GUI: ").concat(
                reason.as_str(),
            ),
        }
    }
}

/// The startup arguments that hand a request to a new host.
pub fn host_arguments(req: &ActivationRequest) -> (r: Vec<String>)
    ensures
        strings_view(r@) == host_args_spec(req@),
{
    let mut v: Vec<String> = Vec::new();
    if let Some(p) = &req.path {
        v.push(p.clone());
        v.push(String::from_str(kind_str(req.kind)));
    }
    assert(strings_view(v@) =~= host_args_spec(req@));
    v
}

/// The host executable beside the launcher executable `launcher_exe`.
pub fn host_executable_path(launcher_exe: &str, windows: bool) -> (r: Result<String, SpawnError>)
    ensures
        match crate::paths::parent_spec(launcher_exe@) {
            Some(dir) => r matches Ok(p) && p@ == join_spec(dir, host_name(windows)),
            None => r matches Err(SpawnError::SpawnFailure { .. }),
        },
{
    match parent_dir(launcher_exe) {
        Some(dir) => {
            let name = if windows {
                "prism-gui.exe"
            } else {
                "prism-gui"
            };
            Ok(join_path(dir.as_str(), name))
        },
        None => Err(SpawnError::SpawnFailure { reason: String::from_str("Cannot get exe directory") }),
    }
}

fn forwarded_message(req: &ActivationRequest) -> (r: Option<String>)
    ensures
        match req@.0 {
            Some(p) => r matches Some(m) && m@ == forwarded_text(p, req@.1),
            None => r is None,
        },
{
    match &req.path {
        None => None,
        Some(p) => {
            let s = String::from_str("Opening ").concat(p.as_str());
            match req.kind {
                RepoKind::Git => Some(s.concat(" in Prism...")),
                RepoKind::PlainDirectory => Some(s.concat(" (not a Git repository)...")),
            }
        },
    }
}

fn started_message(req: &ActivationRequest) -> (r: String)
    ensures
        r@ == started_text(req@.0),
{
    match &req.path {
        None => String::from_str("Starting Prism..."),
        Some(p) => String::from_str("Starting Prism with ").concat(p.as_str()).concat("..."),
    }
}

/// One transition of the launcher.
pub fn step(state: LaunchState, event: LaunchEvent) -> (r: (LaunchState, LaunchAction))
    ensures
        // With no argument the empty frame goes straight to the host.
        (state, event) matches (LaunchState::Init, LaunchEvent::Start { argument: None }) ==> {
            &&& r.0 matches LaunchState::Connecting { request }
            &&& request@ == (None::<Seq<char>>, RepoKind::PlainDirectory)
            &&& r.1 matches LaunchAction::Send { frame, timeout_secs }
            &&& frame@ == Seq::<char>::empty()
            &&& timeout_secs == PROTOCOL_TIMEOUT_SECS
        },
        (state, event) matches (LaunchState::Init, LaunchEvent::Start { argument: Some(a) }) ==> {
            &&& r.0 == (LaunchState::Resolving { input: a })
            &&& r.1 matches LaunchAction::Resolve { input }
            &&& input@ == a@
        },
        (state, event) matches (LaunchState::Resolving { input }, LaunchEvent::Resolved { path: None }) ==> {
            &&& r.0 matches LaunchState::Failed { error: LaunchError::PathResolution { input: i } }
            &&& i@ == input@
            &&& r.1 matches LaunchAction::Exit { code, stdout, stderr }
            &&& code == 1 && stdout is None
            &&& stderr matches Some(m) && m@ == resolve_error_text(input@)
        },
        (state, event) matches (LaunchState::Resolving { input }, LaunchEvent::Resolved { path: Some(p) }) ==> {
            &&& r.0 == (LaunchState::Classifying { input, path: p })
            &&& r.1 matches LaunchAction::CheckDirectory { path }
            &&& path@ == p@
        },
        (state, event) matches (LaunchState::Classifying { input, path }, LaunchEvent::DirectoryChecked { is_dir: false }) ==> {
            &&& r.0 matches LaunchState::Failed { error: LaunchError::NotADirectory { input: i } }
            &&& i@ == input@
            &&& r.1 matches LaunchAction::Exit { code, stdout, stderr }
            &&& code == 1 && stdout is None
            &&& stderr matches Some(m) && m@ == not_directory_text(input@)
        },
        (state, event) matches (LaunchState::Classifying { input, path }, LaunchEvent::DirectoryChecked { is_dir: true }) ==> {
            &&& r.0 == (LaunchState::Probing { path })
            &&& r.1 matches LaunchAction::CheckRepository { path: q }
            &&& q@ == path@
        },
        (state, event) matches (LaunchState::Probing { path }, LaunchEvent::RepositoryChecked { is_git }) ==> {
            &&& r.0 matches LaunchState::Connecting { request }
            &&& request@ == (Some(path@), if is_git { RepoKind::Git } else { RepoKind::PlainDirectory })
            &&& r.1 matches LaunchAction::Send { frame, timeout_secs }
            &&& frame@ == frame_text(request@)
            &&& timeout_secs == PROTOCOL_TIMEOUT_SECS
        },
        (state, event) matches (LaunchState::Connecting { request }, LaunchEvent::Delivered { acknowledged: true }) ==> {
            &&& r.0 == LaunchState::Forwarded
            &&& r.1 matches LaunchAction::Exit { code, stdout, stderr }
            &&& code == 0 && stderr is None
            &&& match request@.0 {
                Some(p) => stdout matches Some(m) && m@ == forwarded_text(p, request@.1),
                None => stdout is None,
            }
        },
        // A failed exchange of any kind falls back to starting a host, once.
        (state, event) matches (LaunchState::Connecting { request }, LaunchEvent::Delivered { acknowledged: false }) ==> {
            &&& r.0 matches LaunchState::Spawning { request: q }
            &&& q@ == request@
            &&& r.1 matches LaunchAction::Spawn { args }
            &&& strings_view(args@) == host_args_spec(request@)
        },
        (state, event) matches (LaunchState::Spawning { request }, LaunchEvent::SpawnFinished { error: None }) ==> {
            &&& r.0 == LaunchState::Spawned
            &&& r.1 matches LaunchAction::Exit { code, stdout, stderr }
            &&& code == 0 && stderr is None
            &&& stdout matches Some(m) && m@ == started_text(request@.0)
        },
        (state, event) matches (LaunchState::Spawning { request }, LaunchEvent::SpawnFinished { error: Some(e) }) ==> {
            &&& r.0 == (LaunchState::Failed { error: LaunchError::Spawn { error: e } })
            &&& r.1 matches LaunchAction::Exit { code, stdout, stderr }
            &&& code == 1 && stdout is None
            &&& stderr matches Some(m) && m@ == "Error: "@ + spawn_error_text(e)
        },
        !accepts(state, event) ==> r.0 == state && r.1 is Ignore,
{
    match (state, event) {
        (LaunchState::Init, LaunchEvent::Start { argument: None }) => {
            let request = ActivationRequest { path: None, kind: RepoKind::PlainDirectory };
            let frame = encode_frame(&request);
            (LaunchState::Connecting { request }, LaunchAction::Send { frame, timeout_secs: PROTOCOL_TIMEOUT_SECS })
        },
        (LaunchState::Init, LaunchEvent::Start { argument: Some(a) }) => {
            let input = a.clone();
            (LaunchState::Resolving { input: a }, LaunchAction::Resolve { input })
        },
        (LaunchState::Resolving { input }, LaunchEvent::Resolved { path: None }) => {
            let m = String::from_str("Error: Cannot resolve path ").concat(input.as_str());
            (
                LaunchState::Failed { error: LaunchError::PathResolution { input } },
                LaunchAction::Exit { code: 1, stdout: None, stderr: Some(m) },
            )
        },
        (LaunchState::Resolving { input }, LaunchEvent::Resolved { path: Some(p) }) => {
            let q = p.clone();
            (LaunchState::Classifying { input, path: p }, LaunchAction::CheckDirectory { path: q })
        },
        (LaunchState::Classifying { input, path }, LaunchEvent::DirectoryChecked { is_dir }) => {
            if is_dir {
                let q = path.clone();
                (LaunchState::Probing { path }, LaunchAction::CheckRepository { path: q })
            } else {
                let m = String::from_str("Error: ").concat(input.as_str()).concat(" is not a directory");
                (
                    LaunchState::Failed { error: LaunchError::NotADirectory { input } },
                    LaunchAction::Exit { code: 1, stdout: None, stderr: Some(m) },
                )
            }
        },
        (LaunchState::Probing { path }, LaunchEvent::RepositoryChecked { is_git }) => {
            let kind = if is_git {
                RepoKind::Git
            } else {
                RepoKind::PlainDirectory
            };
            let request = ActivationRequest { path: Some(path), kind };
            let frame = encode_frame(&request);
            (LaunchState::Connecting { request }, LaunchAction::Send { frame, timeout_secs: PROTOCOL_TIMEOUT_SECS })
        },
        (LaunchState::Connecting { request }, LaunchEvent::Delivered { acknowledged }) => {
            if acknowledged {
                let stdout = forwarded_message(&request);
                (LaunchState::Forwarded, LaunchAction::Exit { code: 0, stdout, stderr: None })
            } else {
                let args = host_arguments(&request);
                (LaunchState::Spawning { request }, LaunchAction::Spawn { args })
            }
        },
        (LaunchState::Spawning { request }, LaunchEvent::SpawnFinished { error }) => {
            match error {
                None => {
                    let m = started_message(&request);
                    (LaunchState::Spawned, LaunchAction::Exit { code: 0, stdout: Some(m), stderr: None })
                },
                Some(e) => {
                    let m = String::from_str("Error: ").concat(e.message().as_str());
                    (
                        LaunchState::Failed { error: LaunchError::Spawn { error: e } },
                        LaunchAction::Exit { code: 1, stdout: None, stderr: Some(m) },
                    )
                },
            }
        },
        (state, _) => (state, LaunchAction::Ignore),
    }
}

/// Whether `event` is one that `state` waits for.
pub open spec fn accepts(state: LaunchState, event: LaunchEvent) -> bool {
    ||| (state is Init && event is Start)
    ||| (state is Resolving && event is Resolved)
    ||| (state is Classifying && event is DirectoryChecked)
    ||| (state is Probing && event is RepositoryChecked)
    ||| (state is Connecting && event is Delivered)
    ||| (state is Spawning && event is SpawnFinished)
}

/// Whether the launch has ended.
pub fn is_terminal(state: &LaunchState) -> (r: bool)
    ensures
        r == (state is Forwarded || state is Spawned || state is Failed),
{
    match state {
        LaunchState::Forwarded | LaunchState::Spawned | LaunchState::Failed { .. } => true,
        _ => false,
    }
}

} // verus!
