//! The host's side of the activation protocol: the socket's location, what
//! each connection gets back, and the activation that the host's own startup
//! arguments carry.
use vstd::prelude::*;
use vstd::string::*;
use crate::protocol::{
    ack_bytes, acknowledgment, frame_text, lemma_frame_round_trip, parse_frame, parse_frame_spec,
    request_wf, RepoKind,
};
use crate::platform::{cache_directory, runtime_directory};
use crate::text::{join_path, join_spec, opt_view, same_text};

verus! {

/// An activation raised toward the host's window: open `path`.
#[derive(Clone, Debug)]
pub struct ActivationEvent {
    pub path: String,
    pub is_git: bool,
}

/// What the host does with one received frame.
#[derive(Debug)]
pub struct HostResponse {
    /// Written back to the sender at once.
    pub reply: Vec<u8>,
    /// Raised toward the window, for a frame that names a path.
    pub event: Option<ActivationEvent>,
    /// Whether the window is brought to the foreground.
    pub focus: bool,
}

pub open spec fn socket_file_name() -> Seq<char> {
    "prism.sock"@
}

/// The directory that holds the socket: the runtime directory, else the cache
/// directory, else `/tmp`.
pub open spec fn socket_dir_spec(runtime: Option<Seq<char>>, cache: Option<Seq<char>>) -> Seq<char> {
    match runtime {
        Some(d) => d,
        None => match cache {
            Some(d) => d,
            None => "/tmp"@,
        },
    }
}

/// The event that a frame raises, if any: only a well-formed frame that names
/// a path raises one.
pub open spec fn frame_event(line: Seq<char>) -> Option<(Seq<char>, bool)> {
    match parse_frame_spec(line) {
        Ok((Some(p), k)) => Some((p, k == RepoKind::Git)),
        _ => None,
    }
}

pub open spec fn event_view(e: Option<ActivationEvent>) -> Option<(Seq<char>, bool)> {
    match e {
        Some(ev) => Some((ev.path@, ev.is_git)),
        None => None,
    }
}

/// The socket's location, from the runtime and cache directories where known.
pub fn socket_path(runtime: Option<String>, cache: Option<String>) -> (r: String)
    ensures
        r@ == join_spec(socket_dir_spec(opt_view(runtime), opt_view(cache)), socket_file_name()),
{
    let dir = match runtime {
        Some(d) => d,
        None => match cache {
            Some(d) => d,
            None => String::from_str("/tmp"),
        },
    };
    join_path(dir.as_str(), "prism.sock")
}

/// The socket's location on this machine: `prism.sock` in the user's runtime
/// directory, else cache directory, else `/tmp`.
pub fn get_socket_path() -> (r: String)
    ensures
        exists|runtime: Option<Seq<char>>, cache: Option<Seq<char>>|
            r@ == join_spec(socket_dir_spec(runtime, cache), socket_file_name()),
{
    let runtime = runtime_directory();
    let cache = cache_directory();
    socket_path(runtime, cache)
}

/// The reply, event and focus for one frame (its terminator removed). Every
/// frame read is acknowledged and brings the window forward.
pub fn handle_frame(line: &str) -> (r: HostResponse)
    ensures
        r.reply@ == ack_bytes(),
        r.focus,
        event_view(r.event) == frame_event(line@),
{
    let reply = acknowledgment();
    let event = match parse_frame(line) {
        Ok(req) => match req.path {
            Some(p) => Some(ActivationEvent { path: p, is_git: req.kind == RepoKind::Git }),
            None => None,
        },
        Err(_) => None,
    };
    HostResponse { reply, event, focus: true }
}

/// The activation carried by the host's startup arguments (program name
/// first): the path, marked as a repository unless a kind token other than
/// `git` follows it.
pub fn startup_activation(args: &Vec<String>) -> (r: Option<ActivationEvent>)
    ensures
        event_view(r) == (if args@.len() >= 2 {
            Some((args@[1]@, args@.len() < 3 || args@[2]@ == "git"@))
        } else {
            None
        }),
{
    if args.len() < 2 {
        return None;
    }
    let is_git = if args.len() < 3 {
        true
    } else {
        same_text(args[2].as_str(), "git")
    };
    Some(ActivationEvent { path: args[1].clone(), is_git })
}

/// Owner-only read and write access, for the bound socket.
pub const SOCKET_MODE: u32 = 0o600;

/// Where the host's IPC server stands in its startup.
#[derive(Debug)]
pub enum ServerPhase {
    NotRunning,
    /// A stale socket file is being cleared from `socket`.
    Clearing { socket: String },
    /// A listener is being bound at `socket`.
    Binding { socket: String },
    /// Access to `socket` is being restricted to its owner.
    Restricting { socket: String },
    /// Connections are accepted.
    Listening,
    /// Binding failed: the host runs without forwarded activations.
    Disabled,
}

/// What came of the server's last startup action.
#[derive(Debug)]
pub enum ServerEvent {
    /// Startup begins, at the socket location.
    Start { socket: String },
    /// The stale file was removed, or there was none, or removal failed.
    Cleared,
    /// The bind succeeded, or failed with `error`.
    Bound { error: Option<String> },
    /// The permission change was made or failed; either way the server goes on.
    Restricted,
}

/// What the host is to do next for its IPC server.
#[derive(Debug)]
pub enum ServerAction {
    /// Delete whatever file stands at `socket`, ignoring failure.
    RemoveFile { socket: String },
    /// Bind a listening socket at `socket`.
    Bind { socket: String },
    /// Set the permissions of `socket` to `mode`.
    SetMode { socket: String, mode: u32 },
    /// Accept connections on a background thread, each on its own thread.
    AcceptConnections,
    /// Record why forwarding is off for this run.
    Log { message: String },
    /// The event does not belong to this phase; nothing changes.
    Ignore,
}

/// Whether `event` is one that `phase` waits for.
pub open spec fn server_accepts(phase: ServerPhase, event: ServerEvent) -> bool {
    ||| (phase is NotRunning && event is Start)
    ||| (phase is Clearing && event is Cleared)
    ||| (phase is Binding && event is Bound)
    ||| (phase is Restricting && event is Restricted)
}

/// One transition of the IPC server's startup: clear a stale socket, bind,
/// restrict access, then accept; a failed bind disables the server without
/// stopping the host.
pub fn server_step(phase: ServerPhase, event: ServerEvent) -> (r: (ServerPhase, ServerAction))
    ensures
        (phase, event) matches (ServerPhase::NotRunning, ServerEvent::Start { socket }) ==> {
            &&& r.0 matches ServerPhase::Clearing { socket: s }
            &&& s@ == socket@
            &&& r.1 matches ServerAction::RemoveFile { socket: t }
            &&& t@ == socket@
        },
        (phase, event) matches (ServerPhase::Clearing { socket }, ServerEvent::Cleared) ==> {
            &&& r.0 matches ServerPhase::Binding { socket: s }
            &&& s@ == socket@
            &&& r.1 matches ServerAction::Bind { socket: t }
            &&& t@ == socket@
        },
        (phase, event) matches (ServerPhase::Binding { socket }, ServerEvent::Bound { error: None }) ==> {
            &&& r.0 matches ServerPhase::Restricting { socket: s }
            &&& s@ == socket@
            &&& r.1 matches ServerAction::SetMode { socket: t, mode }
            &&& t@ == socket@ && mode == SOCKET_MODE
        },
        (phase, event) matches (ServerPhase::Binding { socket }, ServerEvent::Bound { error: Some(e) }) ==> {
            &&& r.0 is Disabled
            &&& r.1 matches ServerAction::Log { message }
            &&& message@ == "Failed to create IPC socket: "@ + e@
        },
        (phase, event) matches (ServerPhase::Restricting { .. }, ServerEvent::Restricted) ==> {
            &&& r.0 is Listening
            &&& r.1 is AcceptConnections
        },
        !server_accepts(phase, event) ==> r.0 == phase && r.1 is Ignore,
{
    match (phase, event) {
        (ServerPhase::NotRunning, ServerEvent::Start { socket }) => {
            let t = socket.clone();
            (ServerPhase::Clearing { socket }, ServerAction::RemoveFile { socket: t })
        },
        (ServerPhase::Clearing { socket }, ServerEvent::Cleared) => {
            let t = socket.clone();
            (ServerPhase::Binding { socket }, ServerAction::Bind { socket: t })
        },
        (ServerPhase::Binding { socket }, ServerEvent::Bound { error }) => match error {
            None => {
                let t = socket.clone();
                (ServerPhase::Restricting { socket }, ServerAction::SetMode { socket: t, mode: SOCKET_MODE })
            },
            Some(e) => {
                let message = String::from_str("Failed to create IPC socket: ").concat(e.as_str());
                (ServerPhase::Disabled, ServerAction::Log { message })
            },
        },
        (ServerPhase::Restricting { .. }, ServerEvent::Restricted) => {
            (ServerPhase::Listening, ServerAction::AcceptConnections)
        },
        (phase, _) => (phase, ServerAction::Ignore),
    }
}

/// The frame that the launcher sends for a request with a path makes the host
/// raise exactly that path and kind; the frame of a request without one raises
/// nothing.
pub proof fn lemma_forwarded_request_raises_event(req: (Option<Seq<char>>, RepoKind))
    requires
        request_wf(req),
    ensures
        frame_event(frame_text(req)) == match req.0 {
            Some(p) => Some((p, req.1 == RepoKind::Git)),
            None => None::<(Seq<char>, bool)>,
        },
{
    lemma_frame_round_trip(req);
}

} // verus!
