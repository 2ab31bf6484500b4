//! The activation protocol: one request frame from the launcher, a two-byte
//! acknowledgment from the host.
use vstd::prelude::*;
use vstd::string::*;
use crate::text::{find_last, last_index_of, opt_view, lemma_last_index_bounds, lemma_last_index_prefix, same_text};

verus! {

/// Seconds that the launcher waits for each of the write and the read.
pub const PROTOCOL_TIMEOUT_SECS: u64 = 2;

/// The byte that ends a request frame on the wire.
pub const FRAME_TERMINATOR: u8 = 10;

/// What the resolved path is.
#[derive(Clone, Copy, Debug, PartialEq, Eq, Structural)]
pub enum RepoKind {
    Git,
    PlainDirectory,
}

/// Why a frame could not be read as an activation request.
#[derive(Clone, Copy, Debug, PartialEq, Eq, Structural)]
pub enum FrameError {
    /// A non-empty frame without a `|` separator.
    MissingKind,
    /// The token after the last `|` is neither `git` nor `dir`.
    UnknownKind,
}

/// A request to bring the host forward and, when a path is given, open it.
#[derive(Clone, Debug)]
pub struct ActivationRequest {
    pub path: Option<String>,
    pub kind: RepoKind,
}

/// The wire token of a kind.
pub open spec fn kind_token(kind: RepoKind) -> Seq<char> {
    match kind {
        RepoKind::Git => seq!['g', 'i', 't'],
        RepoKind::PlainDirectory => seq!['d', 'i', 'r'],
    }
}

impl View for ActivationRequest {
    type V = (Option<Seq<char>>, RepoKind);

    open spec fn view(&self) -> (Option<Seq<char>>, RepoKind) {
        (opt_view(self.path), self.kind)
    }
}

/// A request without a path carries the plain-directory kind.
pub open spec fn request_wf(r: (Option<Seq<char>>, RepoKind)) -> bool {
    r.0.is_some() || r.1 == RepoKind::PlainDirectory
}

/// The frame text (without its terminator) of a request.
pub open spec fn frame_text(r: (Option<Seq<char>>, RepoKind)) -> Seq<char> {
    match r.0 {
        None => Seq::empty(),
        Some(p) => p + seq!['|'] + kind_token(r.1),
    }
}

/// The request that a frame text denotes; the path is what precedes the last `|`.
pub open spec fn parse_frame_spec(s: Seq<char>) -> Result<(Option<Seq<char>>, RepoKind), FrameError> {
    if s.len() == 0 {
        Ok((None, RepoKind::PlainDirectory))
    } else {
        let k = last_index_of(s, '|');
        if k < 0 {
            Err(FrameError::MissingKind)
        } else {
            let token = s.subrange(k + 1, s.len() as int);
            if token == kind_token(RepoKind::Git) {
                Ok((Some(s.subrange(0, k)), RepoKind::Git))
            } else if token == kind_token(RepoKind::PlainDirectory) {
                Ok((Some(s.subrange(0, k)), RepoKind::PlainDirectory))
            } else {
                Err(FrameError::UnknownKind)
            }
        }
    }
}

/// The acknowledgment bytes `OK`.
pub open spec fn ack_bytes() -> Seq<u8> {
    seq![79u8, 75u8]
}

impl ActivationRequest {
    /// A request for `path`; without a path the kind is always plain directory.
    pub fn new(path: Option<String>, is_git: bool) -> (r: ActivationRequest)
        ensures
            r@.0 == opt_view(path),
            r@.1 == (if path.is_some() && is_git {
                RepoKind::Git
            } else {
                RepoKind::PlainDirectory
            }),
            request_wf(r@),
    {
        let kind = if path.is_some() && is_git {
            RepoKind::Git
        } else {
            RepoKind::PlainDirectory
        };
        ActivationRequest { path, kind }
    }

    /// Whether the request names a repository.
    pub fn is_git(&self) -> (r: bool)
        ensures
            r == (self.kind == RepoKind::Git),
    {
        match self.kind {
            RepoKind::Git => true,
            RepoKind::PlainDirectory => false,
        }
    }
}

/// The wire token, `git` or `dir`.
pub fn kind_str(kind: RepoKind) -> (r: &'static str)
    ensures
        r@ == kind_token(kind),
{
    match kind {
        RepoKind::Git => {
            proof {
                reveal_strlit("git");
            }
            "git"
        },
        RepoKind::PlainDirectory => {
            proof {
                reveal_strlit("dir");
            }
            "dir"
        },
    }
}

/// The frame text of a request: empty without a path, else `<path>|<kind>`.
pub fn encode_frame(req: &ActivationRequest) -> (r: String)
    ensures
        r@ == frame_text(req@),
{
    match &req.path {
        None => String::new(),
        Some(p) => {
            proof {
                reveal_strlit("|");
            }
            let s = p.clone().concat("|");
            s.concat(kind_str(req.kind))
        },
    }
}

/// Reads a frame text (its terminator already removed) as a request.
pub fn parse_frame(line: &str) -> (r: Result<ActivationRequest, FrameError>)
    ensures
        match r {
            Ok(q) => parse_frame_spec(line@) == Ok::<_, FrameError>(q@) && request_wf(q@),
            Err(e) => parse_frame_spec(line@) == Err::<(Option<Seq<char>>, RepoKind), FrameError>(e),
        },
{
    let n = line.unicode_len();
    if n == 0 {
        return Ok(ActivationRequest { path: None, kind: RepoKind::PlainDirectory });
    }
    proof {
        lemma_last_index_bounds(line@, '|');
    }
    match find_last(line, '|') {
        None => Err(FrameError::MissingKind),
        Some(k) => {
            let token = line.substring_char(k + 1, n);
            let path = String::from_str(line.substring_char(0, k));
            if same_text(token, kind_str(RepoKind::Git)) {
                Ok(ActivationRequest { path: Some(path), kind: RepoKind::Git })
            } else if same_text(token, kind_str(RepoKind::PlainDirectory)) {
                Ok(ActivationRequest { path: Some(path), kind: RepoKind::PlainDirectory })
            } else {
                Err(FrameError::UnknownKind)
            }
        },
    }
}

/// The acknowledgment that the host writes back.
pub fn acknowledgment() -> (r: Vec<u8>)
    ensures
        r@ == ack_bytes(),
{
    let r = vec![79u8, 75u8];
    assert(r@ =~= ack_bytes());
    r
}

/// Whether the bytes read back are exactly the acknowledgment.
pub fn is_acknowledgment(response: &[u8]) -> (r: bool)
    ensures
        r == (response@ == ack_bytes()),
{
    if response.len() != 2 {
        return false;
    }
    let r = response[0] == 79u8 && response[1] == 75u8;
    if r {
        assert(response@ =~= ack_bytes());
    }
    r
}

/// Encoding a well-formed request and reading the frame back gives the request.
pub proof fn lemma_frame_round_trip(req: (Option<Seq<char>>, RepoKind))
    requires
        request_wf(req),
    ensures
        parse_frame_spec(frame_text(req)) == Ok::<_, FrameError>(req),
{
    if let Some(p) = req.0 {
        let s = frame_text(req);
        let k = p.len() as int;
        let tok = kind_token(req.1);
        assert(s =~= p + seq!['|'] + tok);
        assert forall|j: int| k + 1 <= j < s.len() implies s[j] != '|' by {
            assert(s[j] == tok[j - k - 1]);
        }
        lemma_last_index_prefix(s, '|', k + 1);
        assert(s.subrange(0, k + 1).last() == '|');
        assert(last_index_of(s, '|') == k);
        assert(s.subrange(k + 1, s.len() as int) =~= tok);
        assert(s.subrange(0, k) =~= p);
    } else {
        assert(frame_text(req) =~= Seq::<char>::empty());
    }
}

} // verus!
