//! The path resolver: absolute paths from user input, and repository
//! membership found by walking a canonical path up to the root.
use vstd::prelude::*;
use vstd::string::*;
use crate::text::{find_last, opt_view, is_absolute, join_path, join_spec, last_index_of, lemma_last_index_bounds};

verus! {

/// The directory whose presence marks a repository root.
pub open spec fn marker_name() -> Seq<char> {
    seq!['.', 'g', 'i', 't']
}

/// The parent of an absolute path: what precedes its last `/`, or the root.
/// The root and relative paths have none.
pub open spec fn parent_spec(p: Seq<char>) -> Option<Seq<char>> {
    if !is_absolute(p) || p.len() <= 1 {
        None
    } else {
        let k = last_index_of(p, '/');
        if k <= 0 {
            Some(seq!['/'])
        } else {
            Some(p.subrange(0, k))
        }
    }
}

/// `p` followed by its parent, its parent's parent, and so on up to the root.
pub open spec fn ancestors(p: Seq<char>) -> Seq<Seq<char>>
    decreases p.len(),
{
    match parent_spec(p) {
        Some(q) => if q.len() < p.len() {
            seq![p] + ancestors(q)
        } else {
            seq![p]
        },
        None => seq![p],
    }
}

/// The first candidate whose mark is set.
pub open spec fn nearest_marked(cands: Seq<Seq<char>>, marks: Seq<bool>) -> Option<Seq<char>>
    decreases cands.len(),
{
    if cands.len() == 0 || marks.len() == 0 {
        None
    } else if marks[0] {
        Some(cands[0])
    } else {
        nearest_marked(cands.drop_first(), marks.drop_first())
    }
}

/// An absolute path from user input: relative input is taken from `cwd`, and
/// without a working directory it cannot be resolved.
pub open spec fn absolute_spec(input: Seq<char>, cwd: Option<Seq<char>>) -> Option<Seq<char>> {
    if is_absolute(input) {
        Some(input)
    } else {
        match cwd {
            Some(c) => Some(join_spec(c, input)),
            None => None,
        }
    }
}

pub proof fn lemma_parent_shorter(p: Seq<char>)
    ensures
        parent_spec(p) matches Some(q) ==> q.len() < p.len() && is_absolute(q),
{
    lemma_last_index_bounds(p, '/');
}

/// The parent of an absolute path.
pub fn parent_dir(p: &str) -> (r: Option<String>)
    ensures
        opt_view(r) == parent_spec(p@),
{
    let n = p.unicode_len();
    if n <= 1 || p.get_char(0) != '/' {
        return None;
    }
    proof {
        lemma_last_index_bounds(p@, '/');
        reveal_strlit("/");
    }
    match find_last(p, '/') {
        None => Some(String::from_str("/")),
        Some(k) => {
            if k == 0 {
                Some(String::from_str("/"))
            } else {
                Some(String::from_str(p.substring_char(0, k)))
            }
        },
    }
}

/// `p` and each of its ancestors, nearest first, ending at the root.
pub fn ancestors_of(p: &str) -> (r: Vec<String>)
    ensures
        r@.len() == ancestors(p@).len(),
        forall|i: int| 0 <= i < r@.len() ==> r@[i]@ == ancestors(p@)[i],
{
    let mut out: Vec<String> = Vec::new();
    let mut cur = String::from_str(p);
    let ghost mut done: Seq<Seq<char>> = Seq::empty();
    loop
        invariant
            out@.len() == done.len(),
            forall|i: int| 0 <= i < out@.len() ==> out@[i]@ == done[i],
            done + ancestors(cur@) == ancestors(p@),
        decreases cur@.len(),
    {
        proof {
            lemma_parent_shorter(cur@);
        }
        let next = parent_dir(cur.as_str());
        let ghost old_cur = cur@;
        out.push(cur);
        proof {
            done = done.push(old_cur);
        }
        match next {
            Some(q) => {
                proof {
                    assert(ancestors(old_cur) == seq![old_cur] + ancestors(q@));
                    assert(done + ancestors(q@) =~= (done.drop_last() + seq![old_cur]) + ancestors(q@));
                    assert(done.drop_last() + (seq![old_cur] + ancestors(q@)) =~= done.drop_last() + seq![old_cur] + ancestors(q@));
                }
                cur = q;
            },
            None => {
                proof {
                    assert(ancestors(old_cur) == seq![old_cur]);
                    assert(done =~= done.drop_last() + seq![old_cur]);
                }
                return out;
            },
        }
    }
}

/// The path of the repository marker inside `dir`.
pub fn marker_path(dir: &str) -> (r: String)
    ensures
        r@ == join_spec(dir@, marker_name()),
{
    proof {
        reveal_strlit(".git");
    }
    join_path(dir, ".git")
}

/// The nearest ancestor (inclusive) of the canonical path `canonical` that holds
/// a repository marker; `marked[i]` tells whether the `i`-th entry of
/// `ancestors_of(canonical)` does.
pub fn find_git_root(canonical: &str, marked: &Vec<bool>) -> (r: Option<String>)
    requires
        marked@.len() == ancestors(canonical@).len(),
    ensures
        opt_view(r) == nearest_marked(ancestors(canonical@), marked@),
{
    let cands = ancestors_of(canonical);
    let n = cands.len();
    let mut i: usize = 0;
    proof {
        assert(ancestors(canonical@).subrange(0, n as int) =~= ancestors(canonical@));
        assert(marked@.subrange(0, n as int) =~= marked@);
    }
    while i < n
        invariant
            n == cands@.len(),
            n == marked@.len(),
            i <= n,
            cands@.len() == ancestors(canonical@).len(),
            forall|j: int| 0 <= j < n ==> cands@[j]@ == ancestors(canonical@)[j],
            nearest_marked(ancestors(canonical@), marked@) == nearest_marked(
                ancestors(canonical@).subrange(i as int, n as int),
                marked@.subrange(i as int, n as int),
            ),
        decreases n - i,
    {
        let ghost a = ancestors(canonical@).subrange(i as int, n as int);
        let ghost m = marked@.subrange(i as int, n as int);
        if marked[i] {
            return Some(cands[i].clone());
        }
        proof {
            assert(a.drop_first() =~= ancestors(canonical@).subrange(i + 1, n as int));
            assert(m.drop_first() =~= marked@.subrange(i + 1, n as int));
        }
        i += 1;
    }
    None
}

/// Whether the canonical path lies inside a repository; `marked` as for
/// `find_git_root`.
pub fn is_git_repository(canonical: &str, marked: &Vec<bool>) -> (r: bool)
    requires
        marked@.len() == ancestors(canonical@).len(),
    ensures
        r == nearest_marked(ancestors(canonical@), marked@).is_some(),
{
    find_git_root(canonical, marked).is_some()
}

/// The absolute form of user input, relative input being taken from `cwd`.
pub fn absolute_input(input: &str, cwd: Option<String>) -> (r: Option<String>)
    ensures
        opt_view(r) == absolute_spec(input@, opt_view(cwd)),
{
    if input.unicode_len() > 0 && input.get_char(0) == '/' {
        return Some(String::from_str(input));
    }
    match cwd {
        Some(c) => Some(join_path(c.as_str(), input)),
        None => None,
    }
}

/// Each entry of `ancestors(p)` after the first is the parent of the one
/// before it; the list starts at `p` and, for an absolute `p`, ends at the root.
pub proof fn lemma_ancestors_chain(p: Seq<char>)
    ensures
        ancestors(p).len() >= 1,
        ancestors(p)[0] == p,
        forall|i: int|
            0 <= i < ancestors(p).len() - 1 ==> parent_spec(#[trigger] ancestors(p)[i]) == Some(
                ancestors(p)[i + 1],
            ),
        parent_spec(ancestors(p).last()) is None,
        is_absolute(p) ==> ancestors(p).last() == seq!['/'],
    decreases p.len(),
{
    lemma_parent_shorter(p);
    match parent_spec(p) {
        Some(q) => {
            lemma_ancestors_chain(q);
            let a = ancestors(p);
            assert(a == seq![p] + ancestors(q));
            assert forall|i: int| 0 <= i < a.len() - 1 implies parent_spec(#[trigger] a[i]) == Some(
                a[i + 1],
            ) by {
                if i > 0 {
                    assert(a[i] == ancestors(q)[i - 1]);
                }
            }
            assert(a.last() == ancestors(q).last());
        },
        None => {
            if is_absolute(p) {
                assert(p =~= seq!['/']);
            }
        },
    }
}

/// `nearest_marked` gives the first candidate whose mark is set, or none when
/// no mark is set.
pub proof fn lemma_nearest_marked_first(cands: Seq<Seq<char>>, marks: Seq<bool>)
    requires
        cands.len() == marks.len(),
    ensures
        match nearest_marked(cands, marks) {
            Some(a) => exists|i: int|
                0 <= i < cands.len() && cands[i] == a && marks[i] && forall|j: int|
                    0 <= j < i ==> !marks[j],
            None => forall|i: int| 0 <= i < cands.len() ==> !marks[i],
        },
    decreases cands.len(),
{
    if cands.len() == 0 {
    } else if marks[0] {
        assert(cands[0] == cands[0] && marks[0]);
    } else {
        lemma_nearest_marked_first(cands.drop_first(), marks.drop_first());
        match nearest_marked(cands, marks) {
            Some(a) => {
                let i = choose|i: int|
                    0 <= i < cands.len() - 1 && cands.drop_first()[i] == a && marks.drop_first()[i]
                        && forall|j: int| 0 <= j < i ==> !marks.drop_first()[j];
                assert forall|j: int| 0 <= j < i + 1 implies !marks[j] by {
                    if j > 0 {
                        assert(marks[j] == marks.drop_first()[j - 1]);
                    }
                }
                assert(cands[i + 1] == a && marks[i + 1]);
            },
            None => {
                assert forall|i: int| 0 <= i < cands.len() implies !marks[i] by {
                    if i > 0 {
                        assert(marks[i] == marks.drop_first()[i - 1]);
                    }
                }
            },
        }
    }
}

/// Repository membership of a canonical path `p`, where `has_marker` tells
/// which directories hold the marker, is the nearest ancestor of `p` (`p`
/// itself included) that holds it, or none when no directory from `p` up to the
/// root does. It reads nothing but the canonical path, so inputs that
/// canonicalize alike (`./x`, a symlink to `x`) get the same answer.
pub proof fn lemma_membership_is_nearest(p: Seq<char>, has_marker: spec_fn(Seq<char>) -> bool)
    ensures
        ({
            let anc = ancestors(p);
            &&& anc[0] == p
            &&& forall|i: int|
                0 <= i < anc.len() - 1 ==> parent_spec(#[trigger] anc[i]) == Some(anc[i + 1])
            &&& parent_spec(anc.last()) is None
            &&& is_absolute(p) ==> anc.last() == seq!['/']
            &&& match nearest_marked(anc, anc.map_values(has_marker)) {
                Some(a) => exists|i: int|
                    0 <= i < anc.len() && anc[i] == a && has_marker(a) && forall|j: int|
                        0 <= j < i ==> !has_marker(#[trigger] anc[j]),
                None => forall|i: int| 0 <= i < anc.len() ==> !has_marker(#[trigger] anc[i]),
            }
        }),
{
    let anc = ancestors(p);
    let marks = anc.map_values(has_marker);
    lemma_ancestors_chain(p);
    lemma_nearest_marked_first(anc, marks);
    assert forall|i: int| 0 <= i < anc.len() implies marks[i] == has_marker(anc[i]) by {}
    match nearest_marked(anc, marks) {
        Some(a) => {
            let i = choose|i: int|
                0 <= i < anc.len() && anc[i] == a && marks[i] && forall|j: int| 0 <= j < i ==> !marks[j];
            assert forall|j: int| 0 <= j < i implies !has_marker(#[trigger] anc[j]) by {
                assert(marks[j] == has_marker(anc[j]));
            }
            assert(has_marker(a));
        },
        None => {
            assert forall|i: int| 0 <= i < anc.len() implies !has_marker(#[trigger] anc[i]) by {
                assert(marks[i] == has_marker(anc[i]));
            }
        },
    }
}

/// The launcher's command line.
#[derive(Clone, Debug)]
pub struct Cli {
    /// Path to the repository, if one was given.
    pub path: Option<String>,
}

impl Cli {
    /// Reads the command line, program name first: the optional path is the
    /// first argument after it.
    pub fn parse_args(args: &Vec<String>) -> (r: Cli)
        ensures
            opt_view(r.path) == (if args@.len() > 1 {
                Some(args@[1]@)
            } else {
                None
            }),
    {
        if args.len() > 1 {
            Cli { path: Some(args[1].clone()) }
        } else {
            Cli { path: None }
        }
    }

    /// The path argument made absolute against `cwd`; relative input is kept
    /// as it is where there is no working directory.
    pub fn get_repo_path(&self, cwd: Option<String>) -> (r: Option<String>)
        ensures
            opt_view(r) == match opt_view(self.path) {
                None => None,
                Some(p) => match absolute_spec(p, opt_view(cwd)) {
                    Some(a) => Some(a),
                    None => Some(p),
                },
            },
    {
        match &self.path {
            None => None,
            Some(p) => match absolute_input(p.as_str(), cwd) {
                Some(a) => Some(a),
                None => Some(p.clone()),
            },
        }
    }
}

} // verus!
