//! The list of known repositories, kept in the user's configuration.
use vstd::prelude::*;
use vstd::string::*;
use crate::platform::{current_time, fresh_identifier, home_directory};
use crate::text::{find_last, join_path, join_spec, last_index_of, lemma_last_index_bounds, same_text};

verus! {

/// A point in time: whole seconds since the Unix epoch and the nanoseconds
/// past them.
#[derive(Clone, Copy, Debug, PartialEq, Eq, Structural)]
pub struct Timestamp {
    pub seconds: i64,
    pub nanos: u32,
}

/// One repository in the list.
#[derive(Clone, Debug)]
pub struct RepositoryConfig {
    pub id: String,
    pub name: String,
    pub path: String,
    pub added_at: Timestamp,
    pub last_opened_at: Option<Timestamp>,
}

/// What an entry of the list holds.
pub struct RepositoryView {
    pub id: Seq<char>,
    pub name: Seq<char>,
    pub path: Seq<char>,
    pub added_at: Timestamp,
    pub last_opened_at: Option<Timestamp>,
}

impl View for RepositoryConfig {
    type V = RepositoryView;

    open spec fn view(&self) -> RepositoryView {
        RepositoryView {
            id: self.id@,
            name: self.name@,
            path: self.path@,
            added_at: self.added_at,
            last_opened_at: self.last_opened_at,
        }
    }
}

/// The application's configuration: the repositories it knows.
#[derive(Debug)]
pub struct AppConfig {
    pub repositories: Vec<RepositoryConfig>,
}

pub open spec fn entries_view(s: Seq<RepositoryConfig>) -> Seq<RepositoryView> {
    s.map_values(|e: RepositoryConfig| e@)
}

impl View for AppConfig {
    type V = Seq<RepositoryView>;

    open spec fn view(&self) -> Seq<RepositoryView> {
        entries_view(self.repositories@)
    }
}

/// The entries whose id is not `id`, in their order.
pub open spec fn without_id(s: Seq<RepositoryView>, id: Seq<char>) -> Seq<RepositoryView>
    decreases s.len(),
{
    if s.len() == 0 {
        s
    } else {
        let rest = without_id(s.drop_last(), id);
        if s.last().id == id {
            rest
        } else {
            rest.push(s.last())
        }
    }
}

/// Whether `i` is the first position whose entry has id `id`.
pub open spec fn first_with_id(s: Seq<RepositoryView>, i: int, id: Seq<char>) -> bool {
    &&& 0 <= i < s.len()
    &&& s[i].id == id
    &&& forall|j: int| 0 <= j < i ==> (#[trigger] s[j]).id != id
}

/// Whether `i` is the first position whose entry has path `path`.
pub open spec fn first_with_path(s: Seq<RepositoryView>, i: int, path: Seq<char>) -> bool {
    &&& 0 <= i < s.len()
    &&& s[i].path == path
    &&& forall|j: int| 0 <= j < i ==> (#[trigger] s[j]).path != path
}

/// No two entries share a path.
pub open spec fn paths_unique(s: Seq<RepositoryView>) -> bool {
    forall|i: int, j: int| 0 <= i < s.len() && 0 <= j < s.len() && i != j ==> s[i].path != s[j].path
}

/// The last component of a path, trailing slashes aside; none for the root,
/// an empty path or one that ends in `..`.
pub open spec fn file_name_spec(p: Seq<char>) -> Option<Seq<char>> {
    let t = trim_trailing_slashes(p);
    let name = t.subrange(last_index_of(t, '/') + 1, t.len() as int);
    if name.len() == 0 || name == ".."@ {
        None
    } else {
        Some(name)
    }
}

pub open spec fn trim_trailing_slashes(p: Seq<char>) -> Seq<char>
    decreases p.len(),
{
    if p.len() > 0 && p.last() == '/' {
        trim_trailing_slashes(p.drop_last())
    } else {
        p
    }
}

/// The configuration directory inside a home directory.
pub open spec fn config_dir_spec(home: Seq<char>) -> Seq<char> {
    join_spec(home, ".prism"@)
}

/// The configuration file inside a home directory.
pub open spec fn config_path_spec(home: Seq<char>) -> Seq<char> {
    join_spec(config_dir_spec(home), "repositories.json"@)
}

impl RepositoryConfig {
    /// An entry equal to this one.
    pub fn duplicate(&self) -> (r: RepositoryConfig)
        ensures
            r@ == self@,
    {
        RepositoryConfig {
            id: self.id.clone(),
            name: self.name.clone(),
            path: self.path.clone(),
            added_at: self.added_at,
            last_opened_at: self.last_opened_at,
        }
    }
}

/// The last component of a path.
pub fn file_name(p: &str) -> (r: Option<String>)
    ensures
        match file_name_spec(p@) {
            Some(n) => r matches Some(s) && s@ == n,
            None => r is None,
        },
{
    let mut end: usize = p.unicode_len();
    assert(p@.subrange(0, end as int) =~= p@);
    while end > 0 && p.get_char(end - 1) == '/'
        invariant
            end <= p@.len(),
            trim_trailing_slashes(p@) == trim_trailing_slashes(p@.subrange(0, end as int)),
        decreases end,
    {
        proof {
            assert(p@.subrange(0, end as int).drop_last() =~= p@.subrange(0, end - 1));
        }
        end -= 1;
    }
    let t = p.substring_char(0, end);
    proof {
        assert(t@ == trim_trailing_slashes(p@)) by {
            if end == p@.len() {
                assert(p@.subrange(0, end as int) =~= p@);
            }
        }
        lemma_last_index_bounds(t@, '/');
    }
    let start: usize = match find_last(t, '/') {
        Some(k) => k + 1,
        None => 0,
    };
    let name = t.substring_char(start, end);
    if end == start || same_text(name, "..") {
        None
    } else {
        Some(String::from_str(name))
    }
}

/// The configuration directory for a home directory, or the error reported
/// when none is known.
pub fn config_dir_for(home: Option<String>) -> (r: Result<String, String>)
    ensures
        match home {
            Some(h) => r matches Ok(d) && d@ == config_dir_spec(h@),
            None => r matches Err(m) && m@ == "Cannot find home directory"@,
        },
{
    match home {
        Some(h) => Ok(join_path(h.as_str(), ".prism")),
        None => Err(String::from_str("Cannot find home directory")),
    }
}

/// The configuration file for a home directory, or the error reported when
/// none is known.
pub fn config_path_for(home: Option<String>) -> (r: Result<String, String>)
    ensures
        match home {
            Some(h) => r matches Ok(d) && d@ == config_path_spec(h@),
            None => r matches Err(m) && m@ == "Cannot find home directory"@,
        },
{
    match config_dir_for(home) {
        Ok(d) => Ok(join_path(d.as_str(), "repositories.json")),
        Err(e) => Err(e),
    }
}

impl AppConfig {
    /// An empty configuration.
    pub fn new() -> (r: AppConfig)
        ensures
            r@ == Seq::<RepositoryView>::empty(),
    {
        let r = AppConfig { repositories: Vec::new() };
        assert(r@ =~= Seq::<RepositoryView>::empty());
        r
    }

    /// The configuration directory of this user.
    pub fn config_dir() -> (r: Result<String, String>)
        ensures
            r matches Ok(d) ==> exists|h: Seq<char>| d@ == config_dir_spec(h),
    {
        config_dir_for(home_directory())
    }

    /// The configuration file of this user.
    pub fn config_path() -> (r: Result<String, String>)
        ensures
            r matches Ok(d) ==> exists|h: Seq<char>| d@ == config_path_spec(h),
    {
        config_path_for(home_directory())
    }

    /// Appends a new entry for `path`, with a fresh id, added now and never
    /// opened, and returns it.
    pub fn add_repository(&mut self, name: String, path: String) -> (r: RepositoryConfig)
        ensures
            final(self)@ == old(self)@.push(r@),
            r.name@ == name@,
            r.path@ == path@,
            r.id@.len() == 36,
            r.last_opened_at is None,
            paths_unique(old(self)@) && !(exists|i: int|
                0 <= i < old(self)@.len() && old(self)@[i].path == path@) ==> paths_unique(
                final(self)@,
            ),
    {
        let (seconds, nanos) = current_time();
        let repo = RepositoryConfig {
            id: fresh_identifier(),
            name,
            path,
            added_at: Timestamp { seconds, nanos },
            last_opened_at: None,
        };
        self.repositories.push(repo.duplicate());
        assert(self@ =~= old(self)@.push(repo@));
        repo
    }

    /// Removes every entry with id `id`; tells whether one was there.
    pub fn remove_repository(&mut self, id: &str) -> (r: bool)
        ensures
            final(self)@ == without_id(old(self)@, id@),
            r == (final(self)@.len() != old(self)@.len()),
    {
        let n = self.repositories.len();
        let mut kept: Vec<RepositoryConfig> = Vec::new();
        let mut i: usize = 0;
        while i < n
            invariant
                n == self.repositories@.len(),
                self@ == old(self)@,
                i <= n,
                entries_view(kept@) == without_id(self@.subrange(0, i as int), id@),
            decreases n - i,
        {
            proof {
                assert(self@.subrange(0, i + 1).drop_last() =~= self@.subrange(0, i as int));
            }
            if !same_text(self.repositories[i].id.as_str(), id) {
                kept.push(self.repositories[i].duplicate());
                assert(entries_view(kept@) =~= without_id(self@.subrange(0, i as int), id@).push(
                    self@[i as int],
                ));
            }
            i += 1;
        }
        assert(self@.subrange(0, n as int) =~= self@);
        let removed = kept.len() != n;
        self.repositories = kept;
        removed
    }

    /// Marks the first entry with id `id` as opened now; without one nothing
    /// changes.
    pub fn update_last_opened(&mut self, id: &str)
        ensures
            (forall|i: int| 0 <= i < old(self)@.len() ==> old(self)@[i].id != id@) ==> final(self)@
                == old(self)@,
            forall|i: int|
                first_with_id(old(self)@, i, id@) ==> {
                    &&& final(self)@.len() == old(self)@.len()
                    &&& forall|j: int| 0 <= j < old(self)@.len() && j != i ==> final(self)@[j] == old(self)@[j]
                    &&& final(self)@[i].id == old(self)@[i].id
                    &&& final(self)@[i].name == old(self)@[i].name
                    &&& final(self)@[i].path == old(self)@[i].path
                    &&& final(self)@[i].added_at == old(self)@[i].added_at
                    &&& final(self)@[i].last_opened_at is Some
                },
    {
        let n = self.repositories.len();
        let mut i: usize = 0;
        while i < n
            invariant
                n == self.repositories@.len(),
                self@ == old(self)@,
                i <= n,
                forall|j: int| 0 <= j < i ==> self@[j].id != id@,
            decreases n - i,
        {
            if same_text(self.repositories[i].id.as_str(), id) {
                let (seconds, nanos) = current_time();
                let mut e = self.repositories.remove(i);
                e.last_opened_at = Some(Timestamp { seconds, nanos });
                self.repositories.insert(i, e);
                proof {
                    assert forall|k: int| #[trigger] first_with_id(old(self)@, k, id@) implies k == i by {
                        if k < i {
                        } else if k > i {
                            assert(old(self)@[i as int].id == id@);
                        }
                    }
                    assert forall|j: int| 0 <= j < n && j != i implies self@[j] == old(self)@[j] by {
                        if j < i {
                        } else {
                        }
                    }
                }
                return;
            }
            i += 1;
        }
    }

    /// The first entry for `path`.
    pub fn find_by_path(&self, path: &str) -> (r: Option<&RepositoryConfig>)
        ensures
            match r {
                Some(e) => exists|i: int| first_with_path(self@, i, path@) && self@[i] == e@,
                None => forall|i: int| 0 <= i < self@.len() ==> self@[i].path != path@,
            },
    {
        let n = self.repositories.len();
        let mut i: usize = 0;
        while i < n
            invariant
                n == self.repositories@.len(),
                i <= n,
                forall|j: int| 0 <= j < i ==> self@[j].path != path@,
            decreases n - i,
        {
            if same_text(self.repositories[i].path.as_str(), path) {
                assert(first_with_path(self@, i as int, path@));
                return Some(&self.repositories[i]);
            }
            i += 1;
        }
        None
    }

    /// Whether an entry for `path` exists.
    pub fn contains_path(&self, path: &str) -> (r: bool)
        ensures
            r == exists|i: int| 0 <= i < self@.len() && self@[i].path == path@,
    {
        match self.find_by_path(path) {
            Some(_) => true,
            None => false,
        }
    }

    /// Adds `path` under `name`, or under its last component, or `Unnamed`,
    /// unless the list has it already.
    pub fn register_repository(&mut self, path: String, name: Option<String>) -> (r: Result<RepositoryConfig, String>)
        ensures
            (exists|i: int| 0 <= i < old(self)@.len() && old(self)@[i].path == path@) ==> {
                &&& final(self)@ == old(self)@
                &&& r matches Err(m) && m@ == "Repository already in list"@
            },
            !(exists|i: int| 0 <= i < old(self)@.len() && old(self)@[i].path == path@) ==> {
                &&& r matches Ok(e)
                &&& final(self)@ == old(self)@.push(e@)
                &&& e.path@ == path@
                &&& e.name@ == match name {
                    Some(n) => n@,
                    None => match file_name_spec(path@) {
                        Some(f) => f,
                        None => "Unnamed"@,
                    },
                }
                &&& e.last_opened_at is None
            },
            paths_unique(old(self)@) ==> paths_unique(final(self)@),
    {
        if self.contains_path(path.as_str()) {
            return Err(String::from_str("Repository already in list"));
        }
        let repo_name = match name {
            Some(n) => n,
            None => match file_name(path.as_str()) {
                Some(f) => f,
                None => String::from_str("Unnamed"),
            },
        };
        Ok(self.add_repository(repo_name, path))
    }
}

impl Default for AppConfig {
    fn default() -> (r: AppConfig)
        ensures
            r@ == Seq::<RepositoryView>::empty(),
    {
        AppConfig::new()
    }
}

} // verus!
