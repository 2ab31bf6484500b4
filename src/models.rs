//! Records handed to the window, and the pure parts of turning the version
//! control backend's answers into them: status flags, name-status lines and
//! the hunks of a patch.
use vstd::prelude::*;
use vstd::string::*;
use crate::text::same_text;

verus! {

/// Index: the file is new.
pub const INDEX_NEW: u32 = 1;
/// Index: the file was modified.
pub const INDEX_MODIFIED: u32 = 2;
/// Index: the file was deleted.
pub const INDEX_DELETED: u32 = 4;
/// Index: the file was renamed.
pub const INDEX_RENAMED: u32 = 8;
/// Working tree: the file is new.
pub const WT_NEW: u32 = 128;
/// Working tree: the file was modified.
pub const WT_MODIFIED: u32 = 256;
/// Working tree: the file was deleted.
pub const WT_DELETED: u32 = 512;
/// Working tree: the file was renamed.
pub const WT_RENAMED: u32 = 2048;

#[derive(Clone, Debug)]
pub struct RepoInfo {
    pub path: String,
    pub name: String,
    pub current_branch: String,
    pub is_bare: bool,
}

#[derive(Clone, Debug)]
pub struct CommitInfo {
    pub id: String,
    pub short_id: String,
    pub message: String,
    pub author_name: String,
    pub author_email: String,
    pub timestamp: i64,
    pub parent_ids: Vec<String>,
}

#[derive(Clone, Debug)]
pub struct FileInfo {
    pub path: String,
    pub status: String,
    pub status_code: String,
}

#[derive(Clone, Debug)]
pub struct FileStatusResponse {
    pub unstaged: Vec<FileInfo>,
    pub staged: Vec<FileInfo>,
}

#[derive(Clone, Debug)]
pub struct DiffHunk {
    pub old_start: u32,
    pub old_lines: u32,
    pub new_start: u32,
    pub new_lines: u32,
    pub lines: Vec<DiffLine>,
}

#[derive(Clone, Debug)]
pub struct DiffLine {
    /// `add`, `delete` or `context`.
    pub line_type: String,
    pub content: String,
    pub old_lineno: Option<u32>,
    pub new_lineno: Option<u32>,
}

#[derive(Clone, Debug)]
pub struct DiffResponse {
    pub file_path: String,
    pub hunks: Vec<DiffHunk>,
}

pub open spec fn has_any(bits: u32, a: u32, b: u32) -> bool {
    bits & a != 0 || bits & b != 0
}

/// The readable status of a file's flags; the first of new, modified,
/// deleted and renamed that is set, in the index or the working tree, wins.
pub open spec fn status_text(bits: u32) -> Seq<char> {
    if has_any(bits, WT_NEW, INDEX_NEW) {
        "新建"@
    } else if has_any(bits, WT_MODIFIED, INDEX_MODIFIED) {
        "修改"@
    } else if has_any(bits, WT_DELETED, INDEX_DELETED) {
        "删除"@
    } else if has_any(bits, WT_RENAMED, INDEX_RENAMED) {
        "重命名"@
    } else {
        "未知"@
    }
}

/// The one-letter code of a file's flags, in the same order.
pub open spec fn status_code_text(bits: u32) -> Seq<char> {
    if has_any(bits, WT_NEW, INDEX_NEW) {
        "A"@
    } else if has_any(bits, WT_MODIFIED, INDEX_MODIFIED) {
        "M"@
    } else if has_any(bits, WT_DELETED, INDEX_DELETED) {
        "D"@
    } else if has_any(bits, WT_RENAMED, INDEX_RENAMED) {
        "R"@
    } else {
        "?"@
    }
}

/// Staged: new, modified or deleted in the index.
pub open spec fn staged_spec(bits: u32) -> bool {
    bits & (INDEX_NEW | INDEX_MODIFIED | INDEX_DELETED) != 0
}

/// Unstaged: new, modified or deleted in the working tree.
pub open spec fn unstaged_spec(bits: u32) -> bool {
    bits & (WT_NEW | WT_MODIFIED | WT_DELETED) != 0
}

/// The kind of a patch line from its origin character.
pub open spec fn line_type_text(origin: char) -> Seq<char> {
    if origin == '+' {
        "add"@
    } else if origin == '-' {
        "delete"@
    } else {
        "context"@
    }
}

/// The status word of a name-status code.
pub open spec fn change_status_text(code: Seq<char>) -> Seq<char> {
    if code == "M"@ {
        "Modified"@
    } else if code == "A"@ {
        "Added"@
    } else if code == "D"@ {
        "Deleted"@
    } else if code == "R"@ {
        "Renamed"@
    } else {
        "Unknown"@
    }
}

/// The characters that Unicode calls white space.
pub open spec fn is_white(c: char) -> bool {
    ||| 9 <= c as u32 <= 13
    ||| c as u32 == 32
    ||| c as u32 == 0x85
    ||| c as u32 == 0xA0
    ||| c as u32 == 0x1680
    ||| 0x2000 <= c as u32 <= 0x200A
    ||| c as u32 == 0x2028
    ||| c as u32 == 0x2029
    ||| c as u32 == 0x202F
    ||| c as u32 == 0x205F
    ||| c as u32 == 0x3000
}

pub open spec fn trim_start_spec(s: Seq<char>) -> Seq<char>
    decreases s.len(),
{
    if s.len() > 0 && is_white(s[0]) {
        trim_start_spec(s.drop_first())
    } else {
        s
    }
}

pub open spec fn trim_end_spec(s: Seq<char>) -> Seq<char>
    decreases s.len(),
{
    if s.len() > 0 && is_white(s.last()) {
        trim_end_spec(s.drop_last())
    } else {
        s
    }
}

/// Index of the first occurrence of `c` in `s`, or -1.
pub open spec fn first_index_of(s: Seq<char>, c: char) -> int
    decreases s.len(),
{
    if s.len() == 0 {
        -1
    } else if s[0] == c {
        0
    } else if first_index_of(s.drop_first(), c) < 0 {
        -1
    } else {
        first_index_of(s.drop_first(), c) + 1
    }
}

/// The entry of a name-status line: code and path around the first tab of the
/// trimmed line.
pub open spec fn name_status_spec(line: Seq<char>) -> Option<(Seq<char>, Seq<char>)> {
    let t = trim_end_spec(trim_start_spec(line));
    let k = first_index_of(t, '\t');
    if k < 0 {
        None
    } else {
        Some((t.subrange(0, k), t.subrange(k + 1, t.len() as int)))
    }
}

/// A file's readable status.
pub fn format_status(bits: u32) -> (r: String)
    ensures
        r@ == status_text(bits),
{
    let s = if bits & WT_NEW != 0 || bits & INDEX_NEW != 0 {
        "新建"
    } else if bits & WT_MODIFIED != 0 || bits & INDEX_MODIFIED != 0 {
        "修改"
    } else if bits & WT_DELETED != 0 || bits & INDEX_DELETED != 0 {
        "删除"
    } else if bits & WT_RENAMED != 0 || bits & INDEX_RENAMED != 0 {
        "重命名"
    } else {
        "未知"
    };
    String::from_str(s)
}

/// A file's one-letter status code.
pub fn format_status_code(bits: u32) -> (r: String)
    ensures
        r@ == status_code_text(bits),
{
    let s = if bits & WT_NEW != 0 || bits & INDEX_NEW != 0 {
        "A"
    } else if bits & WT_MODIFIED != 0 || bits & INDEX_MODIFIED != 0 {
        "M"
    } else if bits & WT_DELETED != 0 || bits & INDEX_DELETED != 0 {
        "D"
    } else if bits & WT_RENAMED != 0 || bits & INDEX_RENAMED != 0 {
        "R"
    } else {
        "?"
    };
    String::from_str(s)
}

/// The listed files among status entries `(path, flags)`: the staged ones, or
/// the unstaged ones, as `(path, status, code)`, in the entries' order.
pub open spec fn status_list(entries: Seq<(String, u32)>, staged: bool) -> Seq<(Seq<char>, Seq<char>, Seq<char>)>
    decreases entries.len(),
{
    if entries.len() == 0 {
        Seq::empty()
    } else {
        let rest = status_list(entries.drop_last(), staged);
        let e = entries.last();
        if (staged && staged_spec(e.1)) || (!staged && unstaged_spec(e.1)) {
            rest.push((e.0@, status_text(e.1), status_code_text(e.1)))
        } else {
            rest
        }
    }
}

pub open spec fn infos_view(v: Seq<FileInfo>) -> Seq<(Seq<char>, Seq<char>, Seq<char>)> {
    v.map_values(|f: FileInfo| (f.path@, f.status@, f.status_code@))
}

/// Sorts status entries, `(path, flags)` in the backend's order, into staged
/// and unstaged lists; a file may stand in both.
pub fn classify_statuses(entries: &Vec<(String, u32)>) -> (r: FileStatusResponse)
    ensures
        infos_view(r.staged@) == status_list(entries@, true),
        infos_view(r.unstaged@) == status_list(entries@, false),
{
    let mut staged: Vec<FileInfo> = Vec::new();
    let mut unstaged: Vec<FileInfo> = Vec::new();
    let n = entries.len();
    let mut i: usize = 0;
    while i < n
        invariant
            n == entries@.len(),
            i <= n,
            infos_view(staged@) == status_list(entries@.subrange(0, i as int), true),
            infos_view(unstaged@) == status_list(entries@.subrange(0, i as int), false),
        decreases n - i,
    {
        proof {
            assert(entries@.subrange(0, i + 1).drop_last() =~= entries@.subrange(0, i as int));
        }
        let bits = entries[i].1;
        let staged_bits = bits & (INDEX_NEW | INDEX_MODIFIED | INDEX_DELETED) != 0;
        let unstaged_bits = bits & (WT_NEW | WT_MODIFIED | WT_DELETED) != 0;
        if staged_bits {
            let info = FileInfo {
                path: entries[i].0.clone(),
                status: format_status(bits),
                status_code: format_status_code(bits),
            };
            staged.push(info);
        }
        if unstaged_bits {
            let info = FileInfo {
                path: entries[i].0.clone(),
                status: format_status(bits),
                status_code: format_status_code(bits),
            };
            unstaged.push(info);
        }
        proof {
            assert(infos_view(staged@) =~= status_list(entries@.subrange(0, i + 1), true));
            assert(infos_view(unstaged@) =~= status_list(entries@.subrange(0, i + 1), false));
        }
        i += 1;
    }
    assert(entries@.subrange(0, n as int) =~= entries@);
    FileStatusResponse { unstaged, staged }
}

/// The kind of a patch line.
pub fn line_type(origin: char) -> (r: String)
    ensures
        r@ == line_type_text(origin),
{
    if origin == '+' {
        String::from_str("add")
    } else if origin == '-' {
        String::from_str("delete")
    } else {
        String::from_str("context")
    }
}

/// The abbreviated form of a commit id: its first seven characters.
pub fn short_id(id: &str) -> (r: String)
    requires
        id@.len() >= 7,
    ensures
        r@ == id@.subrange(0, 7),
{
    String::from_str(id.substring_char(0, 7))
}

/// Whether `c` is white space.
pub fn is_white_char(c: char) -> (r: bool)
    ensures
        r == is_white(c),
{
    let u = c as u32;
    (9 <= u && u <= 13) || u == 32 || u == 0x85 || u == 0xA0 || u == 0x1680 || (0x2000 <= u && u
        <= 0x200A) || u == 0x2028 || u == 0x2029 || u == 0x202F || u == 0x205F || u == 0x3000
}

/// The entry that a name-status line describes, as `FileInfo` with the status
/// word of its code; none for a line without a tab.
pub fn name_status_entry(line: &str) -> (r: Option<FileInfo>)
    ensures
        match name_status_spec(line@) {
            Some((code, path)) => r matches Some(f) && f.path@ == path && f.status_code@ == code
                && f.status@ == change_status_text(code),
            None => r is None,
        },
{
    let n = line.unicode_len();
    let mut s: usize = 0;
    assert(line@.subrange(0, n as int) =~= line@);
    while s < n && is_white_char(line.get_char(s))
        invariant
            s <= n,
            n == line@.len(),
            trim_start_spec(line@) == trim_start_spec(line@.subrange(s as int, n as int)),
        decreases n - s,
    {
        assert(line@.subrange(s as int, n as int).drop_first() =~= line@.subrange(s + 1, n as int));
        s += 1;
    }
    let mut e: usize = n;
    while e > s && is_white_char(line.get_char(e - 1))
        invariant
            s <= e <= n,
            n == line@.len(),
            trim_start_spec(line@) == line@.subrange(s as int, n as int),
            trim_end_spec(line@.subrange(s as int, n as int)) == trim_end_spec(line@.subrange(s as int, e as int)),
        decreases e,
    {
        assert(line@.subrange(s as int, e as int).drop_last() =~= line@.subrange(s as int, e - 1));
        e -= 1;
    }
    let t = line.substring_char(s, e);
    let m = e - s;
    let mut i: usize = 0;
    assert(t@.subrange(0, m as int) =~= t@);
    while i < m && t.get_char(i) != '\t'
        invariant
            i <= m,
            m == t@.len(),
            first_index_of(t@, '\t') == (if first_index_of(t@.subrange(i as int, m as int), '\t') < 0 {
                -1
            } else {
                first_index_of(t@.subrange(i as int, m as int), '\t') + i
            }),
        decreases m - i,
    {
        assert(t@.subrange(i as int, m as int).drop_first() =~= t@.subrange(i + 1, m as int));
        i += 1;
    }
    if i == m {
        return None;
    }
    let code = String::from_str(t.substring_char(0, i));
    let path = String::from_str(t.substring_char(i + 1, m));
    let status = if same_text(code.as_str(), "M") {
        "Modified"
    } else if same_text(code.as_str(), "A") {
        "Added"
    } else if same_text(code.as_str(), "D") {
        "Deleted"
    } else if same_text(code.as_str(), "R") {
        "Renamed"
    } else {
        "Unknown"
    };
    Some(FileInfo { path, status: String::from_str(status), status_code: code })
}

/// What a patch line holds: kind, text and line numbers.
pub open spec fn line_view(l: DiffLine) -> (Seq<char>, Seq<char>, Option<u32>, Option<u32>) {
    (l.line_type@, l.content@, l.old_lineno, l.new_lineno)
}

/// What a hunk holds: its header numbers and its lines.
pub open spec fn hunk_view(h: DiffHunk) -> ((u32, u32, u32, u32), Seq<(Seq<char>, Seq<char>, Option<u32>, Option<u32>)>) {
    ((h.old_start, h.old_lines, h.new_start, h.new_lines), h.lines@.map_values(|l: DiffLine| line_view(l)))
}

/// Gathers the lines of a patch, as the backend prints them, into hunks.
#[derive(Debug)]
pub struct DiffBuilder {
    pub hunks: Vec<DiffHunk>,
}

impl View for DiffBuilder {
    type V = Seq<((u32, u32, u32, u32), Seq<(Seq<char>, Seq<char>, Option<u32>, Option<u32>)>)>;

    open spec fn view(&self) -> Self::V {
        self.hunks@.map_values(|h: DiffHunk| hunk_view(h))
    }
}

impl DiffBuilder {
    pub fn new() -> (r: DiffBuilder)
        ensures
            r@ == Seq::<((u32, u32, u32, u32), Seq<(Seq<char>, Seq<char>, Option<u32>, Option<u32>)>)>::empty(),
    {
        let r = DiffBuilder { hunks: Vec::new() };
        assert(r@ =~= Seq::<((u32, u32, u32, u32), Seq<(Seq<char>, Seq<char>, Option<u32>, Option<u32>)>)>::empty());
        r
    }

    /// Takes one printed line. A `header` opens a new hunk first; a line is
    /// kept in the last hunk, and dropped while there is none.
    pub fn add_line(
        &mut self,
        header: Option<(u32, u32, u32, u32)>,
        origin: char,
        content: String,
        old_lineno: Option<u32>,
        new_lineno: Option<u32>,
    )
        ensures
            ({
                let l = (line_type_text(origin), content@, old_lineno, new_lineno);
                match header {
                    Some(h) => final(self)@ == old(self)@.push((h, seq![l])),
                    None => if old(self)@.len() == 0 {
                        final(self)@ == old(self)@
                    } else {
                        final(self)@ == old(self)@.update(
                            old(self)@.len() - 1,
                            (old(self)@.last().0, old(self)@.last().1.push(l)),
                        )
                    },
                }
            }),
    {
        let line = DiffLine { line_type: line_type(origin), content, old_lineno, new_lineno };
        let ghost lv = line_view(line);
        match header {
            Some((old_start, old_lines, new_start, new_lines)) => {
                let mut lines: Vec<DiffLine> = Vec::new();
                lines.push(line);
                assert(lines@.map_values(|l: DiffLine| line_view(l)) =~= seq![lv]);
                self.hunks.push(DiffHunk { old_start, old_lines, new_start, new_lines, lines });
                assert(self@ =~= old(self)@.push((header.unwrap(), seq![lv])));
            },
            None => {
                if self.hunks.len() == 0 {
                    return;
                }
                let mut last = self.hunks.pop().unwrap();
                let ghost before = last.lines@;
                last.lines.push(line);
                assert(last.lines@.map_values(|l: DiffLine| line_view(l)) =~= before.map_values(
                    |l: DiffLine| line_view(l),
                ).push(lv));
                self.hunks.push(last);
                assert(self@ =~= old(self)@.update(
                    old(self)@.len() - 1,
                    (old(self)@.last().0, old(self)@.last().1.push(lv)),
                ));
            },
        }
    }

    /// The hunks gathered so far.
    pub fn finish(self) -> (r: Vec<DiffHunk>)
        ensures
            r@.map_values(|h: DiffHunk| hunk_view(h)) == self@,
    {
        self.hunks
    }
}

} // verus!
