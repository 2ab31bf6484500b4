use prism::models::{
    classify_statuses, format_status, format_status_code, line_type, name_status_entry, short_id, DiffBuilder,
    INDEX_MODIFIED, INDEX_NEW, INDEX_RENAMED, WT_DELETED, WT_MODIFIED, WT_NEW,
};

#[test]
fn status_words_and_codes() {
    assert_eq!(format_status(WT_NEW), "新建");
    assert_eq!(format_status_code(INDEX_NEW), "A");
    assert_eq!(format_status(WT_MODIFIED | INDEX_NEW), "新建");
    assert_eq!(format_status_code(INDEX_MODIFIED), "M");
    assert_eq!(format_status_code(WT_DELETED), "D");
    assert_eq!(format_status(INDEX_RENAMED), "重命名");
    assert_eq!(format_status_code(INDEX_RENAMED), "R");
    assert_eq!(format_status(0), "未知");
    assert_eq!(format_status_code(0), "?");
}

#[test]
fn statuses_split_into_staged_and_unstaged() {
    let entries = vec![
        ("a.txt".to_string(), INDEX_NEW),
        ("b.txt".to_string(), WT_MODIFIED),
        ("c.txt".to_string(), INDEX_MODIFIED | WT_MODIFIED),
        ("d.txt".to_string(), INDEX_RENAMED),
    ];
    let r = classify_statuses(&entries);
    let staged: Vec<&str> = r.staged.iter().map(|f| f.path.as_str()).collect();
    let unstaged: Vec<&str> = r.unstaged.iter().map(|f| f.path.as_str()).collect();
    assert_eq!(staged, vec!["a.txt", "c.txt"]);
    assert_eq!(unstaged, vec!["b.txt", "c.txt"]);
    assert_eq!(r.staged[0].status_code, "A");
    assert_eq!(r.unstaged[0].status, "修改");
}

#[test]
fn name_status_lines() {
    let f = name_status_entry("M\tsrc/main.rs\n").unwrap();
    assert_eq!(f.path, "src/main.rs");
    assert_eq!(f.status_code, "M");
    assert_eq!(f.status, "Modified");
    let f = name_status_entry("  A\tnew file.txt ").unwrap();
    assert_eq!(f.path, "new file.txt");
    assert_eq!(f.status, "Added");
    assert_eq!(name_status_entry("D\tx").unwrap().status, "Deleted");
    assert_eq!(name_status_entry("R\tx").unwrap().status, "Renamed");
    assert_eq!(name_status_entry("X\tx").unwrap().status, "Unknown");
    assert!(name_status_entry("no tab here").is_none());
}

#[test]
fn patch_lines_gather_into_hunks() {
    let mut b = DiffBuilder::new();
    b.add_line(None, 'F', "diff --git".to_string(), None, None);
    b.add_line(Some((1, 2, 1, 3)), 'H', "@@ -1,2 +1,3 @@\n".to_string(), None, None);
    b.add_line(None, ' ', "same\n".to_string(), Some(1), Some(1));
    b.add_line(None, '+', "new\n".to_string(), None, Some(2));
    b.add_line(None, '-', "old\n".to_string(), Some(2), None);
    b.add_line(Some((9, 1, 10, 1)), 'H', "@@ -9 +10 @@\n".to_string(), None, None);
    let hunks = b.finish();
    assert_eq!(hunks.len(), 2);
    assert_eq!((hunks[0].old_start, hunks[0].old_lines, hunks[0].new_start, hunks[0].new_lines), (1, 2, 1, 3));
    let kinds: Vec<&str> = hunks[0].lines.iter().map(|l| l.line_type.as_str()).collect();
    assert_eq!(kinds, vec!["context", "context", "add", "delete"]);
    assert_eq!(hunks[0].lines[2].content, "new\n");
    assert_eq!(hunks[0].lines[2].new_lineno, Some(2));
    assert_eq!(hunks[1].lines.len(), 1);
}

#[test]
fn line_types_and_short_ids() {
    assert_eq!(line_type('+'), "add");
    assert_eq!(line_type('-'), "delete");
    assert_eq!(line_type(' '), "context");
    assert_eq!(short_id("0123456789abcdef"), "0123456");
}
