use pr_commit_table::table::{
    commit_table_lines, data_line_of, header_line_of, separator_line_of, title_line_of, Commit,
};
use pr_commit_table::text::{decimal_of, first_line_of, pad_right_of, repeat_char};

fn commit(sha: &str, name: &str, date: &str, message: &str) -> Commit {
    Commit {
        sha: sha.to_string(),
        author_name: name.to_string(),
        author_date: date.to_string(),
        message: message.to_string(),
    }
}

fn padded(s: &str, width: usize) -> String {
    format!("{:<width$}", s, width = width)
}

#[test]
fn example_row_shows_first_line_only() {
    let commits = vec![commit("abc123", "Alice", "2024-01-01", "Fix null pointer\n\nDetails...")];
    let lines = commit_table_lines(42, "Fix bug", &commits);
    assert_eq!(lines.len(), 5);
    assert_eq!(lines[0], "PR #42 - Fix bug");
    let expected = format!(
        "{} | {} | {} | {}",
        padded("abc123", 40),
        padded("2024-01-01", 25),
        padded("Alice", 20),
        "Fix null pointer"
    );
    assert_eq!(lines[3], expected);
    assert!(!lines[3].contains("Details"));
    assert_eq!(lines[4], "");
}

#[test]
fn table_has_header_separator_rows_and_blank_line() {
    let commits = vec![
        commit("a1", "Ann", "2024-02-01", "one"),
        commit("b2", "Bob", "2024-02-02", "two\nmore"),
        commit("c3", "Cyd", "2024-02-03", "three"),
    ];
    let lines = commit_table_lines(7, "Title", &commits);
    assert_eq!(lines.len(), 3 + 4);
    assert_eq!(lines[0], "PR #7 - Title");
    assert_eq!(lines[1], header_line_of());
    assert_eq!(lines[2], separator_line_of());
    for (i, c) in commits.iter().enumerate() {
        assert_eq!(lines[3 + i], data_line_of(c));
    }
    assert!(lines[4].ends_with("| two"));
    assert_eq!(lines[6], "");
    assert_eq!(lines.iter().filter(|l| l.is_empty()).count(), 1);
}

#[test]
fn empty_commit_list_gives_no_data_lines() {
    let lines = commit_table_lines(5, "Empty", &Vec::new());
    assert_eq!(lines.len(), 4);
    assert_eq!(lines[0], "PR #5 - Empty");
    assert_eq!(lines[1], header_line_of());
    assert_eq!(lines[2], separator_line_of());
    assert_eq!(lines[3], "");
}

#[test]
fn header_and_separator_match_column_widths() {
    let header = format!(
        "{:<40} | {:<25} | {:<20} | {}",
        "Commit SHA", "Date", "Author", "Message"
    );
    assert_eq!(header_line_of(), header);
    let separator = format!("{:-<40}-+-{:-<25}-+-{:-<60}", "", "", "");
    assert_eq!(separator_line_of(), separator);
}

#[test]
fn long_fields_are_not_cut() {
    let sha = "0123456789012345678901234567890123456789abcd";
    let c = commit(sha, "An author with a rather long name", "2024-03-04T05:06:07Z", "msg");
    let line = data_line_of(&c);
    assert!(line.starts_with(&format!("{} | ", sha)));
    assert!(line.contains("| An author with a rather long name | msg"));
}

#[test]
fn first_line_rules() {
    assert_eq!(first_line_of("Fix null pointer\n\nDetails..."), "Fix null pointer");
    assert_eq!(first_line_of("windows\r\nnext"), "windows");
    assert_eq!(first_line_of("single line"), "single line");
    assert_eq!(first_line_of(""), "");
    assert_eq!(first_line_of("\nafter"), "");
    assert_eq!(first_line_of("ends with cr\r"), "ends with cr\r");
}

#[test]
fn padding_and_numbers() {
    assert_eq!(pad_right_of("ab", 5), "ab   ");
    assert_eq!(pad_right_of("abcdef", 3), "abcdef");
    assert_eq!(pad_right_of("é", 3), "é  ");
    assert_eq!(repeat_char('-', 4), "----");
    assert_eq!(decimal_of(0), "0");
    assert_eq!(decimal_of(42), "42");
    assert_eq!(decimal_of(u32::MAX), "4294967295");
    assert_eq!(title_line_of(1000, "T"), "PR #1000 - T");
}
