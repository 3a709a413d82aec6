//! The commit table of one pull request, as lines of text.

use vstd::prelude::*;
use vstd::string::*;
use crate::text::{
    decimal, lemma_first_line, decimal_of, first_line, first_line_of, pad_right, pad_right_of, repeat, repeat_char,
};

verus! {

/// One commit of a pull request, as the hosting service lists it.
pub struct Commit {
    pub sha: String,
    pub author_name: String,
    pub author_date: String,
    pub message: String,
}

/// What a `Commit` holds, as sequences of characters.
pub struct CommitModel {
    pub sha: Seq<char>,
    pub author_name: Seq<char>,
    pub author_date: Seq<char>,
    pub message: Seq<char>,
}

impl View for Commit {
    type V = CommitModel;

    open spec fn view(&self) -> CommitModel {
        CommitModel {
            sha: self.sha@,
            author_name: self.author_name@,
            author_date: self.author_date@,
            message: self.message@,
        }
    }
}

/// The summary of a pull request that the table shows above its commits.
pub struct PullRequestSummary {
    pub title: String,
}

/// The commits of a list, each as its model.
pub open spec fn commits_view(commits: Seq<Commit>) -> Seq<CommitModel> {
    commits.map_values(|c: Commit| c@)
}

/// The lines of a list of strings, each as its characters.
pub open spec fn lines_view(lines: Seq<String>) -> Seq<Seq<char>> {
    lines.map_values(|s: String| s@)
}

pub const SHA_WIDTH: usize = 40;

pub const DATE_WIDTH: usize = 25;

pub const AUTHOR_WIDTH: usize = 20;

pub const MESSAGE_RULE_WIDTH: usize = 60;

/// The line that names the pull request: `PR #<number> - <title>`.
pub open spec fn title_line(pr_number: u32, title: Seq<char>) -> Seq<char> {
    "PR #"@ + decimal(pr_number as nat) + " - "@ + title
}

/// Four fields in their columns, split by ` | `; the last one is not padded.
pub open spec fn row(sha: Seq<char>, date: Seq<char>, author: Seq<char>, message: Seq<char>) -> Seq<
    char,
> {
    pad_right(sha, SHA_WIDTH as nat) + " | "@ + pad_right(date, DATE_WIDTH as nat) + " | "@
        + pad_right(author, AUTHOR_WIDTH as nat) + " | "@ + message
}

/// The line that names the four columns.
pub open spec fn header_line() -> Seq<char> {
    row("Commit SHA"@, "Date"@, "Author"@, "Message"@)
}

/// The line of dashes under the column names.
pub open spec fn separator_line() -> Seq<char> {
    repeat('-', SHA_WIDTH as nat) + "-+-"@ + repeat('-', DATE_WIDTH as nat) + "-+-"@ + repeat(
        '-',
        MESSAGE_RULE_WIDTH as nat,
    )
}

/// The line of one commit: its SHA, date, author, and the first line of its
/// message.
pub open spec fn data_line(c: CommitModel) -> Seq<char> {
    row(c.sha, c.author_date, c.author_name, first_line(c.message))
}

/// The whole table of a pull request: the title line, the column names, the
/// separator, one line per commit in the order given, and a blank line.
pub open spec fn table_lines(pr_number: u32, title: Seq<char>, commits: Seq<CommitModel>) -> Seq<
    Seq<char>,
> {
    seq![title_line(pr_number, title), header_line(), separator_line()] + commits.map_values(
        |c: CommitModel| data_line(c),
    ) + seq![Seq::<char>::empty()]
}

fn row_of(sha: &str, date: &str, author: &str, message: &str) -> (r: String)
    ensures
        r@ == row(sha@, date@, author@, message@),
{
    let mut r = pad_right_of(sha, SHA_WIDTH);
    r.append(" | ");
    r.append(pad_right_of(date, DATE_WIDTH).as_str());
    r.append(" | ");
    r.append(pad_right_of(author, AUTHOR_WIDTH).as_str());
    r.append(" | ");
    r.append(message);
    r
}

/// The line that names the pull request.
pub fn title_line_of(pr_number: u32, title: &str) -> (r: String)
    ensures
        r@ == title_line(pr_number, title@),
{
    let mut r = String::from_str("PR #");
    r.append(decimal_of(pr_number).as_str());
    r.append(" - ");
    r.append(title);
    r
}

/// The line that names the four columns.
pub fn header_line_of() -> (r: String)
    ensures
        r@ == header_line(),
{
    row_of("Commit SHA", "Date", "Author", "Message")
}

/// The line of dashes under the column names.
pub fn separator_line_of() -> (r: String)
    ensures
        r@ == separator_line(),
{
    let mut r = repeat_char('-', SHA_WIDTH);
    r.append("-+-");
    r.append(repeat_char('-', DATE_WIDTH).as_str());
    r.append("-+-");
    r.append(repeat_char('-', MESSAGE_RULE_WIDTH).as_str());
    r
}

/// The line of one commit.
pub fn data_line_of(c: &Commit) -> (r: String)
    ensures
        r@ == data_line(c@),
{
    let message = first_line_of(c.message.as_str());
    row_of(c.sha.as_str(), c.author_date.as_str(), c.author_name.as_str(), message.as_str())
}

/// The table of a pull request, one string per line, ready to be printed in
/// order.
pub fn commit_table_lines(pr_number: u32, pr_title: &str, commits: &Vec<Commit>) -> (r: Vec<
    String,
>)
    ensures
        lines_view(r@) == table_lines(pr_number, pr_title@, commits_view(commits@)),
{
    let mut r: Vec<String> = Vec::new();
    r.push(title_line_of(pr_number, pr_title));
    r.push(header_line_of());
    r.push(separator_line_of());
    let ghost head = seq![title_line(pr_number, pr_title@), header_line(), separator_line()];
    assert(lines_view(r@) =~= head);
    let mut i: usize = 0;
    while i < commits.len()
        invariant
            i <= commits@.len(),
            head == seq![title_line(pr_number, pr_title@), header_line(), separator_line()],
            lines_view(r@) =~= head + Seq::new(i as nat, |j: int| data_line(commits@[j]@)),
        decreases commits.len() - i,
    {
        let ghost before = r@;
        let line = data_line_of(&commits[i]);
        r.push(line);
        assert(lines_view(r@) =~= lines_view(before).push(line@));
        i = i + 1;
        assert(lines_view(r@) =~= head + Seq::new(i as nat, |j: int| data_line(commits@[j]@)));
    }
    r.push(String::new());
    assert(Seq::new(i as nat, |j: int| data_line(commits@[j]@)) =~= commits_view(
        commits@,
    ).map_values(|c: CommitModel| data_line(c)));
    assert(lines_view(r@) =~= table_lines(pr_number, pr_title@, commits_view(commits@)));
    r
}

/// A table holds, in this order, the title line, exactly one line of column
/// names, one separator line, one line per commit in the order of the list,
/// and one blank line, which is the only empty line of the table.
pub proof fn lemma_table_shape(pr_number: u32, title: Seq<char>, commits: Seq<CommitModel>)
    ensures
        table_lines(pr_number, title, commits).len() == commits.len() + 4,
        table_lines(pr_number, title, commits)[0] == title_line(pr_number, title),
        table_lines(pr_number, title, commits)[1] == header_line(),
        table_lines(pr_number, title, commits)[2] == separator_line(),
        forall|i: int|
            0 <= i < commits.len() ==> table_lines(pr_number, title, commits)[3 + i] == data_line(
                #[trigger] commits[i],
            ),
        table_lines(pr_number, title, commits)[commits.len() + 3int] == Seq::<char>::empty(),
        forall|i: int|
            0 <= i < commits.len() + 3 ==> #[trigger] table_lines(pr_number, title, commits)[i].len()
                > 0,
{
    reveal_strlit("PR #");
    reveal_strlit(" | ");
    reveal_strlit("-+-");
    let t = table_lines(pr_number, title, commits);
    assert forall|i: int| 0 <= i < commits.len() implies t[3 + i] == data_line(
        #[trigger] commits[i],
    ) by {}
    assert forall|i: int| 0 <= i < commits.len() + 3 implies #[trigger] t[i].len() > 0 by {
        if i >= 3 {
            assert(t[i] == data_line(commits[i - 3]));
        }
    }
}

/// A pull request with no commits gives the title line, the column names, the
/// separator and the blank line, with no line of data.
pub proof fn lemma_empty_commits(pr_number: u32, title: Seq<char>)
    ensures
        table_lines(pr_number, title, Seq::<CommitModel>::empty()) == seq![
            title_line(pr_number, title),
            header_line(),
            separator_line(),
            Seq::<char>::empty(),
        ],
{
    assert(table_lines(pr_number, title, Seq::<CommitModel>::empty()) =~= seq![
        title_line(pr_number, title),
        header_line(),
        separator_line(),
        Seq::<char>::empty(),
    ]);
}

/// The message field of a commit's line is the text of its message before the
/// first line break, and nothing of what follows: it is a prefix of the
/// message, holds no line feed, and ends at the first line feed (or at a
/// carriage return just before it). A message of one line is shown whole.
pub proof fn lemma_message_field(c: CommitModel)
    ensures
        data_line(c) == row(c.sha, c.author_date, c.author_name, first_line(c.message)),
        first_line(c.message) == c.message.subrange(0, first_line(c.message).len() as int),
        forall|i: int| 0 <= i < first_line(c.message).len() ==> #[trigger] first_line(c.message)[i] != '\n',
        first_line(c.message).len() < c.message.len() ==> (
            c.message[first_line(c.message).len() as int] == '\n' || (
                c.message[first_line(c.message).len() as int] == '\r'
                && c.message[first_line(c.message).len() + 1int] == '\n')),
        (forall|i: int| 0 <= i < c.message.len() ==> #[trigger] c.message[i] != '\n') ==> first_line(c.message) == c.message,
{
    lemma_first_line(c.message);
}

} // verus!
