//! Reading the porcelain listing of `git worktree list --porcelain`.

use vstd::prelude::*;

use crate::model::opt_string_view;
use crate::text::{chars_of, has_prefix, starts_with, string_from_chars, tail_from};

verus! {

/// One worktree of a repository: where it is checked out and, unless its
/// HEAD is detached, the branch it has checked out.
#[derive(Debug)]
pub struct WorktreeInfo {
    pub path: String,
    pub branch: Option<String>,
}

/// A worktree as the contracts see it.
pub struct WorktreeView {
    pub path: Seq<char>,
    pub branch: Option<Seq<char>>,
}

impl View for WorktreeInfo {
    type V = WorktreeView;

    open spec fn view(&self) -> WorktreeView {
        WorktreeView { path: self.path@, branch: opt_string_view(self.branch) }
    }
}

pub open spec fn worktrees_view(v: Seq<WorktreeInfo>) -> Seq<WorktreeView> {
    v.map_values(|w: WorktreeInfo| w@)
}

// ---------------------------------------------------------------------------
// Lines
// ---------------------------------------------------------------------------

/// The lines finished so far and the line still open.
pub struct LineScan {
    pub done: Seq<Seq<char>>,
    pub open: Seq<char>,
}

/// A line without the carriage return that ended it, if one did.
pub open spec fn strip_cr(line: Seq<char>) -> Seq<char> {
    if line.len() > 0 && line.last() == '\r' {
        line.drop_last()
    } else {
        line
    }
}

/// Reading `s` character by character: each line feed closes the open line.
pub open spec fn scan_chars(s: Seq<char>) -> LineScan
    decreases s.len(),
{
    if s.len() == 0 {
        LineScan { done: Seq::empty(), open: Seq::empty() }
    } else {
        let prev = scan_chars(s.drop_last());
        if s.last() == '\n' {
            LineScan { done: prev.done.push(strip_cr(prev.open)), open: Seq::empty() }
        } else {
            LineScan { done: prev.done, open: prev.open.push(s.last()) }
        }
    }
}

/// The lines of `s`: split at `\n` or `\r\n`; a final line ending is
/// optional and adds no empty line.
pub open spec fn lines_of(s: Seq<char>) -> Seq<Seq<char>> {
    let sc = scan_chars(s);
    if sc.open.len() > 0 {
        sc.done.push(sc.open)
    } else {
        sc.done
    }
}

// ---------------------------------------------------------------------------
// Records
// ---------------------------------------------------------------------------

/// The worktrees read so far, and the path and branch of the one being read.
pub struct ParseState {
    pub entries: Seq<WorktreeView>,
    pub path: Option<Seq<char>>,
    pub branch: Option<Seq<char>>,
}

/// The entries once the worktree being read is closed: it is kept when a
/// path was read for it.
pub open spec fn flushed(entries: Seq<WorktreeView>, path: Option<Seq<char>>, branch: Option<Seq<char>>) -> Seq<WorktreeView> {
    match path {
        Some(p) => entries.push(WorktreeView { path: p, branch }),
        None => entries,
    }
}

pub open spec fn worktree_tag() -> Seq<char> {
    "worktree "@
}

pub open spec fn branch_tag() -> Seq<char> {
    "branch refs/heads/"@
}

/// Reading one line: `worktree <path>` closes the current worktree and opens
/// a new one; `branch refs/heads/<name>` records the branch; other lines
/// (HEAD, detached, blank) change nothing.
pub open spec fn parse_line(st: ParseState, line: Seq<char>) -> ParseState {
    if has_prefix(line, worktree_tag()) {
        ParseState {
            entries: flushed(st.entries, st.path, st.branch),
            path: Some(line.skip(worktree_tag().len() as int)),
            branch: None,
        }
    } else if has_prefix(line, branch_tag()) {
        ParseState { branch: Some(line.skip(branch_tag().len() as int)), ..st }
    } else {
        st
    }
}

pub open spec fn parse_lines(lines: Seq<Seq<char>>) -> ParseState
    decreases lines.len(),
{
    if lines.len() == 0 {
        ParseState { entries: Seq::empty(), path: None, branch: None }
    } else {
        parse_line(parse_lines(lines.drop_last()), lines.last())
    }
}

/// The worktrees that a porcelain listing describes, in order.
pub open spec fn worktree_entries(text: Seq<char>) -> Seq<WorktreeView> {
    let st = parse_lines(lines_of(text));
    flushed(st.entries, st.path, st.branch)
}

/// Closes the worktree being read.
fn flush(path: Option<String>, branch: Option<String>, out: &mut Vec<WorktreeInfo>)
    ensures
        worktrees_view(final(out)@) == flushed(
            worktrees_view(old(out)@),
            opt_string_view(path),
            opt_string_view(branch),
        ),
{
    if let Some(p) = path {
        let ghost before = worktrees_view(out@);
        let w = WorktreeInfo { path: p, branch };
        out.push(w);
        assert(worktrees_view(out@) =~= before.push(w@));
    }
}

/// Reads one line into the parse state.
fn feed_line(
    line: &Vec<char>,
    entries: &mut Vec<WorktreeInfo>,
    path: &mut Option<String>,
    branch: &mut Option<String>,
)
    ensures
        (ParseState {
            entries: worktrees_view(final(entries)@),
            path: opt_string_view(*final(path)),
            branch: opt_string_view(*final(branch)),
        }) == parse_line(
            ParseState {
                entries: worktrees_view(old(entries)@),
                path: opt_string_view(*old(path)),
                branch: opt_string_view(*old(branch)),
            },
            line@,
        ),
{
    let wt = "worktree ";
    let br = "branch refs/heads/";
    if starts_with(line, wt) {
        let p = path.take();
        let b = branch.take();
        flush(p, b, entries);
        let rest = tail_from(line, wt.unicode_len());
        *path = Some(string_from_chars(rest.as_slice()));
    } else if starts_with(line, br) {
        let rest = tail_from(line, br.unicode_len());
        *branch = Some(string_from_chars(rest.as_slice()));
    }
}

/// Reads the porcelain output of `git worktree list` into its worktrees.
pub fn parse_worktree_output(output: &str) -> (r: Vec<WorktreeInfo>)
    ensures
        worktrees_view(r@) == worktree_entries(output@),
{
    let chars = chars_of(output);
    let mut entries: Vec<WorktreeInfo> = Vec::new();
    let mut path: Option<String> = None;
    let mut branch: Option<String> = None;
    let mut open: Vec<char> = Vec::new();
    let mut i: usize = 0;
    assert(chars@.take(0) =~= Seq::<char>::empty());
    assert(worktrees_view(entries@) =~= Seq::<WorktreeView>::empty());
    while i < chars.len()
        invariant
            i <= chars@.len(),
            chars@ == output@,
            scan_chars(chars@.take(i as int)).open == open@,
            (ParseState {
                entries: worktrees_view(entries@),
                path: opt_string_view(path),
                branch: opt_string_view(branch),
            }) == parse_lines(scan_chars(chars@.take(i as int)).done),
        decreases chars.len() - i,
    {
        let ghost prefix = chars@.take(i as int + 1);
        assert(prefix.drop_last() =~= chars@.take(i as int));
        assert(prefix.last() == chars@[i as int]);
        let c = chars[i];
        if c == '\n' {
            let ghost whole = open@;
            if open.len() > 0 && open[open.len() - 1] == '\r' {
                open.pop();
                assert(open@ =~= whole.drop_last());
            }
            assert(open@ == strip_cr(whole));
            let ghost done = scan_chars(prefix).done;
            assert(done.drop_last() =~= scan_chars(chars@.take(i as int)).done);
            feed_line(&open, &mut entries, &mut path, &mut branch);
            open = Vec::new();
            assert(open@ =~= Seq::<char>::empty());
        } else {
            open.push(c);
        }
        i += 1;
    }
    assert(chars@.take(i as int) =~= output@);
    let ghost done = scan_chars(output@).done;
    if open.len() > 0 {
        assert(lines_of(output@).drop_last() =~= done);
        feed_line(&open, &mut entries, &mut path, &mut branch);
    }
    flush(path, branch, &mut entries);
    entries
}

/// How many of `lines` open a worktree record.
pub open spec fn worktree_line_count(lines: Seq<Seq<char>>) -> nat
    decreases lines.len(),
{
    if lines.len() == 0 {
        0
    } else {
        worktree_line_count(lines.drop_last()) + if has_prefix(lines.last(), worktree_tag()) {
            1nat
        } else {
            0nat
        }
    }
}

proof fn lemma_parse_lines_count(lines: Seq<Seq<char>>)
    ensures
        parse_lines(lines).entries.len() + (if parse_lines(lines).path is Some { 1int } else { 0int })
            == worktree_line_count(lines),
    decreases lines.len(),
{
    if lines.len() > 0 {
        lemma_parse_lines_count(lines.drop_last());
    }
}

/// A listing describes one worktree for each `worktree <path>` line in it.
pub proof fn law_one_entry_per_worktree_line(text: Seq<char>)
    ensures
        worktree_entries(text).len() == worktree_line_count(lines_of(text)),
{
    lemma_parse_lines_count(lines_of(text));
}

/// A worktree whose record names no branch (a detached HEAD) is read with
/// no branch; the branch named last in a record is the one read.
pub proof fn law_branch_of_record(st: ParseState, line: Seq<char>)
    requires
        has_prefix(line, branch_tag()),
        !has_prefix(line, worktree_tag()),
    ensures
        parse_line(st, line).branch == Some(line.skip(branch_tag().len() as int)),
        parse_line(st, line).path == st.path,
        parse_line(st, line).entries == st.entries,
{
}

} // verus!
