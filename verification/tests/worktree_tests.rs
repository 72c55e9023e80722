use spacer_core::worktree::parse_worktree_output;

#[test]
fn parse_worktree_output_skips_detached_head() {
    let output = "\
worktree /main\n\
HEAD abc123\n\
branch refs/heads/main\n\
\n\
worktree /detached\n\
HEAD def456\n\
detached\n\
\n\
worktree /feature\n\
HEAD 789abc\n\
branch refs/heads/feature\n\
";
    let entries = parse_worktree_output(output);
    assert_eq!(entries.len(), 3);
    assert_eq!(entries[0].branch.as_deref(), Some("main"));
    assert!(entries[1].branch.is_none()); // detached
    assert_eq!(entries[2].branch.as_deref(), Some("feature"));
}

#[test]
fn parse_worktree_output_reads_paths() {
    let entries = parse_worktree_output("worktree /a/b\r\nbranch refs/heads/x\r\nworktree /c");
    assert_eq!(entries.len(), 2);
    assert_eq!(entries[0].path, "/a/b");
    assert_eq!(entries[0].branch.as_deref(), Some("x"));
    assert_eq!(entries[1].path, "/c");
    assert!(entries[1].branch.is_none());
}

#[test]
fn parse_worktree_output_empty_and_stray_branch() {
    assert!(parse_worktree_output("").is_empty());
    // A branch line before any worktree line belongs to no worktree.
    let entries = parse_worktree_output("branch refs/heads/lost\nworktree /w\n");
    assert_eq!(entries.len(), 1);
    assert_eq!(entries[0].path, "/w");
    assert!(entries[0].branch.is_none());
}
