use gitmeta::metadata::{build_metadata, trim_str};
use gitmeta::select::filter_eligible;
use gitmeta::GitError;

#[test]
fn trim_removes_surrounding_whitespace() {
    assert_eq!(trim_str("  Fix bug  \n"), "Fix bug");
}

#[test]
fn trim_keeps_inner_whitespace() {
    assert_eq!(trim_str("\t a  b \r\n"), "a  b");
}

#[test]
fn trim_of_trimmed_is_identity() {
    assert_eq!(trim_str("Fix bug"), "Fix bug");
    let once = trim_str("  Fix bug  \n");
    assert_eq!(trim_str(once.as_str()), once);
}

#[test]
fn trim_of_all_whitespace_is_empty() {
    assert_eq!(trim_str(" \t\r\n"), "");
    assert_eq!(trim_str(""), "");
}

#[test]
fn trim_handles_unicode_whitespace() {
    assert_eq!(trim_str("\u{3000}\u{00A0}x\u{2003}"), "x");
}

#[test]
fn build_metadata_keeps_given_fields() {
    let m = build_metadata(
        "abc123".to_owned(),
        Some("Alice".to_owned()),
        1700000000,
        Some("  Fix bug  \n".to_owned()),
    );
    assert_eq!(m.hash, "abc123");
    assert_eq!(m.author, "Alice");
    assert_eq!(m.date, 1700000000);
    assert_eq!(m.message, "Fix bug");
}

#[test]
fn build_metadata_author_falls_back_to_unknown() {
    let m = build_metadata("abc123".to_owned(), None, 0, Some("hi".to_owned()));
    assert_eq!(m.author, "Unknown");
}

#[test]
fn build_metadata_missing_message_is_empty() {
    let m = build_metadata("abc123".to_owned(), Some("Alice".to_owned()), 0, None);
    assert_eq!(m.message, "");
}

#[test]
fn filter_keeps_only_non_merge_entries_in_order() {
    let entries: Vec<(u64, usize)> = vec![(10, 0), (11, 1), (12, 2), (13, 1), (14, 8)];
    assert_eq!(filter_eligible(&entries), vec![10, 11, 13]);
}

#[test]
fn filter_of_only_merges_is_empty() {
    let entries: Vec<(u64, usize)> = vec![(10, 2), (11, 3), (12, 2)];
    assert_eq!(filter_eligible(&entries), Vec::<u64>::new());
}

#[test]
fn filter_of_no_merges_keeps_everything() {
    let entries: Vec<(u64, usize)> = vec![(10, 1), (11, 0), (12, 1)];
    assert_eq!(filter_eligible(&entries), vec![10, 11, 12]);
}

#[test]
fn filter_of_nothing_is_empty() {
    let entries: Vec<(u64, usize)> = Vec::new();
    assert_eq!(filter_eligible(&entries), Vec::<u64>::new());
}

#[test]
fn error_reports_carry_context() {
    assert_eq!(
        GitError::NoEligibleCommits.describe(),
        "No non-merge commits found in repository"
    );
    assert_eq!(GitError::Selection.describe(), "Failed to select random commit");
    assert_eq!(
        GitError::CommitResolution("bad spec".to_owned()).describe(),
        "Invalid commit hash or commit not found: bad spec"
    );
    assert_eq!(
        GitError::RepositoryOpen("no repo".to_owned()).describe(),
        "Failed to open Git repository: no repo"
    );
    assert_eq!(
        GitError::NotACommit("a tree".to_owned()).describe(),
        "Object is not a commit: a tree"
    );
    assert_eq!(
        GitError::WalkInit("no head".to_owned()).describe(),
        "Failed to start history walk: no head"
    );
}
