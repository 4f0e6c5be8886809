use gh_pr_comments::{render, PullRequestSummary, Reference, ReviewComment};

fn comment(author: &str, path: &str, line: Option<u32>, body: &str) -> ReviewComment {
    ReviewComment {
        author: author.to_string(),
        body: body.to_string(),
        created_at: "2024-01-02T03:04:05Z".to_string(),
        url: "https://github.com/o/r/pull/12#discussion_r1".to_string(),
        diff_hunk: "@@ -1 +1 @@\n-a\n+b".to_string(),
        file_path: path.to_string(),
        line,
    }
}

fn pr() -> (Reference, PullRequestSummary) {
    (
        Reference { owner: "o".to_string(), repository: "r".to_string(), number: 12 },
        PullRequestSummary { title: "Fix bug".to_string(), url: "https://github.com/o/r/pull/12".to_string() },
    )
}

#[test]
fn rendered_comment_appears_in_order() {
    let (reference, summary) = pr();
    let out = render(&reference, &summary, &vec![comment("alice", "src/lib.rs", Some(10), "Ship it")]);
    let places: Vec<usize> = [
        "# PR #12",
        "**Title:** Fix bug",
        "### Comment by @alice",
        "src/lib.rs",
        "**Line:** 10",
        "Ship it",
    ]
    .iter()
    .map(|p| out.find(p).expect(p))
    .collect();
    assert!(places.windows(2).all(|w| w[0] < w[1]));
}

#[test]
fn rendered_document_is_exact() {
    let (reference, summary) = pr();
    let out = render(&reference, &summary, &vec![comment("alice", "src/lib.rs", Some(10), "Ship it")]);
    let expected = "# PR #12 - o\n**Title:** Fix bug\n**URL:** https://github.com/o/r/pull/12\n\n## Comments\n\n\
### Comment by @alice\n**File:** `src/lib.rs`\n**Line:** 10\n**Created:** 2024-01-02T03:04:05Z\n\
**URL:** https://github.com/o/r/pull/12#discussion_r1\n\n#### Diff Context\n```diff\n@@ -1 +1 @@\n-a\n+b\n```\n\n\
#### Comment\nShip it\n\n---\n\n";
    assert_eq!(out, expected);
}

#[test]
fn comment_without_line_has_no_line_entry() {
    let (reference, summary) = pr();
    let out = render(&reference, &summary, &vec![comment("bob", "a.rs", None, "nit")]);
    assert!(!out.contains("**Line:**"));
    assert!(out.contains("### Comment by @bob\n**File:** `a.rs`\n**Created:**"));
}

#[test]
fn comments_keep_their_order() {
    let (reference, summary) = pr();
    let cs = vec![comment("zed", "z.rs", Some(2), "second?"), comment("amy", "a.rs", Some(1), "first?")];
    let out = render(&reference, &summary, &cs);
    assert!(out.find("@zed").unwrap() < out.find("@amy").unwrap());
    assert_eq!(out.matches("---\n").count(), 2);
}

#[test]
fn no_comments_renders_header_only() {
    let (reference, summary) = pr();
    let out = render(&reference, &summary, &vec![]);
    assert_eq!(out, "# PR #12 - o\n**Title:** Fix bug\n**URL:** https://github.com/o/r/pull/12\n\n## Comments\n\n");
}
