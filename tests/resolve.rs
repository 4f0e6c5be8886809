use gh_pr_comments::number::{append_decimal, parse_unsigned};
use gh_pr_comments::text::{split_slashes, take_leading_digits};
use gh_pr_comments::{
    parse_pull_request_path, parse_repo_string, repo_from_remote, resolve, resolve_with_remote,
    ErrorKind, Reference, RepoInfo,
};

fn reference(owner: &str, repository: &str, number: u32) -> Reference {
    Reference { owner: owner.to_string(), repository: repository.to_string(), number }
}

fn no_remote() -> Result<String, String> {
    panic!("the working directory must not be consulted here")
}

#[test]
fn url_resolves_to_reference() {
    let r = resolve("https://github.com/rust-lang/rust/pull/12345", None, no_remote);
    assert_eq!(r, Ok(reference("rust-lang", "rust", 12345)));
}

#[test]
fn url_with_trailing_parts_resolves() {
    let r = resolve("https://github.com/octocat/Hello-World/pull/42/files?w=1#top", None, no_remote);
    assert_eq!(r, Ok(reference("octocat", "Hello-World", 42)));
}

#[test]
fn url_ignores_hint() {
    let r = resolve("https://example.com/a/b/pull/3", Some("x/y"), no_remote);
    assert_eq!(r, Ok(reference("a", "b", 3)));
}

#[test]
fn url_without_pull_segment_fails() {
    let r = resolve("https://github.com/octocat/Hello-World/issues/3", None, no_remote);
    assert_eq!(r.unwrap_err().kind, ErrorKind::InvalidPullRequestUrl);
}

#[test]
fn url_with_oversized_number_fails() {
    let r = resolve("https://github.com/a/b/pull/99999999999", None, no_remote);
    let e = r.unwrap_err();
    assert_eq!(e.kind, ErrorKind::InvalidNumber);
    assert_eq!(e.detail, "99999999999");
}

#[test]
fn slash_path_resolves() {
    let r = resolve("octocat/Hello-World/pull/42", None, no_remote);
    assert_eq!(r, Ok(reference("octocat", "Hello-World", 42)));
}

#[test]
fn owner_repo_lacks_number_whatever_the_hint() {
    for hint in [None, Some("octocat/Hello-World"), Some("not-a-repo")] {
        let r = resolve("octocat/Hello-World", hint, no_remote);
        let e = r.unwrap_err();
        assert_eq!(e.kind, ErrorKind::MissingPrNumber);
        assert_eq!(e.detail, "octocat/Hello-World");
    }
}

#[test]
fn slash_path_with_bad_number_fails() {
    let e = resolve("octocat/Hello-World/pull/x1", None, no_remote).unwrap_err();
    assert_eq!(e.kind, ErrorKind::InvalidNumber);
    assert_eq!(e.detail, "x1");
    let e = resolve("octocat/Hello-World/pull/0", None, no_remote).unwrap_err();
    assert_eq!(e.kind, ErrorKind::InvalidNumber);
}

#[test]
fn slash_path_of_other_lengths_is_unrecognized() {
    for token in ["a/b/c", "a/b/issues/4", "a/b/pull/4/files", "/b/pull/4"] {
        let e = resolve(token, None, no_remote).unwrap_err();
        assert_eq!(e.kind, ErrorKind::UnrecognizedReferenceFormat);
        assert_eq!(e.detail, token);
    }
}

#[test]
fn bare_number_with_hint_resolves() {
    let r = resolve("7", Some("octocat/Hello-World"), no_remote);
    assert_eq!(r, Ok(reference("octocat", "Hello-World", 7)));
}

#[test]
fn bare_number_with_invalid_hint_fails() {
    let e = resolve("7", Some("not-a-repo"), no_remote).unwrap_err();
    assert_eq!(e.kind, ErrorKind::InvalidRepoHint);
    assert_eq!(e.detail, "not-a-repo");
}

#[test]
fn bare_number_uses_remote_without_hint() {
    let r = resolve("7", None, || Ok("git@github.com:octocat/Hello-World.git".to_string()));
    assert_eq!(r, Ok(reference("octocat", "Hello-World", 7)));
}

#[test]
fn bare_number_without_repository_context_fails() {
    let e = resolve("7", None, || Err("not a git repository".to_string())).unwrap_err();
    assert_eq!(e.kind, ErrorKind::NoRepositoryContext);
    assert_eq!(e.detail, "not a git repository");
}

#[test]
fn bare_number_with_foreign_remote_fails() {
    let e = resolve("7", None, || Ok("https://gitlab.com/a/b.git".to_string())).unwrap_err();
    assert_eq!(e.kind, ErrorKind::UnsupportedRemoteHost);
    assert_eq!(e.detail, "https://gitlab.com/a/b.git");
}

#[test]
fn zero_is_not_a_pull_request_number() {
    let e = resolve("0", Some("a/b"), no_remote).unwrap_err();
    assert_eq!(e.kind, ErrorKind::InvalidNumber);
}

#[test]
fn other_tokens_are_unrecognized() {
    let e = resolve("hello", None, no_remote).unwrap_err();
    assert_eq!(e.kind, ErrorKind::UnrecognizedReferenceFormat);
    let e = resolve("", None, no_remote).unwrap_err();
    assert_eq!(e.kind, ErrorKind::UnrecognizedReferenceFormat);
}

#[test]
fn resolving_twice_gives_the_same_result() {
    let remote = || Ok("https://github.com/octocat/Hello-World".to_string());
    for (token, hint) in [("7", None), ("7", Some("a/b")), ("a/b", None), ("x/y/pull/9", None)] {
        assert_eq!(resolve(token, hint, remote), resolve(token, hint, remote));
    }
}

#[test]
fn repo_string_needs_two_names() {
    assert_eq!(
        parse_repo_string("octocat/Hello-World"),
        Ok(RepoInfo { owner: "octocat".to_string(), name: "Hello-World".to_string() })
    );
    for bad in ["octocat", "a/b/c", "/b", "a/", ""] {
        assert_eq!(parse_repo_string(bad).unwrap_err().kind, ErrorKind::InvalidRepoHint);
    }
}

#[test]
fn pull_request_path_is_read() {
    assert_eq!(parse_pull_request_path("/o/r/pull/0042abc"), Ok(reference("o", "r", 42)));
    let e = parse_pull_request_path("/o/r/pull/x").unwrap_err();
    assert_eq!(e.kind, ErrorKind::InvalidPullRequestUrl);
    assert_eq!(e.detail, "/o/r/pull/x");
    assert_eq!(parse_pull_request_path("o/r/pull/1").unwrap_err().kind, ErrorKind::InvalidPullRequestUrl);
}

#[test]
fn remote_forms_are_read() {
    let repo = |o: &str, n: &str| RepoInfo { owner: o.to_string(), name: n.to_string() };
    assert_eq!(repo_from_remote("https://github.com/octocat/Hello-World.git"), Ok(repo("octocat", "Hello-World")));
    assert_eq!(repo_from_remote("ssh://git@github.com/octocat/Hello-World"), Ok(repo("octocat", "Hello-World")));
    assert_eq!(repo_from_remote("git@github.com:o/.git"), Ok(repo("o", ".git")));
    assert_eq!(repo_from_remote("git@github.com:github.com:a/b"), Ok(repo("github.com:a", "b")));
    assert_eq!(
        repo_from_remote("https://github.com/a/b/c").unwrap_err().kind,
        ErrorKind::UnsupportedRemoteHost
    );
}

#[test]
fn remote_answer_is_resolved() {
    assert_eq!(
        resolve_with_remote(5, Ok("git@github.com:o/r.git".to_string())),
        Ok(reference("o", "r", 5))
    );
    assert_eq!(
        resolve_with_remote(5, Err("no origin".to_string())).unwrap_err().kind,
        ErrorKind::NoRepositoryContext
    );
}

#[test]
fn unsigned_numbers_are_read() {
    assert_eq!(parse_unsigned("7"), Some(7));
    assert_eq!(parse_unsigned("+7"), Some(7));
    assert_eq!(parse_unsigned("007"), Some(7));
    assert_eq!(parse_unsigned("4294967295"), Some(u32::MAX));
    assert_eq!(parse_unsigned("4294967296"), None);
    assert_eq!(parse_unsigned(""), None);
    assert_eq!(parse_unsigned("+"), None);
    assert_eq!(parse_unsigned("-1"), None);
    assert_eq!(parse_unsigned("1a"), None);
}

#[test]
fn decimals_are_written() {
    let mut s = String::from("n=");
    append_decimal(&mut s, 0);
    assert_eq!(s, "n=0");
    let mut s = String::new();
    append_decimal(&mut s, 4294967295);
    assert_eq!(s, "4294967295");
}

#[test]
fn text_is_split_on_slashes() {
    assert_eq!(split_slashes("a//b/"), vec!["a", "", "b", ""]);
    assert_eq!(split_slashes(""), vec![""]);
    assert_eq!(take_leading_digits("12ab3"), "12");
    assert_eq!(take_leading_digits("ab"), "");
}
