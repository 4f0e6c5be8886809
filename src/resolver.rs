//! Turning a user's token, an optional `owner/repo` hint and the working
//! directory's remote into a pull-request reference.
//!
//! Shapes are tried in a fixed order (URL, slash path, bare number); the first
//! shape that the token has decides, and a failure inside it is final.
use vstd::prelude::*;

use crate::model::{
    error_view, outcome, repo_outcome, ErrorKind, ErrorView, Reference, ReferenceView,
    RepoInfo, RepoView, ResolutionError,
};
use crate::number::{parse_unsigned, unsigned_of};
use crate::text::{
    has_slash, leading_digits, same_text, segments, split_slashes, take_leading_digits,
};
use crate::laws::lemma_resolved_reference_well_formed;
use crate::web_url::{parsed_url_path, url_path_of};

verus! {

/// The literal segment that precedes a pull request's number.
pub const PULL: &'static str = "pull";

/// The hosting domain whose remotes name a repository.
pub const HOST: &'static str = "github.com";

/// The suffix that a remote's repository name may carry.
pub const GIT_SUFFIX: &'static str = ".git";

/// A reference from its parts, where `digits` must read as a positive number.
pub open spec fn reference_outcome(owner: Seq<char>, repository: Seq<char>, digits: Seq<char>) -> Result<
    ReferenceView,
    ErrorView,
> {
    match unsigned_of(digits) {
        Some(n) => if n > 0 {
            Ok(ReferenceView { owner, repository, number: n })
        } else {
            Err(error_view(ErrorKind::InvalidNumber, digits))
        },
        None => Err(error_view(ErrorKind::InvalidNumber, digits)),
    }
}

/// An `owner/repo` hint: exactly two pieces, neither empty.
pub open spec fn repo_string_outcome(h: Seq<char>) -> Result<RepoView, ErrorView> {
    let segs = segments(h);
    if segs.len() == 2 && segs[0].len() > 0 && segs[1].len() > 0 {
        Ok(RepoView { owner: segs[0], name: segs[1] })
    } else {
        Err(error_view(ErrorKind::InvalidRepoHint, h))
    }
}

/// The path of a pull request's URL: it begins with
/// `/{owner}/{repo}/pull/{digits}`, owner and repo not empty; what follows the
/// digits is ignored.
pub open spec fn pull_path_outcome(path: Seq<char>) -> Result<ReferenceView, ErrorView> {
    let segs = segments(path.drop_first());
    if path.len() > 0 && path[0] == '/' && segs.len() >= 4 && segs[0].len() > 0 && segs[1].len() > 0
        && segs[2] == PULL@ && leading_digits(segs[3]).len() > 0 {
        reference_outcome(segs[0], segs[1], leading_digits(segs[3]))
    } else {
        Err(error_view(ErrorKind::InvalidPullRequestUrl, path))
    }
}

/// A token with a `/` that is not a URL: `owner/repo` lacks the number;
/// `owner/repo/pull/number` gives all three.
pub open spec fn slash_path_outcome(token: Seq<char>) -> Result<ReferenceView, ErrorView> {
    let segs = segments(token);
    if segs.len() == 2 {
        Err(error_view(ErrorKind::MissingPrNumber, token))
    } else if segs.len() == 4 && segs[2] == PULL@ && segs[0].len() > 0 && segs[1].len() > 0 {
        reference_outcome(segs[0], segs[1], segs[3])
    } else {
        Err(error_view(ErrorKind::UnrecognizedReferenceFormat, token))
    }
}

/// A repository's name as a remote gives it, less a trailing `.git`.
pub open spec fn strip_git(name: Seq<char>) -> Seq<char> {
    if name.len() > GIT_SUFFIX@.len() && name.skip(name.len() - GIT_SUFFIX@.len()) == GIT_SUFFIX@ {
        name.take(name.len() - GIT_SUFFIX@.len())
    } else {
        name
    }
}

/// The repository that a remote names from position `i` on: the host, then
/// `:` or `/`, then `{owner}/{repo}` up to the end, both not empty.
pub open spec fn remote_match_at(url: Seq<char>, i: int) -> Option<RepoView> {
    let h = HOST@.len() as int;
    let segs = segments(url.skip(i + h + 1));
    if 0 <= i && i + h + 1 <= url.len() && url.subrange(i, i + h) == HOST@ && (url[i + h] == ':'
        || url[i + h] == '/') && segs.len() == 2 && segs[0].len() > 0 && segs[1].len() > 0 {
        Some(RepoView { owner: segs[0], name: strip_git(segs[1]) })
    } else {
        None
    }
}

/// The first match of the remote pattern at position `i` or later.
pub open spec fn remote_match_from(url: Seq<char>, i: int) -> Option<RepoView>
    decreases url.len() - i,
{
    if i < 0 || i >= url.len() {
        None
    } else if remote_match_at(url, i) is Some {
        remote_match_at(url, i)
    } else {
        remote_match_from(url, i + 1)
    }
}

/// The repository that a remote URL names, from its leftmost match.
pub open spec fn remote_repo_outcome(url: Seq<char>) -> Result<RepoView, ErrorView> {
    match remote_match_from(url, 0) {
        Some(repo) => Ok(repo),
        None => Err(error_view(ErrorKind::UnsupportedRemoteHost, url)),
    }
}

/// A reference to pull request `number` in a repository.
pub open spec fn in_repo(repo: RepoView, number: u32) -> ReferenceView {
    ReferenceView { owner: repo.owner, repository: repo.name, number }
}

/// A bare number resolved against what the working directory's remote gave:
/// its URL, or a message saying why none could be read.
pub open spec fn remote_outcome(number: u32, remote: Result<Seq<char>, Seq<char>>) -> Result<
    ReferenceView,
    ErrorView,
> {
    match remote {
        Err(msg) => Err(error_view(ErrorKind::NoRepositoryContext, msg)),
        Ok(url) => match remote_repo_outcome(url) {
            Ok(repo) => Ok(in_repo(repo, number)),
            Err(e) => Err(e),
        },
    }
}

/// Where resolution stands once the token and the hint have been read.
pub enum Step {
    /// The result is known.
    Done(Result<ReferenceView, ErrorView>),
    /// The token is this pull request number, and the repository must come
    /// from the working directory.
    NeedsRemote(u32),
}

/// Resolution as far as token and hint decide it.
pub open spec fn dispatch(token: Seq<char>, hint: Option<Seq<char>>) -> Step {
    match url_path_of(token) {
        Some(path) => Step::Done(pull_path_outcome(path)),
        None => if has_slash(token) {
            Step::Done(slash_path_outcome(token))
        } else {
            match unsigned_of(token) {
                None => Step::Done(Err(error_view(ErrorKind::UnrecognizedReferenceFormat, token))),
                Some(n) => if n == 0 {
                    Step::Done(Err(error_view(ErrorKind::InvalidNumber, token)))
                } else {
                    match hint {
                        Some(h) => Step::Done(
                            match repo_string_outcome(h) {
                                Ok(repo) => Ok(in_repo(repo, n)),
                                Err(e) => Err(e),
                            },
                        ),
                        None => Step::NeedsRemote(n),
                    }
                },
            }
        },
    }
}

/// The result of resolving `token` with `hint`, where the working directory's
/// remote, if it is read at all, gives `remote`.
pub open spec fn resolution(
    token: Seq<char>,
    hint: Option<Seq<char>>,
    remote: Result<Seq<char>, Seq<char>>,
) -> Result<ReferenceView, ErrorView> {
    match dispatch(token, hint) {
        Step::Done(r) => r,
        Step::NeedsRemote(n) => remote_outcome(n, remote),
    }
}

pub open spec fn hint_view(hint: Option<&str>) -> Option<Seq<char>> {
    match hint {
        Some(h) => Some(h@),
        None => None,
    }
}

pub open spec fn remote_view(remote: Result<String, String>) -> Result<Seq<char>, Seq<char>> {
    match remote {
        Ok(u) => Ok(u@),
        Err(m) => Err(m@),
    }
}


/// A reference from owner, repository and the text of its number.
fn reference_from_parts(owner: &str, repository: &str, digits: &str) -> (r: Result<
    Reference,
    ResolutionError,
>)
    ensures
        outcome(r) == reference_outcome(owner@, repository@, digits@),
{
    match parse_unsigned(digits) {
        Some(n) => if n > 0 {
            Ok(
                Reference {
                    owner: String::from_str(owner),
                    repository: String::from_str(repository),
                    number: n,
                },
            )
        } else {
            Err(ResolutionError::new(ErrorKind::InvalidNumber, digits))
        },
        None => Err(ResolutionError::new(ErrorKind::InvalidNumber, digits)),
    }
}

/// Reads an `owner/repo` hint.
pub fn parse_repo_string(repo: &str) -> (r: Result<RepoInfo, ResolutionError>)
    ensures
        repo_outcome(r) == repo_string_outcome(repo@),
{
    let segs = split_slashes(repo);
    if segs.len() == 2 && !segs[0].as_str().is_empty() && !segs[1].as_str().is_empty() {
        Ok(RepoInfo { owner: segs[0].clone(), name: segs[1].clone() })
    } else {
        Err(ResolutionError::new(ErrorKind::InvalidRepoHint, repo))
    }
}

/// Reads the path of a pull request's URL.
pub fn parse_pull_request_path(path: &str) -> (r: Result<Reference, ResolutionError>)
    ensures
        outcome(r) == pull_path_outcome(path@),
{
    let len = path.unicode_len();
    if len == 0 || path.get_char(0) != '/' {
        return Err(ResolutionError::new(ErrorKind::InvalidPullRequestUrl, path));
    }
    let rest = path.substring_char(1, len);
    assert(rest@ =~= path@.drop_first());
    let segs = split_slashes(rest);
    let pull = String::from_str(PULL);
    if segs.len() >= 4 && !segs[0].as_str().is_empty() && !segs[1].as_str().is_empty()
        && segs[2].eq(&pull) {
        let digits = take_leading_digits(segs[3].as_str());
        if !digits.as_str().is_empty() {
            return reference_from_parts(segs[0].as_str(), segs[1].as_str(), digits.as_str());
        }
    }
    Err(ResolutionError::new(ErrorKind::InvalidPullRequestUrl, path))
}

/// Reads a token with a `/` that is not a URL.
fn resolve_slash_path(token: &str) -> (r: Result<Reference, ResolutionError>)
    ensures
        outcome(r) == slash_path_outcome(token@),
{
    let segs = split_slashes(token);
    let pull = String::from_str(PULL);
    if segs.len() == 2 {
        Err(ResolutionError::new(ErrorKind::MissingPrNumber, token))
    } else if segs.len() == 4 && segs[2].eq(&pull) && !segs[0].as_str().is_empty()
        && !segs[1].as_str().is_empty() {
        reference_from_parts(segs[0].as_str(), segs[1].as_str(), segs[3].as_str())
    } else {
        Err(ResolutionError::new(ErrorKind::UnrecognizedReferenceFormat, token))
    }
}

/// Drops a trailing `.git` from a repository's name.
fn strip_git_suffix(name: &str) -> (r: String)
    ensures
        r@ == strip_git(name@),
{
    let len = name.unicode_len();
    let k = GIT_SUFFIX.unicode_len();
    if len > k && same_text(name.substring_char(len - k, len), GIT_SUFFIX) {
        assert(name@.subrange(len - k, len as int) =~= name@.skip(len - k));
        assert(name@.subrange(0, len - k) =~= name@.take(len - k));
        String::from_str(name.substring_char(0, len - k))
    } else {
        assert(len > k ==> name@.subrange(len - k, len as int) =~= name@.skip(len - k));
        String::from_str(name)
    }
}

/// The repository that `url` names from position `i` on, if the pattern
/// matches there.
fn remote_repo_at(url: &str, i: usize) -> (r: Option<RepoInfo>)
    requires
        i < url@.len(),
    ensures
        match r {
            Some(repo) => remote_match_at(url@, i as int) == Some(repo@),
            None => remote_match_at(url@, i as int) is None,
        },
{
    let len = url.unicode_len();
    let h = HOST.unicode_len();
    if len - i <= h {
        return None;
    }
    if !same_text(url.substring_char(i, i + h), HOST) {
        return None;
    }
    let sep = url.get_char(i + h);
    if sep != ':' && sep != '/' {
        return None;
    }
    let tail = url.substring_char(i + h + 1, len);
    assert(tail@ =~= url@.skip(i + h + 1));
    let segs = split_slashes(tail);
    if segs.len() == 2 && !segs[0].as_str().is_empty() && !segs[1].as_str().is_empty() {
        let name = strip_git_suffix(segs[1].as_str());
        Some(RepoInfo { owner: segs[0].clone(), name })
    } else {
        None
    }
}

/// Reads the repository that a remote URL names, from the first place where
/// the host, `:` or `/`, and `{owner}/{repo}` up to the end appear.
pub fn repo_from_remote(url: &str) -> (r: Result<RepoInfo, ResolutionError>)
    ensures
        repo_outcome(r) == remote_repo_outcome(url@),
{
    let len = url.unicode_len();
    let mut i: usize = 0;
    while i < len
        invariant
            i <= len,
            len == url@.len(),
            remote_match_from(url@, 0) == remote_match_from(url@, i as int),
        decreases len - i,
    {
        match remote_repo_at(url, i) {
            Some(repo) => {
                return Ok(repo);
            },
            None => {},
        }
        i = i + 1;
    }
    Err(ResolutionError::new(ErrorKind::UnsupportedRemoteHost, url))
}

/// Resolves pull request `number` against what the working directory's
/// remote gave: its URL, or a message saying why none could be read.
pub fn resolve_with_remote(number: u32, remote: Result<String, String>) -> (r: Result<
    Reference,
    ResolutionError,
>)
    ensures
        outcome(r) == remote_outcome(number, remote_view(remote)),
{
    match remote {
        Err(msg) => Err(ResolutionError { kind: ErrorKind::NoRepositoryContext, detail: msg }),
        Ok(url) => match repo_from_remote(url.as_str()) {
            Ok(repo) => Ok(Reference { owner: repo.owner, repository: repo.name, number }),
            Err(e) => Err(e),
        },
    }
}

/// Resolves `token` to a pull-request reference. A URL, or a token with a
/// `/`, decides alone; a bare number takes its repository from `repo_hint`,
/// or, without one, from `ambient_remote`, which is called only then and
/// gives the working directory's remote URL or why there is none.
pub fn resolve<F: FnOnce() -> Result<String, String>>(
    token: &str,
    repo_hint: Option<&str>,
    ambient_remote: F,
) -> (r: Result<Reference, ResolutionError>)
    requires
        ambient_remote.requires(()),
    ensures
        match dispatch(token@, hint_view(repo_hint)) {
            Step::Done(x) => outcome(r) == x,
            Step::NeedsRemote(n) => exists|remote: Result<String, String>|
                ambient_remote.ensures((), remote) && outcome(r) == remote_outcome(
                    n,
                    remote_view(remote),
                ),
        },
        r matches Ok(x) ==> x@.wf(),
{
    let r = resolve_shapes(token, repo_hint, ambient_remote);
    proof {
        let hint = hint_view(repo_hint);
        match dispatch(token@, hint) {
            Step::Done(_) => {
                lemma_resolved_reference_well_formed(token@, hint, Err(Seq::empty()));
            },
            Step::NeedsRemote(n) => {
                let remote = choose|remote: Result<String, String>|
                    ambient_remote.ensures((), remote) && outcome(r) == remote_outcome(
                        n,
                        remote_view(remote),
                    );
                lemma_resolved_reference_well_formed(token@, hint, remote_view(remote));
            },
        }
    }
    r
}

/// Tries the shapes of a token in order; see [`resolve`].
fn resolve_shapes<F: FnOnce() -> Result<String, String>>(
    token: &str,
    repo_hint: Option<&str>,
    ambient_remote: F,
) -> (r: Result<Reference, ResolutionError>)
    requires
        ambient_remote.requires(()),
    ensures
        match dispatch(token@, hint_view(repo_hint)) {
            Step::Done(x) => outcome(r) == x,
            Step::NeedsRemote(n) => exists|remote: Result<String, String>|
                ambient_remote.ensures((), remote) && outcome(r) == remote_outcome(
                    n,
                    remote_view(remote),
                ),
        },
{
    match parsed_url_path(token) {
        Some(path) => {
            return parse_pull_request_path(path.as_str());
        },
        None => {},
    }
    let len = token.unicode_len();
    let mut i: usize = 0;
    while i < len
        invariant
            i <= len,
            len == token@.len(),
            url_path_of(token@) is None,
            forall|j: int| 0 <= j < i ==> token@[j] != '/',
        decreases len - i,
    {
        if token.get_char(i) == '/' {
            assert(token@[i as int] == '/');
            return resolve_slash_path(token);
        }
        i = i + 1;
    }
    match parse_unsigned(token) {
        None => Err(ResolutionError::new(ErrorKind::UnrecognizedReferenceFormat, token)),
        Some(n) => if n == 0 {
            Err(ResolutionError::new(ErrorKind::InvalidNumber, token))
        } else {
            match repo_hint {
                Some(h) => match parse_repo_string(h) {
                    Ok(repo) => Ok(Reference { owner: repo.owner, repository: repo.name, number: n }),
                    Err(e) => Err(e),
                },
                None => {
                    let remote = ambient_remote();
                    resolve_with_remote(n, remote)
                },
            }
        },
    }
}

} // verus!
