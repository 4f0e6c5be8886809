//! Properties of resolution that hold for every input.
use vstd::prelude::*;

use crate::model::{error_view, valid_name, ErrorKind, ErrorView, ReferenceView};
use crate::number::{all_digits, digits_value, is_digit, unsigned_of};
use crate::resolver::{
    dispatch, remote_match_at, remote_match_from, resolution, strip_git, GIT_SUFFIX, HOST, PULL,
};
use crate::text::{
    digits_from, has_slash, lemma_segments_have_no_slash, lemma_segments_join,
    lemma_segments_of_name, segments,
};
use crate::web_url::url_path_of;

verus! {

proof fn lemma_prefix_keeps_no_slash(s: Seq<char>, k: int)
    requires
        !has_slash(s),
        0 <= k <= s.len(),
    ensures
        !has_slash(s.take(k)),
{
    if has_slash(s.take(k)) {
        let j = choose|j: int| 0 <= j < s.take(k).len() && s.take(k)[j] == '/';
        assert(s[j] == '/');
    }
}

proof fn lemma_remote_match_at_wf(url: Seq<char>, i: int)
    ensures
        remote_match_at(url, i) matches Some(repo) ==> repo.wf(),
{
    let segs = segments(url.skip(i + HOST@.len() + 1));
    lemma_segments_have_no_slash(url.skip(i + HOST@.len() + 1));
    if remote_match_at(url, i) is Some {
        assert(!has_slash(segs[0]) && !has_slash(segs[1]));
        let name = segs[1];
        if name.len() > GIT_SUFFIX@.len() && name.skip(name.len() - GIT_SUFFIX@.len()) == GIT_SUFFIX@ {
            lemma_prefix_keeps_no_slash(name, name.len() - GIT_SUFFIX@.len());
        }
        assert(strip_git(name).len() > 0);
    }
}

proof fn lemma_remote_match_from_wf(url: Seq<char>, i: int)
    ensures
        remote_match_from(url, i) matches Some(repo) ==> repo.wf(),
    decreases url.len() - i,
{
    if 0 <= i < url.len() {
        lemma_remote_match_at_wf(url, i);
        lemma_remote_match_from_wf(url, i + 1);
    }
}

/// Every reference that resolution produces has a non-empty owner and
/// repository without `/`, and a positive number.
pub proof fn lemma_resolved_reference_well_formed(
    token: Seq<char>,
    hint: Option<Seq<char>>,
    remote: Result<Seq<char>, Seq<char>>,
)
    ensures
        resolution(token, hint, remote) matches Ok(x) ==> x.wf(),
{
    lemma_segments_have_no_slash(token);
    if let Some(path) = url_path_of(token) {
        lemma_segments_have_no_slash(path.drop_first());
    }
    if let Some(h) = hint {
        lemma_segments_have_no_slash(h);
    }
    if let Ok(url) = remote {
        lemma_remote_match_from_wf(url, 0);
    }
}


proof fn lemma_leading_digits_of_digits(s: Seq<char>, k: int)
    requires
        all_digits(s),
        0 <= k <= s.len(),
    ensures
        digits_from(s, k) == s,
    decreases s.len() - k,
{
    if k < s.len() {
        assert(is_digit(s[k]));
        lemma_leading_digits_of_digits(s, k + 1);
    } else {
        assert(s.take(k) =~= s);
    }
}

/// A token that reads as a URL whose path is
/// `/{owner}/{repository}/pull/{digits}` resolves to that pull request,
/// whatever the hint and the working directory's remote.
pub proof fn lemma_pull_request_url(
    token: Seq<char>,
    owner: Seq<char>,
    repository: Seq<char>,
    digits: Seq<char>,
    hint: Option<Seq<char>>,
    remote: Result<Seq<char>, Seq<char>>,
)
    requires
        url_path_of(token) == Some(
            seq!['/'] + owner + seq!['/'] + repository + seq!['/'] + PULL@ + seq!['/'] + digits,
        ),
        valid_name(owner),
        valid_name(repository),
        digits.len() > 0,
        all_digits(digits),
        0 < digits_value(digits) <= u32::MAX,
    ensures
        resolution(token, hint, remote) == Ok::<ReferenceView, ErrorView>(
            ReferenceView { owner, repository, number: digits_value(digits) as u32 },
        ),
{
    reveal_strlit("pull");
    let path = url_path_of(token)->0;
    let rest = owner + seq!['/'] + repository + seq!['/'] + PULL@ + seq!['/'] + digits;
    assert(path.drop_first() =~= rest);
    assert(!has_slash(PULL@)) by {
        assert(PULL@ =~= seq!['p', 'u', 'l', 'l']);
    }
    assert(!has_slash(digits)) by {
        if has_slash(digits) {
            let j = choose|j: int| 0 <= j < digits.len() && digits[j] == '/';
            assert(is_digit(digits[j]));
        }
    }
    lemma_segments_of_name(owner);
    lemma_segments_of_name(repository);
    lemma_segments_of_name(PULL@);
    lemma_segments_of_name(digits);
    lemma_segments_join(PULL@, digits);
    lemma_segments_join(repository, PULL@ + seq!['/'] + digits);
    assert(repository + seq!['/'] + (PULL@ + seq!['/'] + digits) =~= repository + seq!['/']
        + PULL@ + seq!['/'] + digits);
    lemma_segments_join(owner, repository + seq!['/'] + PULL@ + seq!['/'] + digits);
    assert(owner + seq!['/'] + (repository + seq!['/'] + PULL@ + seq!['/'] + digits) =~= rest);
    let segs = segments(rest);
    assert(segs =~= seq![owner, repository, PULL@, digits]);
    lemma_leading_digits_of_digits(digits, 0);
    assert(is_digit(digits[0]));
    assert(unsigned_of(digits) == Some(digits_value(digits) as u32));
}

/// A token that is not a URL and holds exactly one `/` names a repository
/// but no pull request: it fails with `MissingPrNumber`, whatever the hint
/// and the working directory's remote.
pub proof fn lemma_owner_repo_lacks_number(
    token: Seq<char>,
    hint: Option<Seq<char>>,
    remote: Result<Seq<char>, Seq<char>>,
)
    requires
        url_path_of(token) is None,
        segments(token).len() == 2,
    ensures
        resolution(token, hint, remote) == Err::<ReferenceView, ErrorView>(
            error_view(ErrorKind::MissingPrNumber, token),
        ),
{
    if !has_slash(token) {
        lemma_segments_of_name(token);
    }
}

/// Resolution is a function of its inputs: the same token and hint, with the
/// same answer from the working directory's remote wherever it is consulted,
/// give the same result; and the remote is consulted only for a bare number
/// without a hint.
pub proof fn lemma_resolution_repeatable(
    token: Seq<char>,
    hint: Option<Seq<char>>,
    remote1: Result<Seq<char>, Seq<char>>,
    remote2: Result<Seq<char>, Seq<char>>,
)
    requires
        dispatch(token, hint) is NeedsRemote ==> remote1 == remote2,
    ensures
        resolution(token, hint, remote1) == resolution(token, hint, remote2),
        dispatch(token, hint) is NeedsRemote ==> url_path_of(token) is None && !has_slash(token)
            && hint is None,
{
}

} // verus!
