//! The path of an absolute URL, as the `url` crate reads it.
use vstd::prelude::*;

verus! {

/// The path of `s` read as an absolute URL, or `None` where `s` is not one.
pub uninterp spec fn url_path_of(s: Seq<char>) -> Option<Seq<char>>;

/// Relies on `url::Url::parse`, which accepts only absolute URLs, and on
/// `url::Url::path` of the parsed value: both depend on the text alone.
#[verifier::external_body]
pub(crate) fn parsed_url_path(s: &str) -> (r: Option<String>)
    ensures
        match r {
            Some(p) => url_path_of(s@) == Some(p@),
            None => url_path_of(s@) is None,
        },
{
    match url::Url::parse(s) {
        Ok(u) => Some(u.path().to_string()),
        Err(_) => None,
    }
}

} // verus!
