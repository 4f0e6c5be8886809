//! Resolution of pull-request references and rendering of their review comments.
//!
//! A reference is given as a URL, as `owner/repo/pull/number`, or as a bare
//! number with a repository from a hint or from the working directory's
//! remote. [`resolve`] turns it into a [`Reference`] or a [`ResolutionError`];
//! [`render`] writes a pull request and its comments as markdown.
use vstd::prelude::*;

pub mod laws;
pub mod model;
pub mod number;
pub mod render;
pub mod resolver;
pub mod text;
pub mod web_url;

pub use model::{ErrorKind, Reference, RepoInfo, ResolutionError};
pub use render::{render, PullRequestSummary, ReviewComment};
pub use resolver::{
    parse_pull_request_path, parse_repo_string, repo_from_remote, resolve, resolve_with_remote,
};

verus! {

} // verus!
