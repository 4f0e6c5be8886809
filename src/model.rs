//! The values that resolution produces: references, repositories and errors.
use vstd::prelude::*;

use crate::text::has_slash;

verus! {

/// A resolved pull request: who owns the repository, its name, and the
/// pull request's number in it.
#[derive(Debug, PartialEq, Eq)]
pub struct Reference {
    pub owner: String,
    pub repository: String,
    pub number: u32,
}

/// A repository named by its owner and its name.
#[derive(Debug, PartialEq, Eq)]
pub struct RepoInfo {
    pub owner: String,
    pub name: String,
}

/// The ways in which a reference can fail to resolve.
#[derive(Debug, Clone, Copy, PartialEq, Eq, Structural)]
pub enum ErrorKind {
    /// The token is a URL whose path is not `/{owner}/{repo}/pull/{number}`.
    InvalidPullRequestUrl,
    /// The token names a repository (`owner/repo`) but no pull request.
    MissingPrNumber,
    /// The number of the pull request is not a positive `u32`.
    InvalidNumber,
    /// The token has none of the recognised shapes.
    UnrecognizedReferenceFormat,
    /// The repository given beside a bare number is not `owner/repo`.
    InvalidRepoHint,
    /// No repository could be read from the working directory.
    NoRepositoryContext,
    /// The working directory's remote is not a repository on the known host.
    UnsupportedRemoteHost,
}

/// A resolution failure, with the text that caused it.
#[derive(Debug, PartialEq, Eq)]
pub struct ResolutionError {
    pub kind: ErrorKind,
    pub detail: String,
}

/// The abstract value of a [`Reference`].
pub struct ReferenceView {
    pub owner: Seq<char>,
    pub repository: Seq<char>,
    pub number: u32,
}

/// The abstract value of a [`RepoInfo`].
pub struct RepoView {
    pub owner: Seq<char>,
    pub name: Seq<char>,
}

/// The abstract value of a [`ResolutionError`].
pub struct ErrorView {
    pub kind: ErrorKind,
    pub detail: Seq<char>,
}

impl View for Reference {
    type V = ReferenceView;

    open spec fn view(&self) -> ReferenceView {
        ReferenceView { owner: self.owner@, repository: self.repository@, number: self.number }
    }
}

impl View for RepoInfo {
    type V = RepoView;

    open spec fn view(&self) -> RepoView {
        RepoView { owner: self.owner@, name: self.name@ }
    }
}

impl View for ResolutionError {
    type V = ErrorView;

    open spec fn view(&self) -> ErrorView {
        ErrorView { kind: self.kind, detail: self.detail@ }
    }
}

/// A name that can stand for an owner or a repository: not empty, no `/`.
pub open spec fn valid_name(s: Seq<char>) -> bool {
    s.len() > 0 && !has_slash(s)
}

impl ReferenceView {
    /// Owner and repository are valid names and the number is positive.
    pub open spec fn wf(self) -> bool {
        valid_name(self.owner) && valid_name(self.repository) && self.number > 0
    }
}

impl RepoView {
    pub open spec fn wf(self) -> bool {
        valid_name(self.owner) && valid_name(self.name)
    }
}

pub open spec fn error_view(kind: ErrorKind, detail: Seq<char>) -> ErrorView {
    ErrorView { kind, detail }
}

/// The abstract value of a resolution's result.
pub open spec fn outcome(r: Result<Reference, ResolutionError>) -> Result<ReferenceView, ErrorView> {
    match r {
        Ok(x) => Ok(x@),
        Err(e) => Err(e@),
    }
}

/// The abstract value of a repository lookup's result.
pub open spec fn repo_outcome(r: Result<RepoInfo, ResolutionError>) -> Result<RepoView, ErrorView> {
    match r {
        Ok(x) => Ok(x@),
        Err(e) => Err(e@),
    }
}

impl ResolutionError {
    pub fn new(kind: ErrorKind, detail: &str) -> (r: ResolutionError)
        ensures
            r@ == error_view(kind, detail@),
    {
        ResolutionError { kind, detail: String::from_str(detail) }
    }
}

} // verus!
