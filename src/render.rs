//! Rendering a pull request and its review comments as markdown.
use vstd::prelude::*;

use crate::model::{Reference, ReferenceView};
use crate::number::{append_decimal, decimal_text};

verus! {

/// What the hosting service says of a pull request.
#[derive(Debug, PartialEq, Eq)]
pub struct PullRequestSummary {
    pub title: String,
    pub url: String,
}

/// One review comment on a pull request.
#[derive(Debug, PartialEq, Eq)]
pub struct ReviewComment {
    pub author: String,
    pub body: String,
    pub created_at: String,
    pub url: String,
    pub diff_hunk: String,
    pub file_path: String,
    pub line: Option<u32>,
}

pub struct SummaryView {
    pub title: Seq<char>,
    pub url: Seq<char>,
}

pub struct CommentView {
    pub author: Seq<char>,
    pub body: Seq<char>,
    pub created_at: Seq<char>,
    pub url: Seq<char>,
    pub diff_hunk: Seq<char>,
    pub file_path: Seq<char>,
    pub line: Option<u32>,
}

impl View for PullRequestSummary {
    type V = SummaryView;

    open spec fn view(&self) -> SummaryView {
        SummaryView { title: self.title@, url: self.url@ }
    }
}

impl View for ReviewComment {
    type V = CommentView;

    open spec fn view(&self) -> CommentView {
        CommentView {
            author: self.author@,
            body: self.body@,
            created_at: self.created_at@,
            url: self.url@,
            diff_hunk: self.diff_hunk@,
            file_path: self.file_path@,
            line: self.line,
        }
    }
}

/// The heading, the title and the link of the pull request, and the heading
/// of the comments.
pub open spec fn header_text(r: ReferenceView, s: SummaryView) -> Seq<char> {
    "# PR #"@ + decimal_text(r.number as nat) + " - "@ + r.owner + "\n**Title:** "@ + s.title
        + "\n**URL:** "@ + s.url + "\n\n## Comments\n\n"@
}

/// The line of a comment, where it has one.
pub open spec fn line_text(line: Option<u32>) -> Seq<char> {
    match line {
        Some(n) => "**Line:** "@ + decimal_text(n as nat) + "\n"@,
        None => Seq::empty(),
    }
}

/// One comment: author, file, line, time, link, then the diff hunk and the
/// body verbatim.
pub open spec fn comment_text(c: CommentView) -> Seq<char> {
    "### Comment by @"@ + c.author + "\n**File:** `"@ + c.file_path + "`\n"@ + line_text(c.line)
        + "**Created:** "@ + c.created_at + "\n**URL:** "@ + c.url
        + "\n\n#### Diff Context\n```diff\n"@ + c.diff_hunk + "\n```\n\n#### Comment\n"@ + c.body
        + "\n\n---\n\n"@
}

/// The comments, one after another in the order given.
pub open spec fn comments_text(cs: Seq<CommentView>) -> Seq<char>
    decreases cs.len(),
{
    if cs.len() == 0 {
        Seq::empty()
    } else {
        comments_text(cs.drop_last()) + comment_text(cs.last())
    }
}

/// The whole markdown document.
pub open spec fn document(r: ReferenceView, s: SummaryView, cs: Seq<CommentView>) -> Seq<char> {
    header_text(r, s) + comments_text(cs)
}

pub open spec fn comment_views(cs: Seq<ReviewComment>) -> Seq<CommentView> {
    cs.map_values(|c: ReviewComment| c@)
}

fn append_comment(out: &mut String, c: &ReviewComment)
    ensures
        final(out)@ == old(out)@ + comment_text(c@),
{
    let ghost start = out@;
    out.append("### Comment by @");
    out.append(c.author.as_str());
    out.append("\n**File:** `");
    out.append(c.file_path.as_str());
    out.append("`\n");
    let ghost before_line = out@;
    match c.line {
        Some(n) => {
            out.append("**Line:** ");
            append_decimal(out, n);
            out.append("\n");
        },
        None => {},
    }
    assert(out@ =~= before_line + line_text(c.line));
    out.append("**Created:** ");
    out.append(c.created_at.as_str());
    out.append("\n**URL:** ");
    out.append(c.url.as_str());
    out.append("\n\n#### Diff Context\n```diff\n");
    out.append(c.diff_hunk.as_str());
    out.append("\n```\n\n#### Comment\n");
    out.append(c.body.as_str());
    out.append("\n\n---\n\n");
    assert(out@ =~= start + comment_text(c@));
}

/// Renders the pull request `reference`, its summary and its comments, in the
/// order given, as markdown.
pub fn render(reference: &Reference, summary: &PullRequestSummary, comments: &Vec<ReviewComment>) -> (r:
    String)
    ensures
        r@ == document(reference@, summary@, comment_views(comments@)),
{
    let mut out = String::new();
    out.append("# PR #");
    append_decimal(&mut out, reference.number);
    out.append(" - ");
    out.append(reference.owner.as_str());
    out.append("\n**Title:** ");
    out.append(summary.title.as_str());
    out.append("\n**URL:** ");
    out.append(summary.url.as_str());
    out.append("\n\n## Comments\n\n");
    let ghost header = out@;
    assert(header =~= header_text(reference@, summary@));
    let mut i: usize = 0;
    while i < comments.len()
        invariant
            i <= comments@.len(),
            header == header_text(reference@, summary@),
            out@ == header + comments_text(comment_views(comments@).take(i as int)),
        decreases comments@.len() - i,
    {
        append_comment(&mut out, &comments[i]);
        let ghost cs = comment_views(comments@);
        assert(cs.take(i + 1).drop_last() =~= cs.take(i as int));
        assert(out@ =~= header + comments_text(cs.take(i + 1)));
        i = i + 1;
    }
    assert(comment_views(comments@).take(i as int) =~= comment_views(comments@));
    out
}

} // verus!
