use vstd::prelude::*;
use crate::config::Config;
use crate::outcome::{failure_line, line, Outcome, OutcomeView, Status};
use crate::target::{
    has_parent_segment, lemma_trailing_slash_keeps_parent_segments,
    lemma_trailing_slash_resolves_alike, names_parent, resolve, resolved,
};

verus! {

/// What became of an attempt to delete a file.
pub enum RemoveResult {
    Removed,
    /// There was no such file.
    Absent,
    /// Any other filesystem error; its text.
    Failed(String),
}

pub enum RemoveView {
    Removed,
    Absent,
    Failed(Seq<char>),
}

impl View for RemoveResult {
    type V = RemoveView;

    open spec fn view(&self) -> RemoveView {
        match self {
            RemoveResult::Removed => RemoveView::Removed,
            RemoveResult::Absent => RemoveView::Absent,
            RemoveResult::Failed(t) => RemoveView::Failed(t@),
        }
    }
}

/// The file that a delete of request path `p` targets, or the refusal of a
/// path that names a parent directory.
pub open spec fn removal_target_spec(root: Seq<char>, p: Seq<char>) -> Result<Seq<char>, OutcomeView> {
    if has_parent_segment(p) {
        Err(OutcomeView { status: Status::BadRequest, message: line("invalid path"@) })
    } else {
        Ok(resolved(root, p))
    }
}

/// A delete of a path and of the same path with one `/` appended target the
/// same file, or are refused alike. A path that already ends with `/` is
/// left out, as only one trailing `/` is removed.
pub proof fn lemma_trailing_slash_same_removal(root: Seq<char>, p: Seq<char>)
    requires
        p.len() == 0 || p.last() != '/',
    ensures
        removal_target_spec(root, p) == removal_target_spec(root, p.push('/')),
{
    lemma_trailing_slash_resolves_alike(root, p);
    lemma_trailing_slash_keeps_parent_segments(p);
}

/// How a delete is answered: a removed file is acknowledged with no content,
/// an absent one is not found, any other error is internal and quoted.
pub open spec fn removal_outcome_spec(r: RemoveView) -> OutcomeView {
    match r {
        RemoveView::Removed => OutcomeView { status: Status::NoContent, message: line("ok"@) },
        RemoveView::Absent => OutcomeView { status: Status::NotFound, message: line("not found"@) },
        RemoveView::Failed(t) => OutcomeView {
            status: Status::InternalError,
            message: failure_line("Failed to remove file: "@, t),
        },
    }
}

/// The file to delete for `request_path`, or the answer that refuses it.
pub fn removal_target(config: &Config, request_path: &str) -> (r: Result<String, Outcome>)
    ensures
        r matches Ok(f) ==> removal_target_spec(config.spec_root(), request_path@) == Ok::<
            Seq<char>,
            OutcomeView,
        >(f@),
        r matches Err(o) ==> removal_target_spec(config.spec_root(), request_path@) == Err::<
            Seq<char>,
            OutcomeView,
        >(o@),
{
    if names_parent(request_path) {
        Err(Outcome::new(Status::BadRequest, "invalid path"))
    } else {
        Ok(resolve(config.root().as_str(), request_path))
    }
}

/// The answer to a delete, from what the filesystem reported.
pub fn removal_outcome(result: RemoveResult) -> (r: Outcome)
    ensures
        r@ == removal_outcome_spec(result@),
{
    match result {
        RemoveResult::Removed => Outcome::new(Status::NoContent, "ok"),
        RemoveResult::Absent => Outcome::not_found(),
        RemoveResult::Failed(t) => Outcome::failure(
            Status::InternalError,
            "Failed to remove file: ",
            t.as_str(),
        ),
    }
}

} // verus!
