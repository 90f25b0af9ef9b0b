use vstd::prelude::*;
use crate::config::Config;
use crate::outcome::{failure_line, line, Outcome, OutcomeView, Status};
use crate::target::{
    has_parent_segment, join, joined, lemma_trailing_slash_keeps_parent_segments,
    lemma_trailing_slash_resolves_alike, names_parent, resolve, resolved,
};

verus! {

/// What the outside world reports back to an upload in progress.
pub enum UploadEvent {
    /// The target directory exists now (created, or there already).
    DirReady,
    /// The target directory could not be created; the error text.
    DirFailed(String),
    /// The body holds one more part, with this field name.
    Part(String),
    /// The next part could not be read from the connection; the error text.
    PartFailed(String),
    /// The next part's framing or headers are not valid multipart; the
    /// parser's error text.
    PartMalformed(String),
    /// The body holds no more parts.
    Finished,
    /// The whole payload of the current part.
    Data(Vec<u8>),
    /// The payload of the current part could not be read; the error text.
    DataFailed(String),
    /// The current part's file was written.
    Written,
    /// The current part's file could not be written; the error text.
    WriteFailed(String),
}

/// What an upload asks the outside world to do next.
pub enum UploadAction {
    /// Create this directory and all its missing ancestors.
    CreateDir(String),
    /// Read the next part of the body.
    NextPart,
    /// Read the whole payload of the current part.
    ReadData,
    /// Write these bytes to this file, replacing what it held.
    WriteFile(String, Vec<u8>),
    /// Answer the request; the upload is over.
    Respond(Outcome),
}

/// Where an upload stands.
pub enum Stage {
    CreatingDir,
    AwaitingPart,
    /// Reading the payload of a part bound for this file.
    Reading(String),
    Writing,
    Done,
}

pub enum EventView {
    DirReady,
    DirFailed(Seq<char>),
    Part(Seq<char>),
    PartFailed(Seq<char>),
    PartMalformed(Seq<char>),
    Finished,
    Data(Seq<u8>),
    DataFailed(Seq<char>),
    Written,
    WriteFailed(Seq<char>),
}

pub enum ActionView {
    CreateDir(Seq<char>),
    NextPart,
    ReadData,
    WriteFile(Seq<char>, Seq<u8>),
    Respond(OutcomeView),
}

pub enum StageView {
    CreatingDir,
    AwaitingPart,
    Reading(Seq<char>),
    Writing,
    Done,
}

pub struct UploadView {
    pub dir: Seq<char>,
    pub stage: StageView,
}

impl View for UploadEvent {
    type V = EventView;

    open spec fn view(&self) -> EventView {
        match self {
            UploadEvent::DirReady => EventView::DirReady,
            UploadEvent::DirFailed(t) => EventView::DirFailed(t@),
            UploadEvent::Part(n) => EventView::Part(n@),
            UploadEvent::PartFailed(t) => EventView::PartFailed(t@),
            UploadEvent::PartMalformed(t) => EventView::PartMalformed(t@),
            UploadEvent::Finished => EventView::Finished,
            UploadEvent::Data(d) => EventView::Data(d@),
            UploadEvent::DataFailed(t) => EventView::DataFailed(t@),
            UploadEvent::Written => EventView::Written,
            UploadEvent::WriteFailed(t) => EventView::WriteFailed(t@),
        }
    }
}

impl View for UploadAction {
    type V = ActionView;

    open spec fn view(&self) -> ActionView {
        match self {
            UploadAction::CreateDir(d) => ActionView::CreateDir(d@),
            UploadAction::NextPart => ActionView::NextPart,
            UploadAction::ReadData => ActionView::ReadData,
            UploadAction::WriteFile(f, d) => ActionView::WriteFile(f@, d@),
            UploadAction::Respond(o) => ActionView::Respond(o@),
        }
    }
}

impl View for Stage {
    type V = StageView;

    open spec fn view(&self) -> StageView {
        match self {
            Stage::CreatingDir => StageView::CreatingDir,
            Stage::AwaitingPart => StageView::AwaitingPart,
            Stage::Reading(f) => StageView::Reading(f@),
            Stage::Writing => StageView::Writing,
            Stage::Done => StageView::Done,
        }
    }
}

pub open spec fn respond(status: Status, message: Seq<char>) -> ActionView {
    ActionView::Respond(OutcomeView { status, message })
}

pub open spec fn internal(prefix: Seq<char>, detail: Seq<char>) -> ActionView {
    respond(Status::InternalError, failure_line(prefix, detail))
}

/// How an upload to request path `p` under `root` begins: a path that
/// names a parent directory is refused; any other has its directory created.
pub open spec fn start_spec(root: Seq<char>, p: Seq<char>) -> (UploadView, ActionView) {
    if has_parent_segment(p) {
        (
            UploadView { dir: resolved(root, p), stage: StageView::Done },
            respond(Status::BadRequest, line("invalid path"@)),
        )
    } else {
        (
            UploadView { dir: resolved(root, p), stage: StageView::CreatingDir },
            ActionView::CreateDir(resolved(root, p)),
        )
    }
}

/// An upload to a path and to the same path with one `/` appended begin
/// alike: same directory, same first action. A path that already ends with
/// `/` is left out, as only one trailing `/` is removed.
pub proof fn lemma_trailing_slash_same_upload(root: Seq<char>, p: Seq<char>)
    requires
        p.len() == 0 || p.last() != '/',
    ensures
        start_spec(root, p) == start_spec(root, p.push('/')),
{
    lemma_trailing_slash_resolves_alike(root, p);
    lemma_trailing_slash_keeps_parent_segments(p);
}

/// One step of an upload: parts are taken one at a time, in body order, each
/// read whole and then written to `dir/name`; the first failure ends it.
pub open spec fn step_spec(u: UploadView, e: EventView) -> (UploadView, ActionView) {
    let done = UploadView { stage: StageView::Done, ..u };
    match (u.stage, e) {
        (StageView::CreatingDir, EventView::DirReady) => (
            UploadView { stage: StageView::AwaitingPart, ..u },
            ActionView::NextPart,
        ),
        (StageView::CreatingDir, EventView::DirFailed(t)) => (
            done,
            internal("Failed to create a folder: "@, t),
        ),
        (StageView::AwaitingPart, EventView::Part(name)) => if has_parent_segment(name) {
            (done, respond(Status::BadRequest, line("invalid part name"@)))
        } else {
            (
                UploadView { stage: StageView::Reading(joined(u.dir, name)), ..u },
                ActionView::ReadData,
            )
        },
        (StageView::AwaitingPart, EventView::PartMalformed(t)) => (
            done,
            respond(Status::BadRequest, failure_line("Malformed part: "@, t)),
        ),
        (StageView::AwaitingPart, EventView::PartFailed(t)) => (
            done,
            internal("Failed to read a part: "@, t),
        ),
        (StageView::AwaitingPart, EventView::Finished) => (
            done,
            respond(Status::Success, line("ok"@)),
        ),
        (StageView::Reading(file), EventView::Data(d)) => (
            UploadView { stage: StageView::Writing, ..u },
            ActionView::WriteFile(file, d),
        ),
        (StageView::Reading(_), EventView::DataFailed(t)) => (
            done,
            internal("Failed to read data from a part: "@, t),
        ),
        (StageView::Writing, EventView::Written) => (
            UploadView { stage: StageView::AwaitingPart, ..u },
            ActionView::NextPart,
        ),
        (StageView::Writing, EventView::WriteFailed(t)) => (
            done,
            internal("Failed to write file: "@, t),
        ),
        _ => (done, respond(Status::InternalError, line("unexpected upload event"@))),
    }
}

/// One upload request, driven by the events that its actions bring about.
pub struct Upload {
    dir: String,
    stage: Stage,
}

impl View for Upload {
    type V = UploadView;

    closed spec fn view(&self) -> UploadView {
        UploadView { dir: self.dir@, stage: self.stage@ }
    }
}

impl Upload {
    /// Begins an upload to `request_path`; the action is the first thing to do.
    pub fn start(config: &Config, request_path: &str) -> (r: (Upload, UploadAction))
        ensures
            (r.0@, r.1@) == start_spec(config.spec_root(), request_path@),
    {
        let dir = resolve(config.root().as_str(), request_path);
        if names_parent(request_path) {
            let o = Outcome::new(Status::BadRequest, "invalid path");
            (Upload { dir, stage: Stage::Done }, UploadAction::Respond(o))
        } else {
            let d = dir.clone();
            (Upload { dir, stage: Stage::CreatingDir }, UploadAction::CreateDir(d))
        }
    }

    /// Whether the upload has answered and wants no more events.
    pub fn is_done(&self) -> (r: bool)
        ensures
            r == (self@.stage is Done),
    {
        match self.stage {
            Stage::Done => true,
            _ => false,
        }
    }

    /// Takes in what the last action brought about and says what to do next.
    pub fn step(&mut self, event: UploadEvent) -> (r: UploadAction)
        ensures
            (final(self)@, r@) == step_spec(old(self)@, event@),
    {
        let mut current = Stage::Done;
        core::mem::swap(&mut current, &mut self.stage);
        match (current, event) {
            (Stage::CreatingDir, UploadEvent::DirReady) => {
                self.stage = Stage::AwaitingPart;
                UploadAction::NextPart
            },
            (Stage::CreatingDir, UploadEvent::DirFailed(t)) => {
                UploadAction::Respond(
                    Outcome::failure(Status::InternalError, "Failed to create a folder: ", t.as_str()),
                )
            },
            (Stage::AwaitingPart, UploadEvent::Part(name)) => {
                if names_parent(name.as_str()) {
                    UploadAction::Respond(Outcome::new(Status::BadRequest, "invalid part name"))
                } else {
                    self.stage = Stage::Reading(join(self.dir.as_str(), name.as_str()));
                    UploadAction::ReadData
                }
            },
            (Stage::AwaitingPart, UploadEvent::PartMalformed(t)) => {
                UploadAction::Respond(
                    Outcome::failure(Status::BadRequest, "Malformed part: ", t.as_str()),
                )
            },
            (Stage::AwaitingPart, UploadEvent::PartFailed(t)) => {
                UploadAction::Respond(
                    Outcome::failure(Status::InternalError, "Failed to read a part: ", t.as_str()),
                )
            },
            (Stage::AwaitingPart, UploadEvent::Finished) => { UploadAction::Respond(Outcome::ok()) },
            (Stage::Reading(file), UploadEvent::Data(d)) => {
                self.stage = Stage::Writing;
                UploadAction::WriteFile(file, d)
            },
            (Stage::Reading(_), UploadEvent::DataFailed(t)) => {
                UploadAction::Respond(
                    Outcome::failure(
                        Status::InternalError,
                        "Failed to read data from a part: ",
                        t.as_str(),
                    ),
                )
            },
            (Stage::Writing, UploadEvent::Written) => {
                self.stage = Stage::AwaitingPart;
                UploadAction::NextPart
            },
            (Stage::Writing, UploadEvent::WriteFailed(t)) => {
                UploadAction::Respond(
                    Outcome::failure(Status::InternalError, "Failed to write file: ", t.as_str()),
                )
            },
            _ => {
                UploadAction::Respond(
                    Outcome::new(Status::InternalError, "unexpected upload event"),
                )
            },
        }
    }
}

/// Appends one chunk of a part's payload to what was read before it.
pub fn append_chunk(acc: &mut Vec<u8>, chunk: &[u8])
    ensures
        final(acc)@ == old(acc)@ + chunk@,
{
    acc.extend_from_slice(chunk);
    assert(acc@ =~= old(acc)@ + chunk@);
}

} // verus!
