use vstd::prelude::*;

verus! {

/// The HTTP status that ends a request.
#[derive(Clone, Copy, Debug, PartialEq, Eq, Structural)]
pub enum Status {
    Success,
    NoContent,
    BadRequest,
    NotFound,
    InternalError,
    NotImplemented,
}

impl Status {
    pub open spec fn spec_code(self) -> u16 {
        match self {
            Status::Success => 200,
            Status::NoContent => 204,
            Status::BadRequest => 400,
            Status::NotFound => 404,
            Status::InternalError => 500,
            Status::NotImplemented => 501,
        }
    }

    /// The numeric HTTP status code.
    pub fn code(&self) -> (r: u16)
        ensures
            r == self.spec_code(),
    {
        match self {
            Status::Success => 200,
            Status::NoContent => 204,
            Status::BadRequest => 400,
            Status::NotFound => 404,
            Status::InternalError => 500,
            Status::NotImplemented => 501,
        }
    }
}

/// A message line: the text followed by a newline.
pub open spec fn line(text: Seq<char>) -> Seq<char> {
    text.push('\n')
}

/// A failure line: a fixed prefix, the underlying error text, a newline.
pub open spec fn failure_line(prefix: Seq<char>, detail: Seq<char>) -> Seq<char> {
    line(prefix + detail)
}

/// The single result of a request: a status and a short message.
#[derive(Debug)]
pub struct Outcome {
    pub status: Status,
    pub message: String,
}

/// What an outcome is, as plain values.
pub struct OutcomeView {
    pub status: Status,
    pub message: Seq<char>,
}

impl View for Outcome {
    type V = OutcomeView;

    open spec fn view(&self) -> OutcomeView {
        OutcomeView { status: self.status, message: self.message@ }
    }
}

/// Builds a message from a text and a trailing newline.
pub fn make_line(text: &str) -> (r: String)
    ensures
        r@ == line(text@),
{
    let mut s = String::from_str(text);
    s.append("\n");
    proof {
        reveal_strlit("\n");
        assert(s@ =~= line(text@));
    }
    s
}

impl Outcome {
    /// An outcome whose message is `text` and a newline.
    pub fn new(status: Status, text: &str) -> (r: Outcome)
        ensures
            r.status == status,
            r.message@ == line(text@),
    {
        Outcome { status, message: make_line(text) }
    }

    /// An outcome that reports a failure: `prefix`, the error text, a newline.
    pub fn failure(status: Status, prefix: &str, detail: &str) -> (r: Outcome)
        ensures
            r.status == status,
            r.message@ == failure_line(prefix@, detail@),
    {
        let mut s = String::from_str(prefix);
        s.append(detail);
        s.append("\n");
        proof {
            reveal_strlit("\n");
            assert(s@ =~= failure_line(prefix@, detail@));
        }
        Outcome { status, message: s }
    }

    /// The acknowledgement of a finished request.
    pub fn ok() -> (r: Outcome)
        ensures
            r.status == Status::Success,
            r.message@ == line("ok"@),
    {
        Outcome::new(Status::Success, "ok")
    }

    /// The answer for a route or a file that does not exist.
    pub fn not_found() -> (r: Outcome)
        ensures
            r.status == Status::NotFound,
            r.message@ == line("not found"@),
    {
        Outcome::new(Status::NotFound, "not found")
    }

    /// The answer for a method that the gateway does not implement.
    pub fn not_implemented() -> (r: Outcome)
        ensures
            r.status == Status::NotImplemented,
            r.message@ == line("not implemented"@),
    {
        Outcome::new(Status::NotImplemented, "not implemented")
    }

    /// The numeric HTTP status code of this outcome.
    pub fn code(&self) -> (r: u16)
        ensures
            r == self.status.spec_code(),
    {
        self.status.code()
    }
}

} // verus!
