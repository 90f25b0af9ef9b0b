use vstd::prelude::*;
use crate::outcome::{failure_line, line, Outcome, OutcomeView, Status};

verus! {

/// Why the router turned a request down, as plain values. A request may be
/// turned down for several reasons at once, one per route that it failed.
pub struct Rejection {
    /// No route matched and there is no more specific reason.
    pub not_found: bool,
    /// A header was missing or malformed; the header's name.
    pub invalid_header: Option<String>,
    /// The body came without a length.
    pub length_required: bool,
    /// The body is over the ceiling.
    pub payload_too_large: bool,
    /// A route matched the path under another method.
    pub method_not_allowed: bool,
}

pub struct RejectionView {
    pub not_found: bool,
    pub invalid_header: Option<Seq<char>>,
    pub length_required: bool,
    pub payload_too_large: bool,
    pub method_not_allowed: bool,
}

impl View for Rejection {
    type V = RejectionView;

    open spec fn view(&self) -> RejectionView {
        RejectionView {
            not_found: self.not_found,
            invalid_header: match self.invalid_header {
                Some(h) => Some(h@),
                None => None,
            },
            length_required: self.length_required,
            payload_too_large: self.payload_too_large,
            method_not_allowed: self.method_not_allowed,
        }
    }
}

/// The answer to a rejection. The reasons are tried in a fixed order and the
/// first that holds decides. A method mismatch is answered as not found, so
/// that which paths exist under another method stays unobservable.
pub open spec fn translate_spec(r: RejectionView) -> OutcomeView {
    if r.not_found {
        OutcomeView { status: Status::NotFound, message: line("not found"@) }
    } else if r.invalid_header is Some {
        OutcomeView {
            status: Status::BadRequest,
            message: failure_line("invalid header: "@, r.invalid_header->0),
        }
    } else if r.length_required {
        OutcomeView { status: Status::BadRequest, message: line("length is not set"@) }
    } else if r.payload_too_large {
        OutcomeView { status: Status::BadRequest, message: line("body is too big"@) }
    } else if r.method_not_allowed {
        OutcomeView { status: Status::NotFound, message: line("not found"@) }
    } else {
        OutcomeView { status: Status::InternalError, message: line("server error"@) }
    }
}

/// The answer to a request that the router turned down.
pub fn translate(r: &Rejection) -> (o: Outcome)
    ensures
        o@ == translate_spec(r@),
{
    if r.not_found {
        Outcome::not_found()
    } else if let Some(h) = &r.invalid_header {
        Outcome::failure(Status::BadRequest, "invalid header: ", h.as_str())
    } else if r.length_required {
        Outcome::new(Status::BadRequest, "length is not set")
    } else if r.payload_too_large {
        Outcome::new(Status::BadRequest, "body is too big")
    } else if r.method_not_allowed {
        Outcome::not_found()
    } else {
        Outcome::new(Status::InternalError, "server error")
    }
}

/// An oversized body is a bad request, whatever other route it failed.
pub proof fn lemma_oversized_body_is_bad_request(r: RejectionView)
    requires
        r.payload_too_large,
        !r.not_found,
    ensures
        translate_spec(r).status == Status::BadRequest,
{
}

/// A method mismatch never shows as such: it is answered as not found or,
/// where the body itself was at fault, as a bad request.
pub proof fn lemma_method_mismatch_hidden(r: RejectionView)
    requires
        r.method_not_allowed,
    ensures
        translate_spec(r).status == Status::NotFound || translate_spec(r).status
            == Status::BadRequest,
{
}

} // verus!
