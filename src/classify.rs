//! Routing of inbound event envelopes by their `server` and `type` fields.
use crate::text::{
    has_prefix, lemma_trailing_separator_ignored, normalize_origin, same_text, trimmed_origin,
};
use vstd::prelude::*;
use vstd::string::*;

verus! {

/// The pipeline an accepted envelope goes to.
#[derive(Clone, Copy, Debug, PartialEq, Eq, Structural)]
pub enum Route {
    Note,
    AbuseReport,
}

/// An accepted envelope: its pipeline and its normalized origin server.
#[derive(Debug)]
pub struct Dispatch {
    pub route: Route,
    pub origin: String,
}

/// Why a request is refused before any delivery is attempted.
#[derive(Debug)]
pub enum Rejection {
    MissingOrigin,
    MissingType,
    UnsupportedType(String),
    UnknownType(String),
    PayloadNotFound,
    PayloadParseError,
}

/// The mathematical form of a `Rejection`.
pub enum RejectionView {
    MissingOrigin,
    MissingType,
    UnsupportedType(Seq<char>),
    UnknownType(Seq<char>),
    PayloadNotFound,
    PayloadParseError,
}

impl View for Rejection {
    type V = RejectionView;

    open spec fn view(&self) -> RejectionView {
        match self {
            Rejection::MissingOrigin => RejectionView::MissingOrigin,
            Rejection::MissingType => RejectionView::MissingType,
            Rejection::UnsupportedType(t) => RejectionView::UnsupportedType(t@),
            Rejection::UnknownType(t) => RejectionView::UnknownType(t@),
            Rejection::PayloadNotFound => RejectionView::PayloadNotFound,
            Rejection::PayloadParseError => RejectionView::PayloadParseError,
        }
    }
}

/// The text of a rejection, as sent back to the caller.
pub open spec fn rejection_text(r: RejectionView) -> Seq<char> {
    match r {
        RejectionView::MissingOrigin =>
            "No 'server' payload found. this proxy requires misskey 2023.9.0-beta.2 or later."@,
        RejectionView::MissingType => "type field not found"@,
        RejectionView::UnsupportedType(t) => "Unsupported event type: "@ + t,
        RejectionView::UnknownType(t) => "Unknown event type: "@ + t,
        RejectionView::PayloadNotFound => "webhokk payload not found"@,
        RejectionView::PayloadParseError => "webhokk payload parse error"@,
    }
}

/// The HTTP status for every rejection: the request was bad.
pub const BAD_REQUEST: u16 = 400;

impl Rejection {
    /// The human-readable reason sent back with a rejection.
    pub fn message(&self) -> (r: String)
        ensures
            r@ == rejection_text(self@),
    {
        match self {
            Rejection::MissingOrigin => String::from_str(
                "No 'server' payload found. this proxy requires misskey 2023.9.0-beta.2 or later.",
            ),
            Rejection::MissingType => String::from_str("type field not found"),
            Rejection::UnsupportedType(t) => String::from_str("Unsupported event type: ").concat(
                t.as_str(),
            ),
            Rejection::UnknownType(t) => String::from_str("Unknown event type: ").concat(
                t.as_str(),
            ),
            Rejection::PayloadNotFound => String::from_str("webhokk payload not found"),
            Rejection::PayloadParseError => String::from_str("webhokk payload parse error"),
        }
    }

    /// The status code a rejection is answered with.
    pub fn status(&self) -> (r: u16)
        ensures
            r == BAD_REQUEST,
    {
        BAD_REQUEST
    }
}

/// Event types that are known but not relayed.
pub open spec fn is_unsupported_type(t: Seq<char>) -> bool {
    t == "follow"@ || t == "followed"@ || t == "unfollow"@
}

/// Event types relayed as notes, including `note@...`, which marks a note of
/// a watched remote user.
pub open spec fn is_note_type(t: Seq<char>) -> bool {
    t == "note"@ || t == "reply"@ || t == "mention"@ || t == "renote"@ || "note@"@.is_prefix_of(t)
}

/// The event type of abuse reports.
pub open spec fn is_abuse_report_type(t: Seq<char>) -> bool {
    t == "abuseReport"@
}

/// The outcome of classification on the envelope's `server` and `type`
/// fields (`None` where the field is absent or not a string).
pub open spec fn classification(server: Option<Seq<char>>, kind: Option<Seq<char>>) -> Result<
    (Route, Seq<char>),
    RejectionView,
> {
    match server {
        None => Err(RejectionView::MissingOrigin),
        Some(s) => match kind {
            None => Err(RejectionView::MissingType),
            Some(t) => if is_unsupported_type(t) {
                Err(RejectionView::UnsupportedType(t))
            } else if is_note_type(t) {
                Ok((Route::Note, trimmed_origin(s)))
            } else if is_abuse_report_type(t) {
                Ok((Route::AbuseReport, trimmed_origin(s)))
            } else {
                Err(RejectionView::UnknownType(t))
            },
        },
    }
}

/// The view of an optional text.
pub open spec fn opt_view(o: Option<&str>) -> Option<Seq<char>> {
    match o {
        Some(s) => Some(s@),
        None => None,
    }
}

/// The view of a classification result.
pub open spec fn dispatch_view(r: Result<Dispatch, Rejection>) -> Result<
    (Route, Seq<char>),
    RejectionView,
> {
    match r {
        Ok(d) => Ok((d.route, d.origin@)),
        Err(e) => Err(e@),
    }
}

/// Decides which pipeline an envelope goes to, from its `server` and `type`
/// fields, checked in that order.
pub fn classify(server: Option<&str>, kind: Option<&str>) -> (r: Result<Dispatch, Rejection>)
    ensures
        dispatch_view(r) == classification(opt_view(server), opt_view(kind)),
{
    let server = match server {
        Some(s) => s,
        None => return Err(Rejection::MissingOrigin),
    };
    let kind = match kind {
        Some(t) => t,
        None => return Err(Rejection::MissingType),
    };
    if same_text(kind, "follow") || same_text(kind, "followed") || same_text(kind, "unfollow") {
        return Err(Rejection::UnsupportedType(String::from_str(kind)));
    }
    if same_text(kind, "note") || same_text(kind, "reply") || same_text(kind, "mention")
        || same_text(kind, "renote") || has_prefix(kind, "note@") {
        return Ok(Dispatch { route: Route::Note, origin: normalize_origin(server) });
    }
    if same_text(kind, "abuseReport") {
        return Ok(Dispatch { route: Route::AbuseReport, origin: normalize_origin(server) });
    }
    Err(Rejection::UnknownType(String::from_str(kind)))
}

/// An origin written with a trailing separator is classified exactly as the
/// same origin written without one, so it yields the same cache keys and the
/// same links.
pub proof fn lemma_origin_separator_ignored(server: Seq<char>, kind: Option<Seq<char>>)
    ensures
        classification(Some(server.push('/')), kind) == classification(Some(server), kind),
{
    lemma_trailing_separator_ignored(server);
}

} // verus!
