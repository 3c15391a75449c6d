//! What one HTTP round trip hands back: a response, or the reason why none
//! came.

use vstd::prelude::*;

verus! {

/// A response as it came off the wire, before anything is made of it.
#[derive(Debug, Clone, PartialEq, Eq)]
pub struct RawResponse {
    /// The HTTP status code.
    pub status: u16,
    /// The value of the `content-type` header, if the response had one.
    pub content_type: Option<String>,
    /// The body.
    pub body: Vec<u8>,
}

/// The mathematical value of a [`RawResponse`].
pub ghost struct RawResponseView {
    pub status: u16,
    pub content_type: Option<Seq<char>>,
    pub body: Seq<u8>,
}

impl View for RawResponse {
    type V = RawResponseView;

    open spec fn view(&self) -> RawResponseView {
        RawResponseView {
            status: self.status,
            content_type: match self.content_type {
                Some(s) => Some(s@),
                None => None,
            },
            body: self.body@,
        }
    }
}

/// A round trip that ended before a response with a status code was there:
/// name resolution, connecting, the TLS handshake or a timeout failed.
#[derive(Debug, Clone, PartialEq, Eq)]
pub struct TransportError {
    /// What went wrong, for diagnostics.
    pub cause: String,
}

impl View for TransportError {
    type V = Seq<char>;

    /// The cause.
    open spec fn view(&self) -> Seq<char> {
        self.cause@
    }
}

/// The value of a round trip's outcome.
pub open spec fn outcome_view(outcome: Result<RawResponse, TransportError>) -> Result<
    RawResponseView,
    Seq<char>,
> {
    match outcome {
        Ok(response) => Ok(response@),
        Err(e) => Err(e@),
    }
}

} // verus!
