//! The fetch orchestrator: guard, request, status check and decoding, in
//! that order.
//!
//! The network round trip itself is the caller's: [`plan`] says whether a
//! request may be made and to which URL, and [`conclude`] turns what came
//! back into the fetch's result.

use crate::decimal::{decimal, push_decimal};
use crate::decode::{decode, decode_parsed, DecodeError, Todo, TodoView};
use crate::guard::{approves, DomainGuard};
use crate::json::parsed_members;
use crate::stub::{HarnessView, StubHarness};
use crate::transport::{outcome_view, RawResponse, RawResponseView, TransportError};
use vstd::prelude::*;
use vstd::string::*;

verus! {

/// Why a fetch gave no [`Todo`].
#[derive(Debug, Clone, PartialEq, Eq)]
pub enum FetchError {
    /// The base URL is not the approved one. No request was made.
    UnapprovedDomain,
    /// The round trip failed before a response was there.
    Network(TransportError),
    /// The response's status code was outside 200 to 299.
    HttpStatus(u16),
    /// The response's body was no JSON, or not a to-do record.
    InvalidBody(DecodeError),
}

/// The mathematical value of a [`FetchError`].
pub ghost enum FetchErrorView {
    UnapprovedDomain,
    Network(Seq<char>),
    HttpStatus(u16),
    InvalidBody(DecodeError),
}

impl View for FetchError {
    type V = FetchErrorView;

    open spec fn view(&self) -> FetchErrorView {
        match self {
            FetchError::UnapprovedDomain => FetchErrorView::UnapprovedDomain,
            FetchError::Network(e) => FetchErrorView::Network(e@),
            FetchError::HttpStatus(code) => FetchErrorView::HttpStatus(*code),
            FetchError::InvalidBody(e) => FetchErrorView::InvalidBody(*e),
        }
    }
}

/// The URL of one request, which only an approved base URL can give.
#[derive(Debug, Clone, PartialEq, Eq)]
pub struct RequestTarget {
    url: String,
}

impl View for RequestTarget {
    type V = Seq<char>;

    /// The URL.
    closed spec fn view(&self) -> Seq<char> {
        self.url@
    }
}

impl RequestTarget {
    /// The URL to request.
    pub fn url(&self) -> (url: &str)
        ensures
            url@ == self@,
    {
        self.url.as_str()
    }
}

/// The URL of a resource: the base URL, then the identifier in decimal.
pub open spec fn target_url(base_url: Seq<char>, resource_id: u32) -> Seq<char> {
    base_url + decimal(resource_id as nat)
}

/// What planning a fetch gives: the request's URL where the guard admits the
/// base URL, and [`FetchError::UnapprovedDomain`] where it does not.
pub open spec fn plan_spec(approved: Seq<char>, base_url: Seq<char>, resource_id: u32) -> Result<
    Seq<char>,
    FetchErrorView,
> {
    if approves(approved, base_url) {
        Ok(target_url(base_url, resource_id))
    } else {
        Err(FetchErrorView::UnapprovedDomain)
    }
}

/// Whether a status code reports success: 200 to 299.
pub open spec fn is_success_spec(status: u16) -> bool {
    200 <= status < 300
}

/// What a fetch makes of a round trip's outcome.
///
/// A transport failure is passed on with its cause. A status code outside
/// 200 to 299 is reported without a look at the body. Only then is the body
/// decoded.
pub open spec fn conclude_spec(outcome: Result<RawResponseView, Seq<char>>) -> Result<
    TodoView,
    FetchErrorView,
> {
    match outcome {
        Err(cause) => Err(FetchErrorView::Network(cause)),
        Ok(response) => if !is_success_spec(response.status) {
            Err(FetchErrorView::HttpStatus(response.status))
        } else {
            match decode_parsed(parsed_members(response.body)) {
                Ok(todo) => Ok(todo),
                Err(e) => Err(FetchErrorView::InvalidBody(e)),
            }
        },
    }
}

/// The value of a planning step's result.
pub open spec fn planned_view(result: Result<RequestTarget, FetchError>) -> Result<
    Seq<char>,
    FetchErrorView,
> {
    match result {
        Ok(target) => Ok(target@),
        Err(e) => Err(e@),
    }
}

/// The value of a fetch's result.
pub open spec fn fetched_view(result: Result<Todo, FetchError>) -> Result<TodoView, FetchErrorView> {
    match result {
        Ok(todo) => Ok(todo@),
        Err(e) => Err(e@),
    }
}

/// Whether a status code reports success.
pub fn is_success(status: u16) -> (ok: bool)
    ensures
        ok == is_success_spec(status),
{
    200 <= status && status < 300
}

/// The first half of a fetch: asks the guard, then builds the request's URL.
///
/// Where the guard does not admit `base_url` the result is
/// [`FetchError::UnapprovedDomain`], and the caller has no URL to request.
/// What the guard is asked about is `base_url` as given, not the URL built
/// from it.
pub fn plan(guard: &DomainGuard, base_url: &str, resource_id: u32) -> (result: Result<
    RequestTarget,
    FetchError,
>)
    ensures
        planned_view(result) == plan_spec(guard@, base_url@, resource_id),
{
    if !guard.approve(base_url) {
        return Err(FetchError::UnapprovedDomain);
    }
    let mut url = String::from_str(base_url);
    push_decimal(&mut url, resource_id);
    Ok(RequestTarget { url })
}

/// The second half of a fetch: makes the result of what the round trip to a
/// planned URL gave.
pub fn conclude(outcome: Result<RawResponse, TransportError>) -> (result: Result<Todo, FetchError>)
    ensures
        fetched_view(result) == conclude_spec(outcome_view(outcome)),
{
    let response = match outcome {
        Ok(response) => response,
        Err(e) => return Err(FetchError::Network(e)),
    };
    if !is_success(response.status) {
        return Err(FetchError::HttpStatus(response.status));
    }
    match decode(response.body.as_slice()) {
        Ok(todo) => Ok(todo),
        Err(e) => Err(FetchError::InvalidBody(e)),
    }
}

/// The result of a whole fetch in which `harness` stands for the network.
pub open spec fn run_result(
    approved: Seq<char>,
    harness: HarnessView,
    base_url: Seq<char>,
    resource_id: u32,
) -> Result<TodoView, FetchErrorView> {
    match plan_spec(approved, base_url, resource_id) {
        Ok(url) => conclude_spec(harness.get_outcome(url)),
        Err(e) => Err(e),
    }
}

/// The harness after a whole fetch in which it stands for the network.
pub open spec fn run_harness(
    approved: Seq<char>,
    harness: HarnessView,
    base_url: Seq<char>,
    resource_id: u32,
) -> HarnessView {
    match plan_spec(approved, base_url, resource_id) {
        Ok(url) => harness.after_get(url),
        Err(_) => harness,
    }
}

/// A whole fetch with a stub harness in place of the network: plans the
/// request, makes it to the harness where the guard allowed it, and
/// concludes from what the harness gave.
pub fn run_against_stub(
    guard: &DomainGuard,
    harness: &mut StubHarness,
    base_url: &str,
    resource_id: u32,
) -> (result: Result<Todo, FetchError>)
    ensures
        fetched_view(result) == run_result(guard@, old(harness)@, base_url@, resource_id),
        final(harness)@ == run_harness(guard@, old(harness)@, base_url@, resource_id),
{
    match plan(guard, base_url, resource_id) {
        Ok(target) => {
            let outcome = harness.get(target.url());
            conclude(outcome)
        },
        Err(e) => Err(e),
    }
}

/// The domain gate, end to end: a fetch on a base URL other than the
/// approved one gives [`FetchError::UnapprovedDomain`], and the harness
/// is as it was before: it has received no request.
pub proof fn refused_fetch_reaches_no_harness(
    approved: Seq<char>,
    harness: HarnessView,
    base_url: Seq<char>,
    resource_id: u32,
)
    requires
        base_url != approved,
    ensures
        run_result(approved, harness, base_url, resource_id) == Err::<TodoView, FetchErrorView>(
            FetchErrorView::UnapprovedDomain,
        ),
        run_harness(approved, harness, base_url, resource_id) == harness,
{
}

/// The domain gate: a base URL other than the approved one gives
/// [`FetchError::UnapprovedDomain`] whatever the resource, and the approved
/// one always gives a URL.
pub proof fn unapproved_base_is_refused(approved: Seq<char>, base_url: Seq<char>, resource_id: u32)
    ensures
        base_url != approved ==> plan_spec(approved, base_url, resource_id) == Err::<
            Seq<char>,
            FetchErrorView,
        >(FetchErrorView::UnapprovedDomain),
        base_url == approved ==> plan_spec(approved, base_url, resource_id) == Ok::<
            Seq<char>,
            FetchErrorView,
        >(approved + decimal(resource_id as nat)),
{
}

/// A status code outside 200 to 299 decides the result alone: two responses
/// with that status give the same error, whatever their bodies hold.
pub proof fn failure_status_ignores_body(a: RawResponseView, b: RawResponseView)
    requires
        a.status == b.status,
        !is_success_spec(a.status),
    ensures
        conclude_spec(Ok(a)) == conclude_spec(Ok(b)),
        conclude_spec(Ok(a)) == Err::<TodoView, FetchErrorView>(
            FetchErrorView::HttpStatus(a.status),
        ),
{
}

} // verus!
