//! The domain guard: an exact-match test of a base URL against the single
//! approved one.

use vstd::prelude::*;
use vstd::string::*;

verus! {

/// The base URL under which production requests are made.
pub const APPROVED_BASE: &'static str = "https://jsonplaceholder.typicode.com/todos/";

/// Whether a guard configured with `approved` admits `url`: the two are the
/// same sequence of characters. Nothing is normalised and no prefix counts.
pub open spec fn approves(approved: Seq<char>, url: Seq<char>) -> bool {
    url == approved
}

/// A guard that admits exactly one base URL, fixed when the guard is made.
pub struct DomainGuard {
    approved: String,
}

impl View for DomainGuard {
    type V = Seq<char>;

    /// The approved base URL.
    closed spec fn view(&self) -> Seq<char> {
        self.approved@
    }
}

impl DomainGuard {
    /// A guard that admits `approved` and nothing else.
    pub fn new(approved: &str) -> (guard: Self)
        ensures
            guard@ == approved@,
    {
        DomainGuard { approved: String::from_str(approved) }
    }

    /// The guard for production use, which admits [`APPROVED_BASE`].
    pub fn production() -> (guard: Self)
        ensures
            guard@ == APPROVED_BASE@,
    {
        DomainGuard::new(APPROVED_BASE)
    }

    /// The base URL that this guard admits.
    pub fn approved_base(&self) -> (base: &str)
        ensures
            base@ == self@,
    {
        self.approved.as_str()
    }

    /// Admits `url` if and only if it equals the approved base.
    pub fn approve(&self, url: &str) -> (ok: bool)
        ensures
            ok == approves(self@, url@),
    {
        let candidate = String::from_str(url);
        candidate == self.approved
    }
}

/// Admits `url` if and only if it equals [`APPROVED_BASE`].
pub fn validate_domain(url: &str) -> (ok: bool)
    ensures
        ok == approves(APPROVED_BASE@, url@),
{
    let candidate = String::from_str(url);
    let approved = String::from_str(APPROVED_BASE);
    candidate == approved
}

/// The guard's verdict is a function of the approved base and the URL alone:
/// asked twice about equal inputs, it answers the same.
pub proof fn guard_verdict_is_stable(
    approved_a: Seq<char>,
    url_a: Seq<char>,
    approved_b: Seq<char>,
    url_b: Seq<char>,
)
    requires
        approved_a == approved_b,
        url_a == url_b,
    ensures
        approves(approved_a, url_a) == approves(approved_b, url_b),
{
}

} // verus!
