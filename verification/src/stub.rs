//! A scripted stand-in for the remote service.
//!
//! A [`StubHarness`] holds expectations: which request is expected, how
//! often, and what to answer. It answers requests from them, keeps count,
//! and says at the end which expectation was not met. It opens no socket: a
//! request reaches it by a call.

use crate::transport::{RawResponse, RawResponseView, TransportError};
use vstd::prelude::*;
use vstd::string::*;

verus! {

/// The status code of the answer to a request that no expectation matches.
pub const UNMATCHED_STATUS: u16 = 501;

/// One expected request and the response to give to it.
#[derive(Debug, Clone, PartialEq, Eq)]
pub struct Expectation {
    method: String,
    path: String,
    status: u16,
    headers: Vec<(String, String)>,
    body: Vec<u8>,
    times: Option<usize>,
    hits: usize,
}

/// The mathematical value of an [`Expectation`].
pub ghost struct ExpectationView {
    pub method: Seq<char>,
    pub path: Seq<char>,
    pub status: u16,
    pub headers: Seq<(Seq<char>, Seq<char>)>,
    pub body: Seq<u8>,
    /// The exact number of calls asked for, if one was.
    pub times: Option<usize>,
    /// The number of requests answered from this expectation so far.
    pub hits: usize,
}

/// The value of the first header named `name`, if there is one. Names are
/// compared as written.
pub open spec fn header_value(headers: Seq<(Seq<char>, Seq<char>)>, name: Seq<char>) -> Option<
    Seq<char>,
>
    decreases headers.len(),
{
    if headers.len() == 0 {
        None
    } else if headers[0].0 == name {
        Some(headers[0].1)
    } else {
        header_value(headers.drop_first(), name)
    }
}

impl ExpectationView {
    /// How many requests this expectation answers at most.
    pub open spec fn capacity(self) -> nat {
        match self.times {
            Some(n) => n as nat,
            None => usize::MAX as nat,
        }
    }

    /// How many requests this expectation must have answered to be met: the
    /// number asked for, or one where none was.
    pub open spec fn required(self) -> nat {
        match self.times {
            Some(n) => n as nat,
            None => 1,
        }
    }

    /// Whether this expectation answers a request: method and path are the
    /// expected ones, and its capacity is not used up.
    pub open spec fn open_for(self, method: Seq<char>, path: Seq<char>) -> bool {
        self.method == method && self.path == path && self.hits < self.capacity()
    }

    /// Whether this expectation is met.
    pub open spec fn fulfilled(self) -> bool {
        self.hits >= self.required()
    }

    /// The response that this expectation gives.
    pub open spec fn response(self) -> RawResponseView {
        RawResponseView {
            status: self.status,
            content_type: header_value(self.headers, "content-type"@),
            body: self.body,
        }
    }

    /// This expectation after it answered one more request.
    pub open spec fn hit(self) -> ExpectationView
        recommends
            self.hits < self.capacity(),
    {
        ExpectationView { hits: (self.hits + 1) as usize, ..self }
    }
}

impl View for Expectation {
    type V = ExpectationView;

    closed spec fn view(&self) -> ExpectationView {
        ExpectationView {
            method: self.method@,
            path: self.path@,
            status: self.status,
            headers: self.headers@.map_values(|h: (String, String)| (h.0@, h.1@)),
            body: self.body@,
            times: self.times,
            hits: self.hits,
        }
    }
}

/// Starts the description of an expected request. The response is status 200
/// with no header and an empty body until the builder methods say otherwise,
/// and the request is expected once or more.
pub fn expect(method: &str, path: &str) -> (expectation: Expectation)
    ensures
        expectation@ == (ExpectationView {
            method: method@,
            path: path@,
            status: 200,
            headers: Seq::empty(),
            body: Seq::empty(),
            times: None,
            hits: 0,
        }),
{
    let expectation = Expectation {
        method: String::from_str(method),
        path: String::from_str(path),
        status: 200,
        headers: Vec::new(),
        body: Vec::new(),
        times: None,
        hits: 0,
    };
    assert(expectation@.headers =~= Seq::empty());
    expectation
}

impl Expectation {
    /// Sets the status code of the response.
    pub fn with_status(self, status: u16) -> (expectation: Expectation)
        ensures
            expectation@ == (ExpectationView { status, ..self@ }),
    {
        let mut expectation = self;
        expectation.status = status;
        expectation
    }

    /// Adds a header to the response, behind those already there.
    pub fn with_header(self, name: &str, value: &str) -> (expectation: Expectation)
        ensures
            expectation@ == (ExpectationView {
                headers: self@.headers.push((name@, value@)),
                ..self@
            }),
    {
        let mut expectation = self;
        expectation.headers.push((String::from_str(name), String::from_str(value)));
        assert(expectation@.headers =~= self@.headers.push((name@, value@)));
        expectation
    }

    /// Sets the body of the response.
    pub fn with_body(self, body: Vec<u8>) -> (expectation: Expectation)
        ensures
            expectation@ == (ExpectationView { body: body@, ..self@ }),
    {
        let mut expectation = self;
        expectation.body = body;
        expectation
    }

    /// Asks for exactly `n` calls: no more than `n` requests are answered
    /// from this expectation, and it is met once `n` have been.
    pub fn times(self, n: usize) -> (expectation: Expectation)
        ensures
            expectation@ == (ExpectationView { times: Some(n), ..self@ }),
    {
        let mut expectation = self;
        expectation.times = Some(n);
        expectation
    }

    /// The number of requests answered from this expectation so far.
    pub fn hits(&self) -> (hits: usize)
        ensures
            hits == self@.hits,
    {
        self.hits
    }

    /// Whether this expectation is met.
    pub fn is_fulfilled(&self) -> (met: bool)
        ensures
            met == self@.fulfilled(),
    {
        match self.times {
            Some(n) => self.hits >= n,
            None => self.hits >= 1,
        }
    }

    /// Whether this expectation answers a request for `method` and `path`.
    fn is_open_for(&self, method: &String, path: &String) -> (open: bool)
        ensures
            open == self@.open_for(method@, path@),
    {
        let room = match self.times {
            Some(n) => self.hits < n,
            None => self.hits < usize::MAX,
        };
        room && self.method == *method && self.path == *path
    }

    /// The response that this expectation gives.
    fn respond(&self) -> (response: RawResponse)
        ensures
            response@ == self@.response(),
    {
        let name = String::from_str("content-type");
        let mut content_type: Option<String> = None;
        let mut i: usize = 0;
        assert(self@.headers.skip(0) =~= self@.headers);
        while i < self.headers.len() && content_type.is_none()
            invariant
                i <= self.headers.len(),
                name@ == "content-type"@,
                match content_type {
                    Some(s) => header_value(self@.headers, name@) == Some(s@),
                    None => header_value(self@.headers, name@) == header_value(
                        self@.headers.skip(i as int),
                        name@,
                    ),
                },
            decreases self.headers.len() - i,
        {
            let ghost rest = self@.headers.skip(i as int);
            assert(rest[0] == (self.headers[i as int].0@, self.headers[i as int].1@));
            assert(rest.drop_first() =~= self@.headers.skip(i + 1));
            if self.headers[i].0 == name {
                content_type = Some(self.headers[i].1.clone());
            }
            i = i + 1;
        }
        proof {
            if content_type.is_none() {
                assert(self@.headers.skip(i as int).len() == 0);
            }
        }
        let mut body: Vec<u8> = Vec::new();
        let mut k: usize = 0;
        while k < self.body.len()
            invariant
                k <= self.body.len(),
                body@ == self.body@.take(k as int),
            decreases self.body.len() - k,
        {
            body.push(self.body[k]);
            assert(body@ =~= self.body@.take(k + 1));
            k = k + 1;
        }
        assert(body@ =~= self.body@);
        RawResponse { status: self.status, content_type, body }
    }
}

/// An expectation that was not met, as a diagnostic names it.
#[derive(Debug, Clone, PartialEq, Eq)]
pub struct Unfulfilled {
    /// The expected method.
    pub method: String,
    /// The expected path.
    pub path: String,
    /// How many requests the expectation had to answer.
    pub required: usize,
    /// How many it did answer.
    pub observed: usize,
}

/// The mathematical value of an [`Unfulfilled`].
pub ghost struct UnfulfilledView {
    pub method: Seq<char>,
    pub path: Seq<char>,
    pub required: nat,
    pub observed: nat,
}

impl View for Unfulfilled {
    type V = UnfulfilledView;

    open spec fn view(&self) -> UnfulfilledView {
        UnfulfilledView {
            method: self.method@,
            path: self.path@,
            required: self.required as nat,
            observed: self.observed as nat,
        }
    }
}

/// The index of the first expectation at or behind `from` that answers a
/// request for `method` and `path`, or the number of expectations where
/// there is none.
pub open spec fn first_open(
    expectations: Seq<ExpectationView>,
    method: Seq<char>,
    path: Seq<char>,
    from: int,
) -> int
    decreases expectations.len() - from,
{
    if from < 0 || from >= expectations.len() {
        expectations.len() as int
    } else if expectations[from].open_for(method, path) {
        from
    } else {
        first_open(expectations, method, path, from + 1)
    }
}

/// The index of the first expectation at or behind `from` that is not met,
/// or the number of expectations where all are.
pub open spec fn first_unfulfilled(expectations: Seq<ExpectationView>, from: int) -> int
    decreases expectations.len() - from,
{
    if from < 0 || from >= expectations.len() {
        expectations.len() as int
    } else if !expectations[from].fulfilled() {
        from
    } else {
        first_unfulfilled(expectations, from + 1)
    }
}

/// The response to a request that no expectation answers.
pub open spec fn unmatched_response() -> RawResponseView {
    RawResponseView { status: UNMATCHED_STATUS, content_type: None, body: Seq::empty() }
}

/// The state of a harness.
pub ghost struct HarnessView {
    /// Scheme and authority: what a URL must begin with to reach the
    /// harness.
    pub origin: Seq<char>,
    /// The expectations, in the order of their registration.
    pub expectations: Seq<ExpectationView>,
    /// Method and path of every request received, oldest first.
    pub log: Seq<(Seq<char>, Seq<char>)>,
}

impl HarnessView {
    /// The response to a request: that of the first expectation that answers
    /// it, or the fixed one where none does.
    pub open spec fn answer(self, method: Seq<char>, path: Seq<char>) -> RawResponseView {
        let i = first_open(self.expectations, method, path, 0);
        if i < self.expectations.len() {
            self.expectations[i].response()
        } else {
            unmatched_response()
        }
    }

    /// The harness after a request: the request is logged, and the
    /// expectation that answered it, if one did, counts one more.
    pub open spec fn received(self, method: Seq<char>, path: Seq<char>) -> HarnessView {
        let i = first_open(self.expectations, method, path, 0);
        HarnessView {
            origin: self.origin,
            expectations: if i < self.expectations.len() {
                self.expectations.update(i, self.expectations[i].hit())
            } else {
                self.expectations
            },
            log: self.log.push((method, path)),
        }
    }

    /// The harness after `count` requests for the same method and path.
    pub open spec fn received_times(self, method: Seq<char>, path: Seq<char>, count: nat) -> HarnessView
        decreases count,
    {
        if count == 0 {
            self
        } else {
            self.received(method, path).received_times(method, path, (count - 1) as nat)
        }
    }

    /// Whether every expectation is met.
    pub open spec fn all_fulfilled(self) -> bool {
        forall|i: int| 0 <= i < self.expectations.len() ==> (#[trigger] self.expectations[i]).fulfilled()
    }

    /// The path that a URL asks this harness for: what follows the origin,
    /// where that begins with a slash, and a lone slash where nothing
    /// follows. `None` where the URL does not lead to this harness.
    pub open spec fn path_of(self, url: Seq<char>) -> Option<Seq<char>> {
        let k = self.origin.len() as int;
        if url == self.origin {
            Some(seq!['/'])
        } else if url.len() > k && url.subrange(0, k) == self.origin && url[k] == '/' {
            Some(url.subrange(k, url.len() as int))
        } else {
            None
        }
    }

    /// The outcome of a GET request for `url`: the answer to its path, or a
    /// transport failure where the URL does not lead to this harness.
    pub open spec fn get_outcome(self, url: Seq<char>) -> Result<RawResponseView, Seq<char>> {
        match self.path_of(url) {
            Some(path) => Ok(self.answer("GET"@, path)),
            None => Err("connection refused"@),
        }
    }

    /// The harness after a GET request for `url`: unchanged where the URL
    /// does not lead to it.
    pub open spec fn after_get(self, url: Seq<char>) -> HarnessView {
        match self.path_of(url) {
            Some(path) => self.received("GET"@, path),
            None => self,
        }
    }
}

/// Where [`first_open`] points, an expectation answers the request, and none
/// before it does.
pub proof fn first_open_is_first(
    expectations: Seq<ExpectationView>,
    method: Seq<char>,
    path: Seq<char>,
    from: int,
)
    requires
        0 <= from <= expectations.len(),
    ensures
        from <= first_open(expectations, method, path, from) <= expectations.len(),
        first_open(expectations, method, path, from) < expectations.len() ==> expectations[first_open(
            expectations,
            method,
            path,
            from,
        )].open_for(method, path),
        forall|j: int|
            from <= j < first_open(expectations, method, path, from) ==> !(
            #[trigger] expectations[j]).open_for(method, path),
    decreases expectations.len() - from,
{
    if from < expectations.len() && !expectations[from].open_for(method, path) {
        first_open_is_first(expectations, method, path, from + 1);
    }
}

/// Where [`first_unfulfilled`] points, an expectation is not met, and all
/// before it are.
pub proof fn first_unfulfilled_is_first(expectations: Seq<ExpectationView>, from: int)
    requires
        0 <= from <= expectations.len(),
    ensures
        from <= first_unfulfilled(expectations, from) <= expectations.len(),
        first_unfulfilled(expectations, from) < expectations.len() ==> !expectations[first_unfulfilled(
            expectations,
            from,
        )].fulfilled(),
        forall|j: int|
            from <= j < first_unfulfilled(expectations, from) ==> (#[trigger] expectations[j]).fulfilled(),
    decreases expectations.len() - from,
{
    if from < expectations.len() && expectations[from].fulfilled() {
        first_unfulfilled_is_first(expectations, from + 1);
    }
}

/// The stand-in service: its expectations and what it has received.
#[derive(Debug)]
pub struct StubHarness {
    origin: String,
    expectations: Vec<Expectation>,
    log: Vec<(String, String)>,
}

impl View for StubHarness {
    type V = HarnessView;

    closed spec fn view(&self) -> HarnessView {
        HarnessView {
            origin: self.origin@,
            expectations: self.expectations@.map_values(|e: Expectation| e@),
            log: self.log@.map_values(|r: (String, String)| (r.0@, r.1@)),
        }
    }
}

impl StubHarness {
    /// A harness that URLs beginning with `origin` lead to, with no
    /// expectation and nothing received.
    pub fn start(origin: &str) -> (harness: StubHarness)
        ensures
            harness@ == (HarnessView {
                origin: origin@,
                expectations: Seq::empty(),
                log: Seq::empty(),
            }),
    {
        let harness = StubHarness {
            origin: String::from_str(origin),
            expectations: Vec::new(),
            log: Vec::new(),
        };
        assert(harness@.expectations =~= Seq::empty());
        assert(harness@.log =~= Seq::empty());
        harness
    }

    /// The origin of this harness.
    pub fn url(&self) -> (origin: &str)
        ensures
            origin@ == self@.origin,
    {
        self.origin.as_str()
    }

    /// Registers an expectation behind those already there, and returns the
    /// index under which the harness keeps it.
    pub fn register(&mut self, expectation: Expectation) -> (index: usize)
        ensures
            index == old(self)@.expectations.len(),
            final(self)@ == (HarnessView {
                expectations: old(self)@.expectations.push(expectation@),
                ..old(self)@
            }),
    {
        let index = self.expectations.len();
        self.expectations.push(expectation);
        assert(self@.expectations =~= old(self)@.expectations.push(expectation@));
        index
    }

    /// The expectation kept under `index`, if there is one.
    pub fn expectation(&self, index: usize) -> (found: Option<&Expectation>)
        ensures
            found is Some == (index < self@.expectations.len()),
            found is Some ==> found.unwrap()@ == self@.expectations[index as int],
    {
        if index < self.expectations.len() {
            Some(&self.expectations[index])
        } else {
            None
        }
    }

    /// The number of requests received so far.
    pub fn requests(&self) -> (count: usize)
        ensures
            count == self@.log.len(),
    {
        self.log.len()
    }

    /// Answers one request, logs it, and counts it on the expectation that
    /// answered it.
    pub fn serve(&mut self, method: &str, path: &str) -> (response: RawResponse)
        ensures
            response@ == old(self)@.answer(method@, path@),
            final(self)@ == old(self)@.received(method@, path@),
    {
        let method = String::from_str(method);
        let path = String::from_str(path);
        let ghost before = self@;
        let mut i: usize = 0;
        while i < self.expectations.len() && !self.expectations[i].is_open_for(&method, &path)
            invariant
                i <= self.expectations.len(),
                *self == *old(self),
                first_open(self@.expectations, method@, path@, 0) == first_open(
                    self@.expectations,
                    method@,
                    path@,
                    i as int,
                ),
            decreases self.expectations.len() - i,
        {
            i = i + 1;
        }
        let response = if i < self.expectations.len() {
            let response = self.expectations[i].respond();
            let hits = self.expectations[i].hits;
            self.expectations[i].hits = hits + 1;
            assert(self@.expectations =~= before.expectations.update(
                i as int,
                before.expectations[i as int].hit(),
            ));
            response
        } else {
            RawResponse { status: UNMATCHED_STATUS, content_type: None, body: Vec::new() }
        };
        self.log.push((method, path));
        assert(self@.log =~= before.log.push((method@, path@)));
        assert(self@.expectations =~= before.received(method@, path@).expectations);
        response
    }

    /// The path that `url` asks this harness for.
    fn path_of(&self, url: &str) -> (path: Option<String>)
        ensures
            match path {
                Some(p) => self@.path_of(url@) == Some(p@),
                None => self@.path_of(url@) is None,
            },
    {
        let n = url.unicode_len();
        let k = self.origin.as_str().unicode_len();
        if n < k {
            return None;
        }
        let head = String::from_str(url.substring_char(0, k));
        if head != self.origin {
            assert(url@ == self@.origin ==> url@.subrange(0, k as int) =~= url@);
            return None;
        }
        if n == k {
            proof {
                reveal_strlit("/");
            }
            assert(url@.subrange(0, k as int) =~= url@);
            assert("/"@ =~= seq!['/']);
            return Some(String::from_str("/"));
        }
        if url.get_char(k) == '/' {
            Some(String::from_str(url.substring_char(k, n)))
        } else {
            None
        }
    }

    /// Makes a GET request for `url` to this harness, as a client would.
    ///
    /// A URL that does not lead to this harness gives a transport failure
    /// and leaves the harness as it was: it has received nothing.
    pub fn get(&mut self, url: &str) -> (outcome: Result<RawResponse, TransportError>)
        ensures
            crate::transport::outcome_view(outcome) == old(self)@.get_outcome(url@),
            final(self)@ == old(self)@.after_get(url@),
    {
        match self.path_of(url) {
            Some(path) => Ok(self.serve("GET", path.as_str())),
            None => Err(TransportError { cause: String::from_str("connection refused") }),
        }
    }

    /// Says whether every expectation is met, and names the first one that
    /// is not.
    pub fn assert_fulfilled(&self) -> (result: Result<(), Unfulfilled>)
        ensures
            result is Ok == self@.all_fulfilled(),
            result is Err ==> {
                let i = first_unfulfilled(self@.expectations, 0);
                &&& i < self@.expectations.len()
                &&& result.unwrap_err()@ == (UnfulfilledView {
                    method: self@.expectations[i].method,
                    path: self@.expectations[i].path,
                    required: self@.expectations[i].required(),
                    observed: self@.expectations[i].hits as nat,
                })
            },
    {
        proof {
            first_unfulfilled_is_first(self@.expectations, 0);
        }
        let mut i: usize = 0;
        while i < self.expectations.len() && self.expectations[i].is_fulfilled()
            invariant
                i <= self.expectations.len(),
                first_unfulfilled(self@.expectations, 0) == first_unfulfilled(
                    self@.expectations,
                    i as int,
                ),
            decreases self.expectations.len() - i,
        {
            i = i + 1;
        }
        if i < self.expectations.len() {
            let e = &self.expectations[i];
            let required = match e.times {
                Some(n) => n,
                None => 1,
            };
            Err(
                Unfulfilled {
                    method: e.method.clone(),
                    path: e.path.clone(),
                    required,
                    observed: e.hits,
                },
            )
        } else {
            Ok(())
        }
    }
}

/// Whether the expectation at `index` is the only one of `harness` that
/// expects `method` and `path`.
pub open spec fn expects_alone(
    harness: HarnessView,
    index: int,
    method: Seq<char>,
    path: Seq<char>,
) -> bool {
    &&& 0 <= index < harness.expectations.len()
    &&& harness.expectations[index].method == method
    &&& harness.expectations[index].path == path
    &&& forall|j: int|
        0 <= j < harness.expectations.len() && j != index ==> !((
        #[trigger] harness.expectations[j]).method == method && harness.expectations[j].path
            == path)
}

/// The smaller of two numbers.
pub open spec fn at_most(a: int, limit: int) -> int {
    if a <= limit {
        a
    } else {
        limit
    }
}

/// Counting calls: after `count` requests for what one expectation alone
/// expects, that expectation has answered `count` of them more than before,
/// up to its capacity, and the others are as they were. Every request is in
/// the log.
pub proof fn calls_are_counted(
    harness: HarnessView,
    index: int,
    method: Seq<char>,
    path: Seq<char>,
    count: nat,
)
    requires
        expects_alone(harness, index, method, path),
        harness.expectations[index].hits <= harness.expectations[index].capacity(),
    ensures
        harness.received_times(method, path, count).expectations.len()
            == harness.expectations.len(),
        harness.received_times(method, path, count).expectations[index] == (ExpectationView {
            hits: at_most(
                harness.expectations[index].hits + count,
                harness.expectations[index].capacity() as int,
            ) as usize,
            ..harness.expectations[index]
        }),
        forall|j: int|
            0 <= j < harness.expectations.len() && j != index ==> harness.received_times(
                method,
                path,
                count,
            ).expectations[j] == #[trigger] harness.expectations[j],
        harness.received_times(method, path, count).log.len() == harness.log.len() + count,
        harness.received_times(method, path, count).origin == harness.origin,
    decreases count,
{
    if count > 0 {
        let e = harness.expectations[index];
        let next = harness.received(method, path);
        first_open_is_first(harness.expectations, method, path, 0);
        let first = first_open(harness.expectations, method, path, 0);
        if e.hits < e.capacity() {
            assert(e.open_for(method, path));
            assert(first == index);
        } else {
            assert(first == harness.expectations.len());
        }
        assert(expects_alone(next, index, method, path));
        calls_are_counted(next, index, method, path, (count - 1) as nat);
        let after = harness.received_times(method, path, count);
        assert(after == next.received_times(method, path, (count - 1) as nat));
        assert forall|j: int|
            0 <= j < harness.expectations.len() && j != index implies after.expectations[j]
            == #[trigger] harness.expectations[j] by {
            assert(next.expectations[j] == harness.expectations[j]);
        }
    }
}

/// Call-count verification: an expectation that asks for exactly `n` calls
/// and alone expects its request is met after `count` such requests to a
/// fresh harness if and only if `count` is at least `n`; it has then
/// answered `n` of them, and fewer than `n` calls leave it unmet.
pub proof fn exact_count_is_verified(
    harness: HarnessView,
    index: int,
    method: Seq<char>,
    path: Seq<char>,
    n: usize,
    count: nat,
)
    requires
        expects_alone(harness, index, method, path),
        harness.expectations[index].times == Some(n),
        harness.expectations[index].hits == 0,
    ensures
        harness.received_times(method, path, count).expectations[index].fulfilled() <==> count
            >= n,
        harness.received_times(method, path, count).expectations[index].hits == at_most(
            count as int,
            n as int,
        ),
{
    calls_are_counted(harness, index, method, path, count);
}

/// An expectation without a call count is met by the first request for what
/// it alone expects, and stays met.
pub proof fn one_call_meets_plain_expectation(
    harness: HarnessView,
    index: int,
    method: Seq<char>,
    path: Seq<char>,
    count: nat,
)
    requires
        expects_alone(harness, index, method, path),
        harness.expectations[index].times is None,
        harness.expectations[index].hits == 0,
    ensures
        harness.received_times(method, path, count).expectations[index].fulfilled() <==> count
            >= 1,
{
    calls_are_counted(harness, index, method, path, count);
}

/// A request that no expectation answers changes no count: it is logged and
/// gets the fixed response.
pub proof fn unmatched_request_changes_no_count(
    harness: HarnessView,
    method: Seq<char>,
    path: Seq<char>,
)
    requires
        forall|j: int|
            0 <= j < harness.expectations.len() ==> !(#[trigger] harness.expectations[j]).open_for(
                method,
                path,
            ),
    ensures
        harness.answer(method, path) == unmatched_response(),
        harness.received(method, path).expectations == harness.expectations,
        harness.received(method, path).log == harness.log.push((method, path)),
{
    first_open_is_first(harness.expectations, method, path, 0);
}

} // verus!
