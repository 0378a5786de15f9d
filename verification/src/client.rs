//! The part of the HTTP client that decides: where requests go, and which
//! answers count as refusals.

use vstd::prelude::*;
use vstd::string::*;
use crate::error::Error;
use crate::text::{lemma_trim_end_char, trim_end_char};

verus! {

/// The address of the service every request is sent to.
pub struct Client {
    endpoint: String,
}

impl View for Client {
    type V = Seq<char>;

    /// The endpoint, without trailing slashes.
    closed spec fn view(&self) -> Seq<char> {
        self.endpoint@
    }
}

/// Whether an HTTP status counts as success: it lies within 200-299.
pub open spec fn spec_is_success(status: u16) -> bool {
    200 <= status < 300
}

impl Client {
    /// A client for the service at `endpoint`; trailing slashes of the
    /// endpoint are dropped, so that request paths can start with `/`.
    pub fn new(endpoint: &str) -> (c: Client)
        ensures
            c@ == trim_end_char(endpoint@, '/'),
    {
        let n = endpoint.unicode_len();
        let mut end: usize = n;
        assert(endpoint@.subrange(0, n as int) =~= endpoint@);
        while end > 0 && endpoint.get_char(end - 1) == '/'
            invariant
                n == endpoint@.len(),
                end <= n,
                trim_end_char(endpoint@, '/') == trim_end_char(endpoint@.subrange(0, end as int), '/'),
            decreases end,
        {
            assert(endpoint@.subrange(0, end as int).drop_last() =~= endpoint@.subrange(0, end - 1));
            end = end - 1;
        }
        let kept = endpoint.substring_char(0, end);
        Client { endpoint: String::from_str(kept) }
    }

    /// The endpoint that requests go to.
    pub fn endpoint(&self) -> (e: &str)
        ensures
            e@ == self@,
    {
        self.endpoint.as_str()
    }

    /// The full address of `path` (which starts with `/`) on the service.
    pub fn url(&self, path: &str) -> (u: String)
        ensures
            u@ == self@ + path@,
    {
        let mut u = self.endpoint.clone();
        u.append(path);
        u
    }

    /// Whether an answer with this status is accepted (200-299).
    pub fn is_success(status: u16) -> (ok: bool)
        ensures
            ok == spec_is_success(status),
    {
        200 <= status && status < 300
    }

    /// The failure for an answer whose status is not a success: it carries
    /// the status and the body of the answer.
    pub fn refusal(status: u16, body: String) -> (e: Error)
        ensures
            e == Error::Api(status, body),
    {
        Error::Api(status, body)
    }
}

/// The endpoint that a client keeps does not end with `/`, and adding
/// trailing slashes to the endpoint given to `Client::new` does not change
/// it.
pub proof fn law_endpoint_trailing_slashes(endpoint: Seq<char>)
    ensures
        trim_end_char(endpoint, '/').len() > 0 ==> trim_end_char(endpoint, '/').last() != '/',
        trim_end_char(endpoint.push('/'), '/') == trim_end_char(endpoint, '/'),
        trim_end_char(trim_end_char(endpoint, '/'), '/') == trim_end_char(endpoint, '/'),
{
    lemma_trim_end_char(endpoint, '/');
    assert(endpoint.push('/').drop_last() =~= endpoint);
}

} // verus!
