//! An authenticated session: the endpoint and the token that every request
//! after login carries.
use vstd::prelude::*;

use crate::{Body, ErrorResponse, LoginResponse, Request, Response, result_of};

verus! {

/// The endpoint and session token obtained from a successful login.
#[derive(Debug, Clone)]
pub struct Session {
    api_url: String,
    sid: String,
}

/// A query with the session token appended as the field `_sid`.
pub open spec fn signed_text(query: Seq<char>, sid: Seq<char>) -> Seq<char> {
    query + "&_sid="@ + sid
}

impl Session {
    /// The endpoint's URL.
    pub closed spec fn api_url_spec(&self) -> Seq<char> {
        self.api_url@
    }

    /// The session token.
    pub closed spec fn sid_spec(&self) -> Seq<char> {
        self.sid@
    }

    /// Opens a session from the decoded answer to a login request: the token
    /// comes from the payload, and the service's error is passed on.
    pub fn from_login(api_url: String, response: Response<LoginResponse>) -> (r: Result<Session, ErrorResponse>)
        ensures
            match result_of(response.body) {
                Ok(login) => r matches Ok(s) && s.sid_spec() == login.sid@ && s.api_url_spec() == api_url@,
                Err(e) => r == Err::<Session, ErrorResponse>(e),
            },
    {
        match response.body.as_result() {
            Ok(login) => Ok(Session { api_url, sid: login.sid }),
            Err(e) => Err(e),
        }
    }

    /// The endpoint that requests are posted to.
    pub fn api_url(&self) -> (r: &String)
        ensures
            r@ == self.api_url_spec(),
    {
        &self.api_url
    }

    /// The session token.
    pub fn sid(&self) -> (r: &String)
        ensures
            r@ == self.sid_spec(),
    {
        &self.sid
    }

    /// The body posted for `request`: its own query, then `&_sid=` and the token.
    pub fn signed_query<R: Request>(&self, request: &R) -> (r: String)
        ensures
            r@ == signed_text(request.query_text(), self.sid_spec()),
    {
        let mut out = request.query();
        out.append("&_sid=");
        out.append(self.sid.as_str());
        out
    }

    /// The payload of a decoded response, or the service's error.
    pub fn payload<T>(response: Response<T>) -> (r: Result<T, ErrorResponse>)
        ensures
            r == result_of(response.body),
    {
        match response.body {
            Body::Error(e) => Err(e),
            Body::Data(d) => Ok(d),
        }
    }
}

/// A signed query starts with the request's own fields and ends with one
/// `_sid` field holding the token, with nothing between or after them.
pub proof fn lemma_signed_query_fields(query: Seq<char>, sid: Seq<char>)
    ensures
        signed_text(query, sid).subrange(0, query.len() as int) == query,
        signed_text(query, sid).subrange(query.len() as int, signed_text(query, sid).len() as int)
            == "&_sid="@ + sid,
        signed_text(query, sid).len() == query.len() + "&_sid="@.len() + sid.len(),
{
    let t = signed_text(query, sid);
    assert(t.subrange(0, query.len() as int) =~= query);
    assert(t.subrange(query.len() as int, t.len() as int) =~= "&_sid="@ + sid);
}

/// Whether `pattern` occurs in `t` starting at position `i`.
pub open spec fn occurs_at(t: Seq<char>, pattern: Seq<char>, i: int) -> bool {
    0 <= i && i + pattern.len() <= t.len() && t.subrange(i, i + pattern.len()) == pattern
}

/// Whether `pattern` occurs anywhere in `t`.
pub open spec fn occurs_in(t: Seq<char>, pattern: Seq<char>) -> bool {
    exists|i: int| occurs_at(t, pattern, i)
}

/// When neither the request's query nor the token holds `_sid=`, the signed
/// query holds it exactly once: right after the request's own fields.
pub proof fn lemma_sid_field_once(query: Seq<char>, sid: Seq<char>)
    requires
        !occurs_in(query, "_sid="@),
        !occurs_in(sid, "_sid="@),
    ensures
        occurs_at(signed_text(query, sid), "_sid="@, query.len() + 1 as int),
        forall|i: int| occurs_at(signed_text(query, sid), "_sid="@, i) ==> i == query.len() + 1 as int,
{
    reveal_strlit("_sid=");
    reveal_strlit("&_sid=");
    let t = signed_text(query, sid);
    let p = "_sid="@;
    let n = query.len() as int;
    assert(p =~= seq!['_', 's', 'i', 'd', '=']);
    assert("&_sid="@ =~= seq!['&', '_', 's', 'i', 'd', '=']);
    assert(t.subrange(n + 1, n + 6) =~= p);
    assert forall|i: int| occurs_at(t, p, i) implies i == n + 1 by {
        if i + 5 <= n {
            assert(t.subrange(i, i + 5) =~= query.subrange(i, i + 5));
            assert(occurs_at(query, p, i));
        } else if i <= n {
            assert(t[n] == '&');
            assert(t.subrange(i, i + 5)[n - i] == t[n]);
        } else if n + 2 <= i <= n + 5 {
            assert(t.subrange(i, i + 5)[0] == t[i]);
        } else if i >= n + 6 {
            assert(t.subrange(i, i + 5) =~= sid.subrange(i - n - 6, i - n - 1));
            assert(occurs_at(sid, p, i - n - 6));
        }
    }
}

} // verus!
