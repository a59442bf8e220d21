//! Typed requests and responses of a photo-management web API, with the
//! envelope that wraps every response and the session that signs requests.
use vstd::prelude::*;

pub mod album;
pub mod browse;
pub mod json;
pub mod session;
pub mod text;

use crate::json::{Json, lookup, as_bool_spec, as_int_spec, as_str_spec, take_member, lookup_bool, lookup_int, lookup_str};

verus! {

/// A decoded response: the `success` flag and the tagged body.
#[derive(Debug)]
pub struct Response<T> {
    pub success: bool,
    pub body: Body<T>,
}

/// The tagged body of a response: the service's error, or the payload.
#[derive(Debug)]
pub enum Body<T> {
    Error(ErrorResponse),
    Data(T),
}

/// A failure reported by the service, with its numeric code.
#[derive(Debug, Clone, Copy, PartialEq, Eq, Structural)]
pub struct ErrorResponse {
    pub code: u32,
}

/// The result a body stands for: `Ok` with the payload, `Err` with the error.
pub open spec fn result_of<T>(body: Body<T>) -> Result<T, ErrorResponse> {
    match body {
        Body::Error(e) => Err(e),
        Body::Data(d) => Ok(d),
    }
}

impl<T> Body<T> {
    /// The payload, or the service's error.
    pub fn as_result(self) -> (r: Result<T, ErrorResponse>)
        ensures
            r == result_of(self),
    {
        match self {
            Body::Error(error) => Err(error),
            Body::Data(data) => Ok(data),
        }
    }
}

/// The error object `{"code": n}`, where `n` fits in a `u32`.
pub open spec fn error_of(j: Json) -> Option<ErrorResponse> {
    match j {
        Json::Object(members) => match as_int_spec(lookup(members@, "code"@)) {
            Some(n) => if 0 <= n <= u32::MAX {
                Some(ErrorResponse { code: n as u32 })
            } else {
                None
            },
            None => None,
        },
        _ => None,
    }
}

/// What an envelope decodes to: an object with a boolean `success` and either
/// an `error` member (which wins when both are present) or a `data` member.
pub open spec fn envelope_of(j: Json) -> Option<Response<Json>> {
    match j {
        Json::Object(members) => match as_bool_spec(lookup(members@, "success"@)) {
            Some(success) => match lookup(members@, "error"@) {
                Some(e) => match error_of(e) {
                    Some(err) => Some(Response { success, body: Body::Error(err) }),
                    None => None,
                },
                None => match lookup(members@, "data"@) {
                    Some(d) => Some(Response { success, body: Body::Data(d) }),
                    None => None,
                },
            },
            None => None,
        },
        _ => None,
    }
}

impl ErrorResponse {
    /// Decodes the error object of an envelope.
    pub fn from_json(j: &Json) -> (r: Option<ErrorResponse>)
        ensures
            r == error_of(*j),
    {
        match j {
            Json::Object(members) => match lookup_int(members, "code") {
                Some(n) => if 0 <= n && n <= u32::MAX as i64 {
                    Some(ErrorResponse { code: n as u32 })
                } else {
                    None
                },
                None => None,
            },
            _ => None,
        }
    }
}

impl Response<Json> {
    /// Decodes an envelope, keeping its payload as a document.
    pub fn decode(j: Json) -> (r: Option<Response<Json>>)
        ensures
            r == envelope_of(j),
    {
        match j {
            Json::Object(members) => {
                let mut members = members;
                let success = match lookup_bool(&members, "success") {
                    Some(b) => b,
                    None => return None,
                };
                proof {
                    reveal_strlit("error");
                    reveal_strlit("data");
                    assert("data"@[0] != "error"@[0]);
                }
                match take_member(&mut members, "error") {
                    Some(e) => match ErrorResponse::from_json(&e) {
                        Some(err) => Some(Response { success, body: Body::Error(err) }),
                        None => None,
                    },
                    None => match take_member(&mut members, "data") {
                        Some(d) => Some(Response { success, body: Body::Data(d) }),
                        None => None,
                    },
                }
            },
            _ => None,
        }
    }
}

/// Decoding an envelope that carries `data` and no `error`, then taking its
/// result, gives back that payload unchanged.
pub proof fn lemma_success_round_trip(members: Vec<(String, Json)>, success: bool, data: Json)
    requires
        lookup(members@, "success"@) == Some(Json::Bool(success)),
        lookup(members@, "error"@) is None,
        lookup(members@, "data"@) == Some(data),
    ensures
        envelope_of(Json::Object(members)) matches Some(resp)
            && resp.success == success
            && result_of(resp.body) == Ok::<Json, ErrorResponse>(data),
{
}

/// Decoding an envelope whose `error` member is `{"code": n}` gives the
/// service's error with code `n`, whatever else the envelope holds.
pub proof fn lemma_error_envelope(members: Vec<(String, Json)>, success: bool, error_members: Vec<(String, Json)>, code: u32)
    requires
        lookup(members@, "success"@) == Some(Json::Bool(success)),
        lookup(members@, "error"@) == Some(Json::Object(error_members)),
        lookup(error_members@, "code"@) == Some(Json::Int(code as i64)),
    ensures
        envelope_of(Json::Object(members)) matches Some(resp)
            && result_of(resp.body) == Err::<Json, ErrorResponse>(ErrorResponse { code }),
{
}

/// A request that renders itself as the URL-encoded body of a POST.
pub trait Request {
    /// The query string this request renders to.
    spec fn query_text(&self) -> Seq<char>;

    fn query(&self) -> (r: String)
        ensures
            r@ == self.query_text(),
    ;
}

/// Credentials for opening a session.
#[derive(Debug, Clone)]
pub struct LoginRequest {
    pub account: String,
    pub passwd: String,
}

/// The payload of a successful login: a device id and the session token.
#[derive(Debug, Clone)]
pub struct LoginResponse {
    pub did: String,
    pub sid: String,
}

/// The login query: the fixed fields, then the account and password as given.
pub open spec fn login_query_text(account: Seq<char>, passwd: Seq<char>) -> Seq<char> {
    "api=SYNO.API.Auth&version=3&method=login&account="@ + account + "&passwd="@ + passwd
}

impl Request for LoginRequest {
    open spec fn query_text(&self) -> Seq<char> {
        login_query_text(self.account@, self.passwd@)
    }

    fn query(&self) -> (r: String) {
        let mut out = String::new();
        out.append("api=SYNO.API.Auth&version=3&method=login&account=");
        out.append(self.account.as_str());
        out.append("&passwd=");
        out.append(self.passwd.as_str());
        proof {
            assert(out@ =~= login_query_text(self.account@, self.passwd@));
        }
        out
    }
}

/// Whether `members` hold the string members `did` and `sid`.
pub open spec fn login_decodable(members: Seq<(String, Json)>) -> bool {
    as_str_spec(lookup(members, "did"@)) is Some && as_str_spec(lookup(members, "sid"@)) is Some
}

impl LoginResponse {
    /// Decodes the payload `{"did": .., "sid": ..}`.
    pub fn from_json(j: &Json) -> (r: Option<LoginResponse>)
        ensures
            match *j {
                Json::Object(members) => match r {
                    Some(l) => login_decodable(members@)
                        && as_str_spec(lookup(members@, "did"@)) == Some(l.did@)
                        && as_str_spec(lookup(members@, "sid"@)) == Some(l.sid@),
                    None => !login_decodable(members@),
                },
                _ => r is None,
            },
    {
        match j {
            Json::Object(members) => {
                let did = lookup_str(members, "did");
                let sid = lookup_str(members, "sid");
                match (did, sid) {
                    (Some(did), Some(sid)) => Some(LoginResponse { did, sid }),
                    _ => None,
                }
            },
            _ => None,
        }
    }
}

} // verus!
