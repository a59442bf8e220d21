use syno_photos::json::Json;
use syno_photos::session::Session;
use syno_photos::{Body, ErrorResponse, LoginRequest, LoginResponse, Request, Response};

fn obj(members: Vec<(&str, Json)>) -> Json {
    Json::Object(members.into_iter().map(|(k, v)| (k.to_owned(), v)).collect())
}

fn text(s: &str) -> Json {
    Json::Str(s.to_owned())
}

#[test]
fn success_envelope_gives_payload_unchanged() {
    let j = obj(vec![("success", Json::Bool(true)), ("data", obj(vec![("x", Json::Int(7))]))]);
    let resp = Response::decode(j).unwrap();
    assert!(resp.success);
    match resp.body.as_result() {
        Ok(Json::Object(members)) => {
            assert_eq!(members.len(), 1);
            assert_eq!(members[0].0, "x");
            assert!(matches!(members[0].1, Json::Int(7)));
        }
        _ => panic!("expected the payload"),
    }
}

#[test]
fn error_envelope_gives_code() {
    let j = obj(vec![("success", Json::Bool(false)), ("error", obj(vec![("code", Json::Int(105))]))]);
    let resp = Response::decode(j).unwrap();
    assert!(!resp.success);
    assert_eq!(resp.body.as_result().unwrap_err(), ErrorResponse { code: 105 });
}

#[test]
fn error_wins_over_data() {
    let j = obj(vec![
        ("data", Json::Int(1)),
        ("success", Json::Bool(true)),
        ("error", obj(vec![("code", Json::Int(400))])),
    ]);
    let resp = Response::decode(j).unwrap();
    assert!(matches!(resp.body, Body::Error(ErrorResponse { code: 400 })));
}

#[test]
fn malformed_envelopes_are_refused() {
    assert!(Response::decode(obj(vec![("data", Json::Int(1))])).is_none());
    assert!(Response::decode(obj(vec![("success", Json::Int(1)), ("data", Json::Int(1))])).is_none());
    assert!(Response::decode(obj(vec![("success", Json::Bool(true))])).is_none());
    assert!(Response::decode(Json::Array(vec![])).is_none());
    let negative = obj(vec![("success", Json::Bool(false)), ("error", obj(vec![("code", Json::Int(-1))]))]);
    assert!(Response::decode(negative).is_none());
    let too_big = obj(vec![("success", Json::Bool(false)), ("error", obj(vec![("code", Json::Int(1 << 32))]))]);
    assert!(Response::decode(too_big).is_none());
}

#[test]
fn largest_error_code() {
    let j = obj(vec![("success", Json::Bool(false)), ("error", obj(vec![("code", Json::Int(u32::MAX as i64))]))]);
    let resp = Response::decode(j).unwrap();
    assert_eq!(Session::payload(resp).unwrap_err(), ErrorResponse { code: u32::MAX });
}

#[test]
fn login_query_fields() {
    let req = LoginRequest { account: "a".to_owned(), passwd: "b".to_owned() };
    let q = req.query();
    assert!(q.contains("method=login&account=a&passwd=b"));
    assert_eq!(q, "api=SYNO.API.Auth&version=3&method=login&account=a&passwd=b");
}

#[test]
fn login_response_decodes() {
    let data = obj(vec![("did", text("d1")), ("sid", text("s1"))]);
    let login = LoginResponse::from_json(&data).unwrap();
    assert_eq!(login.did, "d1");
    assert_eq!(login.sid, "s1");
    assert!(LoginResponse::from_json(&obj(vec![("sid", text("s1"))])).is_none());
    assert!(LoginResponse::from_json(&obj(vec![("did", text("d1")), ("sid", Json::Int(3))])).is_none());
}

#[test]
fn session_signs_queries() {
    let login = LoginResponse { did: "d".to_owned(), sid: "tok".to_owned() };
    let resp = Response { success: true, body: Body::Data(login) };
    let session = Session::from_login("http://host/webapi/entry.cgi".to_owned(), resp).unwrap();
    assert_eq!(session.sid(), "tok");
    assert_eq!(session.api_url(), "http://host/webapi/entry.cgi");
    let req = syno_photos::album::ListRequest { offset: 0, limit: 10 };
    let q = session.signed_query(&req);
    assert_eq!(q, "api=SYNO.Foto.Browse.Album&method=list&version=2&offset=0&limit=10&_sid=tok");
    assert!(q.starts_with(&req.query()));
    assert_eq!(q.matches("_sid=").count(), 1);
}

#[test]
fn failed_login_passes_error_on() {
    let resp: Response<LoginResponse> = Response { success: false, body: Body::Error(ErrorResponse { code: 400 }) };
    let r = Session::from_login("http://host/".to_owned(), resp);
    assert_eq!(r.unwrap_err(), ErrorResponse { code: 400 });
}
