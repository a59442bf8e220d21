use syno_photos::album::{AddItemsResponse, CreateResponse, ListResponse};
use syno_photos::browse::{self, BrowseItem};
use syno_photos::json::Json;
use syno_photos::Response;

fn obj(members: Vec<(&str, Json)>) -> Json {
    Json::Object(members.into_iter().map(|(k, v)| (k.to_owned(), v)).collect())
}

fn text(s: &str) -> Json {
    Json::Str(s.to_owned())
}

fn album(id: i64, name: &str, kind: &str) -> Json {
    obj(vec![
        ("cant_migrate_condition", obj(vec![])),
        ("create_time", Json::Int(1700000000)),
        ("end_time", Json::Int(0)),
        ("freeze_album", Json::Bool(false)),
        ("id", Json::Int(id)),
        ("item_count", Json::Int(2)),
        ("name", text(name)),
        ("owner_user_id", Json::Int(2)),
        ("passphrase", text("")),
        ("shared", Json::Bool(false)),
        ("sort_by", text("default")),
        ("sort_direction", text("default")),
        ("start_time", Json::Int(0)),
        ("temporary_shared", Json::Bool(false)),
        ("type", text(kind)),
        ("version", Json::Int(1)),
    ])
}

fn item(id: i64, time: i64, size: i64) -> Json {
    obj(vec![
        ("id", Json::Int(id)),
        ("filename", text("IMG_0001.JPG")),
        ("filesize", Json::Int(size)),
        ("time", Json::Int(time)),
        ("indexed_time", Json::Int(1700000000)),
        ("owner_user_id", Json::Int(2)),
        ("folder_id", Json::Int(9)),
        ("type", text("photo")),
    ])
}

#[test]
fn test_parse_create_response() {
    let response = obj(vec![
        ("data", obj(vec![("album", album(12, "Holidays", "normal")), ("error_list", Json::Array(vec![]))])),
        ("success", Json::Bool(true)),
    ]);
    let parsed = Response::decode(response).unwrap();
    let data = CreateResponse::from_json(parsed.body.as_result().unwrap()).unwrap();
    assert_eq!("normal".to_owned(), data.album.type_field);
    assert!(data.error_list.is_empty());
    assert_eq!(data.album.id, 12);
    assert_eq!(data.album.name, "Holidays");
}

#[test]
fn test_parse_album_list_response() {
    let response = obj(vec![
        ("data", obj(vec![("list", Json::Array(vec![album(1, "A", "normal"), album(2, "B", "shared")]))])),
        ("success", Json::Bool(true)),
    ]);
    let parsed = Response::decode(response).unwrap();
    let data = parsed.body.as_result();
    assert!(data.is_ok());
    let list = ListResponse::from_json(data.unwrap()).unwrap();
    assert_eq!(list.list.len(), 2);
    assert_eq!(list.list[0].name, "A");
    assert_eq!(list.list[1].id, 2);
}

#[test]
fn album_with_missing_member_is_refused() {
    let broken = obj(vec![("list", Json::Array(vec![album(1, "A", "normal"), obj(vec![("id", Json::Int(3))])]))]);
    assert!(ListResponse::from_json(broken).is_none());
    assert!(ListResponse::from_json(obj(vec![("list", Json::Int(0))])).is_none());
}

#[test]
fn add_items_response_decodes() {
    let r = AddItemsResponse::from_json(obj(vec![("error_list", Json::Array(vec![Json::Int(5)]))])).unwrap();
    assert_eq!(r.error_list.len(), 1);
    assert!(AddItemsResponse::from_json(obj(vec![])).is_none());
}

#[test]
fn browse_items_decode() {
    let data = obj(vec![("list", Json::Array(vec![item(1, 1431648000, 2048), item(2, 0, 0)]))]);
    let list = browse::ListResponse::from_json(&data).unwrap();
    assert_eq!(list.list.len(), 2);
    let first: &BrowseItem = &list.list[0];
    assert_eq!(first.filesize, 2048);
    assert_eq!(first.time.timestamp(), 1431648000);
    assert_eq!(first.type_field, "photo");
    assert_eq!(list.list[1].id, 2);
}

#[test]
fn browse_items_refuse_bad_values() {
    assert!(BrowseItem::from_json(&item(1, 0, -1)).is_none());
    assert!(BrowseItem::from_json(&item(1, i64::MAX, 1)).is_none());
    let data = obj(vec![("list", Json::Array(vec![item(1, 0, 1), text("x")]))]);
    assert!(browse::ListResponse::from_json(&data).is_none());
    let empty = browse::ListResponse::from_json(&obj(vec![("list", Json::Array(vec![]))])).unwrap();
    assert!(empty.list.is_empty());
}
