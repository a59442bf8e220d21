use syno_photos::album::{AddItemsRequest, CreateRequest, Destination, ListRequest, ListSharedRequest};
use syno_photos::browse::{self, AlbumId, AlbumRequest, CommonListRequest, Timestamp, MAX_SECS, MIN_SECS};
use syno_photos::text::int_string;
use syno_photos::Request;

#[test]
fn create_query_encodes_name() {
    let req = CreateRequest { name: "my album/2".to_owned(), items: vec![1, 2, 3] };
    assert_eq!(
        req.query(),
        "api=SYNO.Foto.Browse.NormalAlbum&method=create&version=1&name=my%20album%2F2&item=[1, 2, 3]"
    );
}

#[test]
fn create_query_plain_name_and_no_items() {
    let req = CreateRequest { name: "Trip-2024_a.b~".to_owned(), items: vec![] };
    assert_eq!(req.query(), "api=SYNO.Foto.Browse.NormalAlbum&method=create&version=1&name=Trip-2024_a.b~&item=[]");
}

#[test]
fn create_query_with_encoded_name() {
    let q = CreateRequest::query_with_encoded_name("x%20y", &vec![-4]);
    assert_eq!(q, "api=SYNO.Foto.Browse.NormalAlbum&method=create&version=1&name=x%20y&item=[-4]");
}

#[test]
fn add_items_query_owned_and_shared() {
    let owned = AddItemsRequest::new(Destination::Owned(-5), vec![10, 20]);
    assert_eq!(owned.query(), "api=SYNO.Foto.Browse.NormalAlbum&method=add_item&version=1&item=[10, 20]&id=-5");
    let shared = AddItemsRequest::new(Destination::Shared("abc".to_owned()), vec![7]);
    assert_eq!(shared.query(), "api=SYNO.Foto.Browse.NormalAlbum&method=add_item&version=1&item=[7]&passphrase=abc");
}

#[test]
fn album_list_queries() {
    let req = ListRequest { offset: 0, limit: u32::MAX };
    assert_eq!(req.query(), "api=SYNO.Foto.Browse.Album&method=list&version=2&offset=0&limit=4294967295");
    let shared = ListSharedRequest { offset: 100, limit: 50 };
    assert_eq!(
        shared.query(),
        "api=SYNO.Foto.Sharing.Misc&method=list_shared_with_me_album&version=2&offset=100&limit=50"
    );
    assert_eq!(ListRequest::default().query(), "api=SYNO.Foto.Browse.Album&method=list&version=2&offset=0&limit=0");
}

#[test]
fn browse_list_query_uses_seconds() {
    let req = browse::ListRequest {
        offset: 5,
        limit: 10,
        start_time: Timestamp::from_secs(-86400).unwrap(),
        end_time: Timestamp::from_secs(1431648000).unwrap(),
    };
    assert_eq!(
        req.query(),
        "api=SYNO.Foto.Browse.Item&method=list&version=1&offset=5&limit=10&start_time=-86400&end_time=1431648000"
    );
}

#[test]
fn common_list_query_writes_dates() {
    let req = CommonListRequest {
        offset: 0,
        limit: 1,
        start_time: Timestamp::default(),
        end_time: Timestamp::from_secs(1431648000).unwrap(),
    };
    assert_eq!(
        req.query(),
        "api=SYNO.FotoTeam.Browse.Item&method=list&version=1&offset=0&limit=1\
&start_time=1970-01-01 00:00:00 UTC&end_time=2015-05-15 00:00:00 UTC"
    );
    assert_eq!(
        req.query_with_times("S", "E"),
        "api=SYNO.FotoTeam.Browse.Item&method=list&version=1&offset=0&limit=1&start_time=S&end_time=E"
    );
}

#[test]
fn common_list_query_at_range_ends() {
    let req = CommonListRequest {
        offset: 0,
        limit: 0,
        start_time: Timestamp::from_secs(MIN_SECS).unwrap(),
        end_time: Timestamp::from_secs(MAX_SECS).unwrap(),
    };
    assert!(req.query().ends_with("&start_time=0001-01-01 00:00:00 UTC&end_time=9999-12-31 23:59:59 UTC"));
}

#[test]
fn timestamp_range() {
    assert_eq!(Timestamp::from_secs(MIN_SECS).unwrap().timestamp(), MIN_SECS);
    assert_eq!(Timestamp::from_secs(MAX_SECS).unwrap().timestamp(), MAX_SECS);
    assert!(Timestamp::from_secs(MIN_SECS - 1).is_none());
    assert!(Timestamp::from_secs(MAX_SECS + 1).is_none());
    assert_eq!(Timestamp::default().timestamp(), 0);
}

#[test]
fn album_item_queries() {
    let owned = AlbumRequest { offset: 1, limit: 2, album_id: AlbumId::Owned(42) };
    assert_eq!(owned.query(), "api=SYNO.Foto.Browse.Item&method=list&version=1&album_id=42&offset=1&limit=2");
    let shared = AlbumRequest { offset: 0, limit: 3, album_id: AlbumId::Shared("pp".to_owned()) };
    assert_eq!(shared.query(), "api=SYNO.Foto.Browse.Item&method=list&version=1&passphrase=pp&offset=0&limit=3");
}

#[test]
fn integer_texts() {
    assert_eq!(int_string(0), "0");
    assert_eq!(int_string(1234567890), "1234567890");
    assert_eq!(int_string(i64::MIN), "-9223372036854775808");
    assert_eq!(int_string(i64::MAX), "9223372036854775807");
}

#[test]
fn create_query_encodes_utf8_bytes() {
    let req = CreateRequest { name: "été 100%".to_owned(), items: vec![0] };
    assert_eq!(
        req.query(),
        "api=SYNO.Foto.Browse.NormalAlbum&method=create&version=1&name=%C3%A9t%C3%A9%20100%25&item=[0]"
    );
}
