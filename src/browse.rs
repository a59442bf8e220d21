//! Browsing items: pages of items by time range or by album.
use vstd::prelude::*;

use crate::Request;
use crate::json::{Json, lookup, as_int_spec, as_str_spec, find_member, lookup_int, lookup_str};
use crate::text::{digits, int_text, push_int, push_nat};

verus! {

/// The first second of the year 1, in seconds since 1970-01-01 00:00:00 UTC.
pub const MIN_SECS: i64 = -62135596800;

/// The last second of the year 9999, in seconds since 1970-01-01 00:00:00 UTC.
pub const MAX_SECS: i64 = 253402300799;

/// Whether `secs` lies within the years 1 to 9999.
pub open spec fn in_range(secs: int) -> bool {
    MIN_SECS <= secs <= MAX_SECS
}

/// An instant in UTC, to the second, within the years 1 to 9999.
#[derive(Debug, Clone, Copy, PartialEq, Eq)]
pub struct Timestamp {
    secs: i64,
}

impl Timestamp {
    #[verifier::type_invariant]
    spec fn inv(self) -> bool {
        in_range(self.secs as int)
    }

    /// Seconds since 1970-01-01 00:00:00 UTC.
    pub closed spec fn secs_spec(self) -> int {
        self.secs as int
    }

    /// The instant `secs` seconds after 1970-01-01 00:00:00 UTC, if it lies
    /// within the years 1 to 9999.
    pub fn from_secs(secs: i64) -> (r: Option<Timestamp>)
        ensures
            match r {
                Some(t) => in_range(secs as int) && t.secs_spec() == secs,
                None => !in_range(secs as int),
            },
    {
        if MIN_SECS <= secs && secs <= MAX_SECS {
            Some(Timestamp { secs })
        } else {
            None
        }
    }

    /// Seconds since 1970-01-01 00:00:00 UTC.
    pub fn timestamp(&self) -> (r: i64)
        ensures
            r == self.secs_spec(),
            in_range(r as int),
    {
        proof {
            use_type_invariant(self);
        }
        self.secs
    }
}

impl Default for Timestamp {
    /// 1970-01-01 00:00:00 UTC.
    fn default() -> (r: Timestamp)
        ensures
            r.secs_spec() == 0,
    {
        Timestamp { secs: 0 }
    }
}

/// What the UTC display of an instant gives, as `2015-05-15 00:00:00 UTC`.
pub uninterp spec fn utc_display(secs: int) -> Seq<char>;

/// Relies on chrono's `DateTime::<Utc>::from_timestamp`, which accepts every
/// second of the years 1 to 9999, and on its `Display`, whose text depends on
/// the instant alone.
#[verifier::external_body]
fn utc_text(secs: i64) -> (r: String)
    requires
        in_range(secs as int),
    ensures
        r@ == utc_display(secs as int),
{
    match chrono::DateTime::from_timestamp(secs, 0) {
        Some(t) => t.to_string(),
        None => String::new(),
    }
}

/// A browsed item.
#[derive(Default, Debug, Clone, PartialEq)]
pub struct BrowseItem {
    pub id: i64,
    pub filename: String,
    pub filesize: u64,
    pub time: Timestamp,
    pub indexed_time: Timestamp,
    pub owner_user_id: i64,
    pub folder_id: i64,
    pub type_field: String,
}

/// Whether `j` is an object with every member of an item, each of its kind;
/// the two times are in seconds and within the years 1 to 9999.
pub open spec fn item_decodable(j: Json) -> bool {
    match j {
        Json::Object(members) => {
            let m = members@;
            as_int_spec(lookup(m, "id"@)) is Some
                && as_int_spec(lookup(m, "owner_user_id"@)) is Some
                && as_int_spec(lookup(m, "folder_id"@)) is Some
                && as_str_spec(lookup(m, "filename"@)) is Some
                && as_str_spec(lookup(m, "type"@)) is Some
                && (as_int_spec(lookup(m, "filesize"@)) matches Some(n) && n >= 0)
                && (as_int_spec(lookup(m, "time"@)) matches Some(n) && in_range(n as int))
                && (as_int_spec(lookup(m, "indexed_time"@)) matches Some(n) && in_range(n as int))
        },
        _ => false,
    }
}

/// Whether each field of `b` is the value of the member of `j` of that name
/// (the member `type` for `type_field`).
pub open spec fn item_matches(b: BrowseItem, j: Json) -> bool {
    match j {
        Json::Object(members) => {
            let m = members@;
            as_int_spec(lookup(m, "id"@)) == Some(b.id)
                && as_int_spec(lookup(m, "owner_user_id"@)) == Some(b.owner_user_id)
                && as_int_spec(lookup(m, "folder_id"@)) == Some(b.folder_id)
                && as_str_spec(lookup(m, "filename"@)) == Some(b.filename@)
                && as_str_spec(lookup(m, "type"@)) == Some(b.type_field@)
                && as_int_spec(lookup(m, "filesize"@)) == Some(b.filesize as i64)
                && as_int_spec(lookup(m, "time"@)) == Some(b.time.secs_spec() as i64)
                && as_int_spec(lookup(m, "indexed_time"@)) == Some(b.indexed_time.secs_spec() as i64)
        },
        _ => false,
    }
}

impl BrowseItem {
    /// Decodes an item object.
    pub fn from_json(j: &Json) -> (r: Option<BrowseItem>)
        ensures
            match r {
                Some(b) => item_matches(b, *j),
                None => !item_decodable(*j),
            },
    {
        match j {
            Json::Object(members) => {
                let id = lookup_int(members, "id")?;
                let owner_user_id = lookup_int(members, "owner_user_id")?;
                let folder_id = lookup_int(members, "folder_id")?;
                let filename = lookup_str(members, "filename")?;
                let type_field = lookup_str(members, "type")?;
                let filesize = lookup_int(members, "filesize")?;
                if filesize < 0 {
                    return None;
                }
                let time = Timestamp::from_secs(lookup_int(members, "time")?)?;
                let indexed_time = Timestamp::from_secs(lookup_int(members, "indexed_time")?)?;
                Some(BrowseItem {
                    id, filename, filesize: filesize as u64, time, indexed_time, owner_user_id,
                    folder_id, type_field,
                })
            },
            _ => None,
        }
    }
}

/// A page of items.
#[derive(Debug, Clone)]
pub struct ListResponse {
    pub list: Vec<BrowseItem>,
}

/// Whether every document of `items` is an item.
pub open spec fn items_decodable(items: Seq<Json>) -> bool {
    forall|k: int| 0 <= k < items.len() ==> item_decodable(#[trigger] items[k])
}

/// Whether `list` is `items`, decoded one by one in order.
pub open spec fn items_match(list: Seq<BrowseItem>, items: Seq<Json>) -> bool {
    list.len() == items.len()
        && forall|k: int| 0 <= k < items.len() ==> item_matches(#[trigger] list[k], items[k])
}

/// Decodes each document of `items` as an item, in order.
pub fn items_from_json(items: &Vec<Json>) -> (r: Option<Vec<BrowseItem>>)
    ensures
        match r {
            Some(list) => items_match(list@, items@),
            None => !items_decodable(items@),
        },
{
    let mut out: Vec<BrowseItem> = Vec::new();
    let mut i: usize = 0;
    while i < items.len()
        invariant
            i <= items@.len(),
            out@.len() == i,
            forall|k: int| 0 <= k < i ==> item_matches(#[trigger] out@[k], items@[k]),
        decreases items@.len() - i,
    {
        match BrowseItem::from_json(&items[i]) {
            Some(b) => out.push(b),
            None => {
                assert(!item_decodable(items@[i as int]));
                return None;
            },
        }
        i = i + 1;
    }
    Some(out)
}

impl ListResponse {
    /// Decodes `{"list": [..]}`, each element an item.
    pub fn from_json(j: &Json) -> (r: Option<ListResponse>)
        ensures
            match *j {
                Json::Object(members) => match lookup(members@, "list"@) {
                    Some(Json::Array(items)) => match r {
                        Some(l) => items_match(l.list@, items@),
                        None => !items_decodable(items@),
                    },
                    _ => r is None,
                },
                _ => r is None,
            },
    {
        match j {
            Json::Object(members) => match find_member(members, "list") {
                Some(i) => match &members[i].1 {
                    Json::Array(items) => {
                        let list = items_from_json(items)?;
                        Some(ListResponse { list })
                    },
                    _ => None,
                },
                None => None,
            },
            _ => None,
        }
    }
}

/// A page of items taken between two instants.
#[derive(Debug, Clone, Default)]
pub struct ListRequest {
    pub offset: u32,
    pub limit: u32,
    pub start_time: Timestamp,
    pub end_time: Timestamp,
}

impl Request for ListRequest {
    open spec fn query_text(&self) -> Seq<char> {
        "api=SYNO.Foto.Browse.Item&method=list&version=1&offset="@ + digits(self.offset as nat)
            + "&limit="@ + digits(self.limit as nat)
            + "&start_time="@ + int_text(self.start_time.secs_spec())
            + "&end_time="@ + int_text(self.end_time.secs_spec())
    }

    fn query(&self) -> (r: String) {
        let mut out = String::new();
        out.append("api=SYNO.Foto.Browse.Item&method=list&version=1&offset=");
        push_nat(&mut out, self.offset as u64);
        out.append("&limit=");
        push_nat(&mut out, self.limit as u64);
        out.append("&start_time=");
        push_int(&mut out, self.start_time.timestamp());
        out.append("&end_time=");
        push_int(&mut out, self.end_time.timestamp());
        proof {
            assert(out@ =~= self.query_text());
        }
        out
    }
}

/// A page of items of the shared team space taken between two instants.
#[derive(Debug, Clone, Default)]
pub struct CommonListRequest {
    pub offset: u32,
    pub limit: u32,
    pub start_time: Timestamp,
    pub end_time: Timestamp,
}

/// The team-space query, given the two instants already written out.
pub open spec fn common_list_query_text(offset: u32, limit: u32, start: Seq<char>, end: Seq<char>) -> Seq<char> {
    "api=SYNO.FotoTeam.Browse.Item&method=list&version=1&offset="@ + digits(offset as nat)
        + "&limit="@ + digits(limit as nat) + "&start_time="@ + start + "&end_time="@ + end
}

impl CommonListRequest {
    /// The query, given the two instants already written out.
    pub fn query_with_times(&self, start: &str, end: &str) -> (r: String)
        ensures
            r@ == common_list_query_text(self.offset, self.limit, start@, end@),
    {
        let mut out = String::new();
        out.append("api=SYNO.FotoTeam.Browse.Item&method=list&version=1&offset=");
        push_nat(&mut out, self.offset as u64);
        out.append("&limit=");
        push_nat(&mut out, self.limit as u64);
        out.append("&start_time=");
        out.append(start);
        out.append("&end_time=");
        out.append(end);
        proof {
            assert(out@ =~= common_list_query_text(self.offset, self.limit, start@, end@));
        }
        out
    }
}

impl Request for CommonListRequest {
    open spec fn query_text(&self) -> Seq<char> {
        common_list_query_text(
            self.offset,
            self.limit,
            utc_display(self.start_time.secs_spec()),
            utc_display(self.end_time.secs_spec()),
        )
    }

    fn query(&self) -> (r: String) {
        let start = utc_text(self.start_time.timestamp());
        let end = utc_text(self.end_time.timestamp());
        self.query_with_times(start.as_str(), end.as_str())
    }
}

/// The album whose items are listed: one of the user's own by id, or a
/// shared one by its passphrase.
#[derive(Debug, Clone)]
pub enum AlbumId {
    Owned(i64),
    Shared(String),
}

/// The field that names an album.
pub open spec fn album_id_text(a: AlbumId) -> Seq<char> {
    match a {
        AlbumId::Owned(id) => "album_id="@ + int_text(id as int),
        AlbumId::Shared(pass) => "passphrase="@ + pass@,
    }
}

/// A page of the items of one album.
#[derive(Debug, Clone)]
pub struct AlbumRequest {
    pub offset: u32,
    pub limit: u32,
    pub album_id: AlbumId,
}

impl Request for AlbumRequest {
    open spec fn query_text(&self) -> Seq<char> {
        "api=SYNO.Foto.Browse.Item&method=list&version=1&"@ + album_id_text(self.album_id)
            + "&offset="@ + digits(self.offset as nat) + "&limit="@ + digits(self.limit as nat)
    }

    fn query(&self) -> (r: String) {
        let mut out = String::new();
        out.append("api=SYNO.Foto.Browse.Item&method=list&version=1&");
        match &self.album_id {
            AlbumId::Owned(id) => {
                out.append("album_id=");
                push_int(&mut out, *id);
            },
            AlbumId::Shared(pass) => {
                out.append("passphrase=");
                out.append(pass.as_str());
            },
        }
        out.append("&offset=");
        push_nat(&mut out, self.offset as u64);
        out.append("&limit=");
        push_nat(&mut out, self.limit as u64);
        proof {
            assert(out@ =~= self.query_text());
        }
        out
    }
}

} // verus!
