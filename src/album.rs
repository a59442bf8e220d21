//! Albums: creating one, adding items to one, and listing them.
use vstd::prelude::*;
use vstd::utf8::encode_utf8;

use crate::Request;
use crate::json::{Json, lookup, as_bool_spec, as_int_spec, as_str_spec, take_member, lookup_bool, lookup_int, lookup_str};
use crate::text::{digit_char, digits, int_text, list_text, push_int, push_list, push_nat};

verus! {

/// ASCII letters and digits and `-`, `.`, `_`, `~`: the bytes that
/// percent-encoding keeps as they are.
pub open spec fn is_unreserved(b: u8) -> bool {
    (0x30 <= b <= 0x39) || (0x41 <= b <= 0x5a) || (0x61 <= b <= 0x7a)
        || b == 0x2d || b == 0x2e || b == 0x5f || b == 0x7e
}

/// An upper-case hexadecimal digit.
pub open spec fn hex_digit(d: u8) -> char {
    if d < 10 {
        digit_char(d as nat)
    } else if d == 10 { 'A' } else if d == 11 { 'B' } else if d == 12 { 'C' }
    else if d == 13 { 'D' } else if d == 14 { 'E' } else { 'F' }
}

/// A byte as it stands in a percent-encoded text.
pub open spec fn byte_text(b: u8) -> Seq<char> {
    if is_unreserved(b) {
        seq![b as char]
    } else {
        seq!['%', hex_digit(b / 16), hex_digit(b % 16)]
    }
}

/// The percent-encoding of a byte string.
pub open spec fn percent_encoded(bytes: Seq<u8>) -> Seq<char>
    decreases bytes.len(),
{
    if bytes.len() == 0 {
        Seq::empty()
    } else {
        percent_encoded(bytes.drop_last()) + byte_text(bytes.last())
    }
}

/// The percent-encoding of the UTF-8 bytes of a text.
pub open spec fn url_encoded(s: Seq<char>) -> Seq<char> {
    percent_encoded(encode_utf8(s))
}

/// Relies on urlencoding::encode: it writes each UTF-8 byte of the text as
/// it is when it is an ASCII alphanumeric or one of `-`, `.`, `_`, `~`, and
/// as `%` with two upper-case hexadecimal digits otherwise.
#[verifier::external_body]
fn url_encode(s: &str) -> (r: String)
    ensures
        r@ == url_encoded(s@),
{
    urlencoding::encode(s).into_owned()
}

/// A request to create an album named `name` holding the given items.
#[derive(Debug, Clone)]
pub struct CreateRequest {
    pub name: String,
    pub items: Vec<i64>,
}

/// The creation query, given the album name already percent-encoded.
pub open spec fn create_query_text(encoded_name: Seq<char>, items: Seq<i64>) -> Seq<char> {
    "api=SYNO.Foto.Browse.NormalAlbum&method=create&version=1&name="@ + encoded_name
        + "&item="@ + list_text(items)
}

impl CreateRequest {
    /// The query, given the album name already percent-encoded.
    pub fn query_with_encoded_name(encoded_name: &str, items: &Vec<i64>) -> (r: String)
        ensures
            r@ == create_query_text(encoded_name@, items@),
    {
        let mut out = String::new();
        out.append("api=SYNO.Foto.Browse.NormalAlbum&method=create&version=1&name=");
        out.append(encoded_name);
        out.append("&item=");
        push_list(&mut out, items);
        proof {
            assert(out@ =~= create_query_text(encoded_name@, items@));
        }
        out
    }
}

impl Request for CreateRequest {
    open spec fn query_text(&self) -> Seq<char> {
        create_query_text(url_encoded(self.name@), self.items@)
    }

    fn query(&self) -> (r: String) {
        let name = url_encode(self.name.as_str());
        CreateRequest::query_with_encoded_name(name.as_str(), &self.items)
    }
}

/// Where items are added: an album of one's own by id, or a shared album by
/// its passphrase.
#[derive(Debug, Clone)]
pub enum Destination {
    Owned(i64),
    Shared(String),
}

/// The field that names a destination.
pub open spec fn destination_text(d: Destination) -> Seq<char> {
    match d {
        Destination::Owned(id) => "id="@ + int_text(id as int),
        Destination::Shared(token) => "passphrase="@ + token@,
    }
}

/// Appends the field that names a destination.
fn push_destination(out: &mut String, d: &Destination)
    ensures
        final(out)@ == old(out)@ + destination_text(*d),
{
    match d {
        Destination::Owned(id) => {
            out.append("id=");
            push_int(out, *id);
        },
        Destination::Shared(token) => {
            out.append("passphrase=");
            out.append(token.as_str());
        },
    }
    proof {
        assert(final(out)@ =~= old(out)@ + destination_text(*d));
    }
}

/// A request to add items to an album.
#[derive(Debug, Clone)]
pub struct AddItemsRequest {
    destination: Destination,
    items: Vec<i64>,
}

impl AddItemsRequest {
    /// A request to add `items` to `destination`.
    pub fn new(destination: Destination, items: Vec<i64>) -> (r: AddItemsRequest)
        ensures
            r.destination_spec() == destination,
            r.items_spec() == items@,
    {
        AddItemsRequest { destination, items }
    }

    /// Where the items go.
    pub closed spec fn destination_spec(&self) -> Destination {
        self.destination
    }

    /// The ids of the items added.
    pub closed spec fn items_spec(&self) -> Seq<i64> {
        self.items@
    }
}

impl Request for AddItemsRequest {
    open spec fn query_text(&self) -> Seq<char> {
        "api=SYNO.Foto.Browse.NormalAlbum&method=add_item&version=1&item="@ + list_text(self.items_spec())
            + "&"@ + destination_text(self.destination_spec())
    }

    fn query(&self) -> (r: String) {
        let mut out = String::new();
        out.append("api=SYNO.Foto.Browse.NormalAlbum&method=add_item&version=1&item=");
        push_list(&mut out, &self.items);
        out.append("&");
        push_destination(&mut out, &self.destination);
        proof {
            assert(out@ =~= self.query_text());
        }
        out
    }
}

/// A page of one's own albums.
#[derive(Default, Debug, Clone)]
pub struct ListRequest {
    pub offset: u32,
    pub limit: u32,
}

impl Request for ListRequest {
    open spec fn query_text(&self) -> Seq<char> {
        "api=SYNO.Foto.Browse.Album&method=list&version=2&offset="@ + digits(self.offset as nat)
            + "&limit="@ + digits(self.limit as nat)
    }

    fn query(&self) -> (r: String) {
        let mut out = String::new();
        out.append("api=SYNO.Foto.Browse.Album&method=list&version=2&offset=");
        push_nat(&mut out, self.offset as u64);
        out.append("&limit=");
        push_nat(&mut out, self.limit as u64);
        proof {
            assert(out@ =~= self.query_text());
        }
        out
    }
}

/// A page of the albums that others share with the user.
#[derive(Default, Debug, Clone)]
pub struct ListSharedRequest {
    pub offset: u32,
    pub limit: u32,
}

impl Request for ListSharedRequest {
    open spec fn query_text(&self) -> Seq<char> {
        "api=SYNO.Foto.Sharing.Misc&method=list_shared_with_me_album&version=2&offset="@
            + digits(self.offset as nat) + "&limit="@ + digits(self.limit as nat)
    }

    fn query(&self) -> (r: String) {
        let mut out = String::new();
        out.append("api=SYNO.Foto.Sharing.Misc&method=list_shared_with_me_album&version=2&offset=");
        push_nat(&mut out, self.offset as u64);
        out.append("&limit=");
        push_nat(&mut out, self.limit as u64);
        proof {
            assert(out@ =~= self.query_text());
        }
        out
    }
}

/// An album as the service describes it.
#[derive(Debug)]
pub struct Album {
    pub cant_migrate_condition: Json,
    pub create_time: i64,
    pub end_time: i64,
    pub freeze_album: bool,
    pub id: i64,
    pub item_count: i64,
    pub name: String,
    pub owner_user_id: i64,
    pub passphrase: String,
    pub shared: bool,
    pub sort_by: String,
    pub sort_direction: String,
    pub start_time: i64,
    pub temporary_shared: bool,
    pub type_field: String,
    pub version: i64,
}

/// Whether `j` is an object with every member of an album, each of its kind.
pub open spec fn album_decodable(j: Json) -> bool {
    match j {
        Json::Object(members) => {
            let m = members@;
            as_int_spec(lookup(m, "create_time"@)) is Some
                && as_int_spec(lookup(m, "end_time"@)) is Some
                && as_int_spec(lookup(m, "id"@)) is Some
                && as_int_spec(lookup(m, "item_count"@)) is Some
                && as_int_spec(lookup(m, "owner_user_id"@)) is Some
                && as_int_spec(lookup(m, "start_time"@)) is Some
                && as_int_spec(lookup(m, "version"@)) is Some
                && as_bool_spec(lookup(m, "freeze_album"@)) is Some
                && as_bool_spec(lookup(m, "shared"@)) is Some
                && as_bool_spec(lookup(m, "temporary_shared"@)) is Some
                && as_str_spec(lookup(m, "name"@)) is Some
                && as_str_spec(lookup(m, "passphrase"@)) is Some
                && as_str_spec(lookup(m, "sort_by"@)) is Some
                && as_str_spec(lookup(m, "sort_direction"@)) is Some
                && as_str_spec(lookup(m, "type"@)) is Some
                && lookup(m, "cant_migrate_condition"@) is Some
        },
        _ => false,
    }
}

/// Whether each field of `a` is the value of the member of `j` of that name
/// (the member `type` for `type_field`).
pub open spec fn album_matches(a: Album, j: Json) -> bool {
    match j {
        Json::Object(members) => {
            let m = members@;
            as_int_spec(lookup(m, "create_time"@)) == Some(a.create_time)
                && as_int_spec(lookup(m, "end_time"@)) == Some(a.end_time)
                && as_int_spec(lookup(m, "id"@)) == Some(a.id)
                && as_int_spec(lookup(m, "item_count"@)) == Some(a.item_count)
                && as_int_spec(lookup(m, "owner_user_id"@)) == Some(a.owner_user_id)
                && as_int_spec(lookup(m, "start_time"@)) == Some(a.start_time)
                && as_int_spec(lookup(m, "version"@)) == Some(a.version)
                && as_bool_spec(lookup(m, "freeze_album"@)) == Some(a.freeze_album)
                && as_bool_spec(lookup(m, "shared"@)) == Some(a.shared)
                && as_bool_spec(lookup(m, "temporary_shared"@)) == Some(a.temporary_shared)
                && as_str_spec(lookup(m, "name"@)) == Some(a.name@)
                && as_str_spec(lookup(m, "passphrase"@)) == Some(a.passphrase@)
                && as_str_spec(lookup(m, "sort_by"@)) == Some(a.sort_by@)
                && as_str_spec(lookup(m, "sort_direction"@)) == Some(a.sort_direction@)
                && as_str_spec(lookup(m, "type"@)) == Some(a.type_field@)
                && lookup(m, "cant_migrate_condition"@) == Some(a.cant_migrate_condition)
        },
        _ => false,
    }
}

impl Album {
    /// Decodes an album object.
    pub fn from_json(j: Json) -> (r: Option<Album>)
        ensures
            match r {
                Some(a) => album_matches(a, j),
                None => !album_decodable(j),
            },
    {
        match j {
            Json::Object(members) => {
                let mut members = members;
                let create_time = lookup_int(&members, "create_time")?;
                let end_time = lookup_int(&members, "end_time")?;
                let id = lookup_int(&members, "id")?;
                let item_count = lookup_int(&members, "item_count")?;
                let owner_user_id = lookup_int(&members, "owner_user_id")?;
                let start_time = lookup_int(&members, "start_time")?;
                let version = lookup_int(&members, "version")?;
                let freeze_album = lookup_bool(&members, "freeze_album")?;
                let shared = lookup_bool(&members, "shared")?;
                let temporary_shared = lookup_bool(&members, "temporary_shared")?;
                let name = lookup_str(&members, "name")?;
                let passphrase = lookup_str(&members, "passphrase")?;
                let sort_by = lookup_str(&members, "sort_by")?;
                let sort_direction = lookup_str(&members, "sort_direction")?;
                let type_field = lookup_str(&members, "type")?;
                let cant_migrate_condition = take_member(&mut members, "cant_migrate_condition")?;
                Some(Album {
                    cant_migrate_condition, create_time, end_time, freeze_album, id, item_count, name,
                    owner_user_id, passphrase, shared, sort_by, sort_direction, start_time,
                    temporary_shared, type_field, version,
                })
            },
            _ => None,
        }
    }
}

/// The payload of a successful album creation.
#[derive(Debug)]
pub struct CreateResponse {
    pub album: Album,
    pub error_list: Vec<Json>,
}

/// Whether `j` holds an album and an array `error_list`.
pub open spec fn create_response_decodable(j: Json) -> bool {
    match j {
        Json::Object(members) => (lookup(members@, "album"@) matches Some(a) && album_decodable(a))
            && lookup(members@, "error_list"@) matches Some(Json::Array(_)),
        _ => false,
    }
}

/// Whether `c` is what `j` decodes to.
pub open spec fn create_response_matches(c: CreateResponse, j: Json) -> bool {
    match j {
        Json::Object(members) => (lookup(members@, "album"@) matches Some(a) && album_matches(c.album, a))
            && lookup(members@, "error_list"@) == Some(Json::Array(c.error_list)),
        _ => false,
    }
}

impl CreateResponse {
    /// Decodes `{"album": .., "error_list": [..]}`.
    pub fn from_json(j: Json) -> (r: Option<CreateResponse>)
        ensures
            match r {
                Some(c) => create_response_matches(c, j),
                None => !create_response_decodable(j),
            },
    {
        match j {
            Json::Object(members) => {
                let mut members = members;
                proof {
                    reveal_strlit("album");
                    reveal_strlit("error_list");
                    assert("album"@[0] != "error_list"@[0]);
                }
                let album = take_member(&mut members, "album")?;
                let album = Album::from_json(album)?;
                match take_member(&mut members, "error_list")? {
                    Json::Array(error_list) => Some(CreateResponse { album, error_list }),
                    _ => None,
                }
            },
            _ => None,
        }
    }
}

/// The payload of a successful addition of items.
#[derive(Debug)]
pub struct AddItemsResponse {
    pub error_list: Vec<Json>,
}

impl AddItemsResponse {
    /// Decodes `{"error_list": [..]}`.
    pub fn from_json(j: Json) -> (r: Option<AddItemsResponse>)
        ensures
            match j {
                Json::Object(members) => match lookup(members@, "error_list"@) {
                    Some(Json::Array(items)) => r matches Some(a) && a.error_list == items,
                    _ => r is None,
                },
                _ => r is None,
            },
    {
        match j {
            Json::Object(members) => {
                let mut members = members;
                match take_member(&mut members, "error_list")? {
                    Json::Array(error_list) => Some(AddItemsResponse { error_list }),
                    _ => None,
                }
            },
            _ => None,
        }
    }
}

/// A page of albums.
#[derive(Debug)]
pub struct ListResponse {
    pub list: Vec<Album>,
}

/// Whether every document of `items` is an album.
pub open spec fn albums_decodable(items: Seq<Json>) -> bool {
    forall|k: int| 0 <= k < items.len() ==> album_decodable(#[trigger] items[k])
}

/// Whether `albums` are `items`, decoded one by one in order.
pub open spec fn albums_match(albums: Seq<Album>, items: Seq<Json>) -> bool {
    albums.len() == items.len()
        && forall|k: int| 0 <= k < items.len() ==> album_matches(#[trigger] albums[k], items[k])
}

/// Decodes each document of `items` as an album, in order.
pub fn albums_from_json(items: Vec<Json>) -> (r: Option<Vec<Album>>)
    ensures
        match r {
            Some(albums) => albums_match(albums@, items@),
            None => !albums_decodable(items@),
        },
{
    let ghost all = items@;
    let mut rest = items;
    let mut out: Vec<Album> = Vec::new();
    while rest.len() > 0
        invariant
            all == items@,
            out@.len() + rest@.len() == all.len(),
            rest@ == all.subrange(out@.len() as int, all.len() as int),
            forall|k: int| 0 <= k < out@.len() ==> album_matches(#[trigger] out@[k], all[k]),
        decreases rest@.len(),
    {
        let j = rest.remove(0);
        let ghost at = out@.len() as int;
        assert(j == all[at]);
        match Album::from_json(j) {
            Some(a) => {
                out.push(a);
                assert(rest@ =~= all.subrange(out@.len() as int, all.len() as int));
            },
            None => {
                assert(!album_decodable(all[at]));
                assert(at < all.len());
                assert(!albums_decodable(all));
                return None;
            },
        }
    }
    Some(out)
}

impl ListResponse {
    /// Decodes `{"list": [..]}`, each item an album.
    pub fn from_json(j: Json) -> (r: Option<ListResponse>)
        ensures
            match j {
                Json::Object(members) => match lookup(members@, "list"@) {
                    Some(Json::Array(items)) => match r {
                        Some(l) => albums_match(l.list@, items@),
                        None => !albums_decodable(items@),
                    },
                    _ => r is None,
                },
                _ => r is None,
            },
    {
        match j {
            Json::Object(members) => {
                let mut members = members;
                match take_member(&mut members, "list")? {
                    Json::Array(items) => {
                        let list = albums_from_json(items)?;
                        Some(ListResponse { list })
                    },
                    _ => None,
                }
            },
            _ => None,
        }
    }
}

} // verus!
