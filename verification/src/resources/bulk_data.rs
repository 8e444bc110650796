//! Bulk data resource definitions.

use vstd::prelude::*;

use crate::json::{jobj_get, jpairs_of, lemma_jobj_get_at, lemma_jpairs_of_index,
    lemma_jpairs_of_len, lemma_jvals_of_index, lemma_jvals_of_len, JVal, JsonValue};
use crate::model::{field_like, read_field, ApiModel, TimestampText, UrlText};
use crate::resources::{lemma_kind_str_injective, HttpResource, Method, ResourceKind};
use crate::text::str_eq;

verus! {

broadcast use lemma_jpairs_of_len, lemma_jpairs_of_index, lemma_jvals_of_len, lemma_jvals_of_index;

/// Endpoints for the `bulk-data` resource (list).
pub enum BulkDataListResource {
    /// Binding for endpoint `GET bulk-data`.
    All,
}

/// Endpoints for single `bulk-data` entries.
pub enum BulkDataResource<'a> {
    /// Binding for `GET bulk-data/:id` and `GET bulk-data/:type`.
    ///
    /// The vendor exposes two endpoints, but both filter by one value, so
    /// one binding covers them.
    Filter(&'a str),
}

impl HttpResource<BulkDataList> for BulkDataListResource {
    open spec fn spec_method(&self) -> Method {
        Method::Get
    }

    open spec fn spec_path(&self) -> Seq<char> {
        "bulk-data"@
    }

    open spec fn spec_body(&self) -> Option<Seq<char>> {
        None
    }

    fn method(&self) -> (m: Method) {
        Method::Get
    }

    fn path(&self) -> (p: String) {
        String::from_str("bulk-data")
    }

    fn json(&self) -> (b: Option<String>) {
        None
    }
}

impl<'a> HttpResource<BulkData> for BulkDataResource<'a> {
    open spec fn spec_method(&self) -> Method {
        Method::Get
    }

    open spec fn spec_path(&self) -> Seq<char> {
        match *self {
            BulkDataResource::Filter(by) => "bulk-data/"@ + by@,
        }
    }

    open spec fn spec_body(&self) -> Option<Seq<char>> {
        None
    }

    fn method(&self) -> (m: Method) {
        Method::Get
    }

    fn path(&self) -> (p: String) {
        match self {
            BulkDataResource::Filter(by) => {
                let p = String::from_str("bulk-data/").concat(by);
                proof {
                    assert(p@ =~= self.spec_path());
                }
                p
            },
        }
    }

    fn json(&self) -> (b: Option<String>) {
        None
    }
}

/// Kind of bulk data; the vendor's `type` member of an entry.
#[derive(Clone, Copy, Debug, PartialEq, Eq, Structural)]
pub enum BulkDataKind {
    AllCards,
    DefaultCards,
    OracleCards,
    Rulings,
    UniqueArtwork,
}

/// The wire text of each `BulkDataKind` value.
pub open spec fn bulk_data_kind_str(k: BulkDataKind) -> Seq<char> {
    match k {
        BulkDataKind::AllCards => "all_cards"@,
        BulkDataKind::DefaultCards => "default_cards"@,
        BulkDataKind::OracleCards => "oracle_cards"@,
        BulkDataKind::Rulings => "rulings"@,
        BulkDataKind::UniqueArtwork => "unique_artwork"@,
    }
}

/// The `BulkDataKind` value a wire text names, if any.
pub open spec fn bulk_data_kind_of_str(s: Seq<char>) -> Option<BulkDataKind> {
    if s == "all_cards"@ {
        Some(BulkDataKind::AllCards)
    } else if s == "default_cards"@ {
        Some(BulkDataKind::DefaultCards)
    } else if s == "oracle_cards"@ {
        Some(BulkDataKind::OracleCards)
    } else if s == "rulings"@ {
        Some(BulkDataKind::Rulings)
    } else if s == "unique_artwork"@ {
        Some(BulkDataKind::UniqueArtwork)
    } else {
        None
    }
}

/// The text that names a value reads back as that value.
pub proof fn lemma_bulk_data_kind_decode(k: BulkDataKind)
    ensures
        bulk_data_kind_of_str(bulk_data_kind_str(k)) == Some(k),
{
    reveal_strlit("all_cards");
    reveal_strlit("default_cards");
    reveal_strlit("oracle_cards");
    reveal_strlit("rulings");
    reveal_strlit("unique_artwork");
    assert("all_cards"@.len() == 9 && "all_cards"@[0] == 'a');
    assert("default_cards"@.len() == 13 && "default_cards"@[0] == 'd');
    assert("oracle_cards"@.len() == 12 && "oracle_cards"@[0] == 'o');
    assert("rulings"@.len() == 7 && "rulings"@[0] == 'r');
    assert("unique_artwork"@.len() == 14 && "unique_artwork"@[0] == 'u');
    match k {
        BulkDataKind::AllCards => assert(bulk_data_kind_of_str(bulk_data_kind_str(k)) == Some(k)),
        BulkDataKind::DefaultCards => assert(bulk_data_kind_of_str(bulk_data_kind_str(k)) == Some(k)),
        BulkDataKind::OracleCards => assert(bulk_data_kind_of_str(bulk_data_kind_str(k)) == Some(k)),
        BulkDataKind::Rulings => assert(bulk_data_kind_of_str(bulk_data_kind_str(k)) == Some(k)),
        BulkDataKind::UniqueArtwork => assert(bulk_data_kind_of_str(bulk_data_kind_str(k)) == Some(k)),
    }
}

/// Distinct values are named by distinct texts.
pub proof fn lemma_bulk_data_kind_str_injective(a: BulkDataKind, b: BulkDataKind)
    requires
        bulk_data_kind_str(a) == bulk_data_kind_str(b),
    ensures
        a == b,
{
    lemma_bulk_data_kind_decode(a);
    lemma_bulk_data_kind_decode(b);
}

impl BulkDataKind {
    /// The wire text for this value.
    pub fn as_str(&self) -> (r: &'static str)
        ensures
            r@ == bulk_data_kind_str(*self),
    {
        match self {
            BulkDataKind::AllCards => "all_cards",
            BulkDataKind::DefaultCards => "default_cards",
            BulkDataKind::OracleCards => "oracle_cards",
            BulkDataKind::Rulings => "rulings",
            BulkDataKind::UniqueArtwork => "unique_artwork",
        }
    }
}

impl ApiModel for BulkDataKind {
    open spec fn inv(&self) -> bool {
        true
    }

    open spec fn matches_tree(&self, t: JVal) -> bool {
        t == JVal::Str(bulk_data_kind_str(*self))
    }

    open spec fn tree_spec(&self) -> JVal {
        JVal::Str(bulk_data_kind_str(*self))
    }

    fn from_tree(t: &JsonValue) -> (r: Option<Self>) {
        match t {
            JsonValue::Str(s) => {
                if str_eq(s.as_str(), "all_cards") {
                    Some(BulkDataKind::AllCards)
                } else if str_eq(s.as_str(), "default_cards") {
                    Some(BulkDataKind::DefaultCards)
                } else if str_eq(s.as_str(), "oracle_cards") {
                    Some(BulkDataKind::OracleCards)
                } else if str_eq(s.as_str(), "rulings") {
                    Some(BulkDataKind::Rulings)
                } else if str_eq(s.as_str(), "unique_artwork") {
                    Some(BulkDataKind::UniqueArtwork)
                } else {
                    None
                }
            },
            _ => None,
        }
    }

    fn to_tree(&self) -> (t: JsonValue) {
        JsonValue::Str(self.as_str().to_owned())
    }
}

/// A bulk data entry.
#[derive(Debug)]
pub struct BulkData {
    pub item_kind: ResourceKind,
    pub id: String,
    pub kind: BulkDataKind,
    pub updated_at: TimestampText,
    pub uri: UrlText,
    pub name: String,
    pub description: String,
    pub compressed_size: i64,
    pub download_uri: UrlText,
    pub content_type: String,
    pub content_encoding: String,
}

/// The members of the tree a BulkData encodes to, in wire order.
pub open spec fn bulk_data_pairs(m: BulkData) -> Seq<(Seq<char>, JVal)> {
    seq![
        ("object"@, m.item_kind.tree_spec()),
        ("id"@, m.id.tree_spec()),
        ("type"@, m.kind.tree_spec()),
        ("updated_at"@, m.updated_at.tree_spec()),
        ("uri"@, m.uri.tree_spec()),
        ("name"@, m.name.tree_spec()),
        ("description"@, m.description.tree_spec()),
        ("compressed_size"@, m.compressed_size.tree_spec()),
        ("download_uri"@, m.download_uri.tree_spec()),
        ("content_type"@, m.content_type.tree_spec()),
        ("content_encoding"@, m.content_encoding.tree_spec()),
    ]
}

impl ApiModel for BulkData {
    open spec fn inv(&self) -> bool {
        &&& self.updated_at.inv()
        &&& self.uri.inv()
        &&& self.download_uri.inv()
    }

    open spec fn matches_tree(&self, t: JVal) -> bool {
        &&& t matches JVal::Obj(ps)
        &&& field_like(ps, "object"@, self.item_kind)
        &&& field_like(ps, "id"@, self.id)
        &&& field_like(ps, "type"@, self.kind)
        &&& field_like(ps, "updated_at"@, self.updated_at)
        &&& field_like(ps, "uri"@, self.uri)
        &&& field_like(ps, "name"@, self.name)
        &&& field_like(ps, "description"@, self.description)
        &&& field_like(ps, "compressed_size"@, self.compressed_size)
        &&& field_like(ps, "download_uri"@, self.download_uri)
        &&& field_like(ps, "content_type"@, self.content_type)
        &&& field_like(ps, "content_encoding"@, self.content_encoding)
    }

    open spec fn tree_spec(&self) -> JVal {
        JVal::Obj(bulk_data_pairs(*self))
    }

    fn from_tree(t: &JsonValue) -> (r: Option<Self>) {
        match t {
            JsonValue::Obj(ps) => {
                proof {
                    assert(t@ == JVal::Obj(jpairs_of(ps@)));
                }
                let item_kind = match read_field::<ResourceKind>(ps, "object") {
                    Some(x) => x,
                    None => {
                        return None;
                    },
                };
                let id = match read_field::<String>(ps, "id") {
                    Some(x) => x,
                    None => {
                        return None;
                    },
                };
                let kind = match read_field::<BulkDataKind>(ps, "type") {
                    Some(x) => x,
                    None => {
                        return None;
                    },
                };
                let updated_at = match read_field::<TimestampText>(ps, "updated_at") {
                    Some(x) => x,
                    None => {
                        return None;
                    },
                };
                let uri = match read_field::<UrlText>(ps, "uri") {
                    Some(x) => x,
                    None => {
                        return None;
                    },
                };
                let name = match read_field::<String>(ps, "name") {
                    Some(x) => x,
                    None => {
                        return None;
                    },
                };
                let description = match read_field::<String>(ps, "description") {
                    Some(x) => x,
                    None => {
                        return None;
                    },
                };
                let compressed_size = match read_field::<i64>(ps, "compressed_size") {
                    Some(x) => x,
                    None => {
                        return None;
                    },
                };
                let download_uri = match read_field::<UrlText>(ps, "download_uri") {
                    Some(x) => x,
                    None => {
                        return None;
                    },
                };
                let content_type = match read_field::<String>(ps, "content_type") {
                    Some(x) => x,
                    None => {
                        return None;
                    },
                };
                let content_encoding = match read_field::<String>(ps, "content_encoding") {
                    Some(x) => x,
                    None => {
                        return None;
                    },
                };
                Some(BulkData { item_kind, id, kind, updated_at, uri, name, description, compressed_size, download_uri, content_type, content_encoding })
            },
            _ => None,
        }
    }

    fn to_tree(&self) -> (t: JsonValue) {
        let mut ps: Vec<(String, JsonValue)> = Vec::new();
        ps.push(("object".to_owned(), self.item_kind.to_tree()));
        ps.push(("id".to_owned(), self.id.to_tree()));
        ps.push(("type".to_owned(), self.kind.to_tree()));
        ps.push(("updated_at".to_owned(), self.updated_at.to_tree()));
        ps.push(("uri".to_owned(), self.uri.to_tree()));
        ps.push(("name".to_owned(), self.name.to_tree()));
        ps.push(("description".to_owned(), self.description.to_tree()));
        ps.push(("compressed_size".to_owned(), self.compressed_size.to_tree()));
        ps.push(("download_uri".to_owned(), self.download_uri.to_tree()));
        ps.push(("content_type".to_owned(), self.content_type.to_tree()));
        ps.push(("content_encoding".to_owned(), self.content_encoding.to_tree()));
        let r = JsonValue::Obj(ps);
        proof {
            assert(jpairs_of(ps@) =~= bulk_data_pairs(*self));
        }
        r
    }
}

/// Law: the canonical tree of a valid BulkData carries exactly
/// that value, so decoding what it encodes to yields its data back.
pub proof fn lemma_bulk_data_round_trip(m: BulkData)
    ensures
        m.inv() ==> m.matches_tree(m.tree_spec()),
{
    if m.inv() {
        reveal_strlit("object");
        reveal_strlit("id");
        reveal_strlit("type");
        reveal_strlit("updated_at");
        reveal_strlit("uri");
        reveal_strlit("name");
        reveal_strlit("description");
        reveal_strlit("compressed_size");
        reveal_strlit("download_uri");
        reveal_strlit("content_type");
        reveal_strlit("content_encoding");
        assert("object"@.len() == 6 && "object"@[0] == 'o');
        assert("id"@.len() == 2 && "id"@[0] == 'i');
        assert("type"@.len() == 4 && "type"@[0] == 't');
        assert("updated_at"@.len() == 10 && "updated_at"@[0] == 'u');
        assert("uri"@.len() == 3 && "uri"@[0] == 'u');
        assert("name"@.len() == 4 && "name"@[0] == 'n');
        assert("description"@.len() == 11 && "description"@[0] == 'd');
        assert("compressed_size"@.len() == 15 && "compressed_size"@[0] == 'c');
        assert("download_uri"@.len() == 12 && "download_uri"@[0] == 'd');
        assert("content_type"@.len() == 12 && "content_type"@[0] == 'c');
        assert("content_encoding"@.len() == 16 && "content_encoding"@[0] == 'c');
        let ps = bulk_data_pairs(m);
        assert(ps[0].0 == "object"@);
        assert(ps[1].0 == "id"@);
        assert(ps[2].0 == "type"@);
        assert(ps[3].0 == "updated_at"@);
        assert(ps[4].0 == "uri"@);
        assert(ps[5].0 == "name"@);
        assert(ps[6].0 == "description"@);
        assert(ps[7].0 == "compressed_size"@);
        assert(ps[8].0 == "download_uri"@);
        assert(ps[9].0 == "content_type"@);
        assert(ps[10].0 == "content_encoding"@);
        lemma_jobj_get_at(ps, "object"@, 0);
        lemma_jobj_get_at(ps, "id"@, 1);
        lemma_jobj_get_at(ps, "type"@, 2);
        lemma_jobj_get_at(ps, "updated_at"@, 3);
        lemma_jobj_get_at(ps, "uri"@, 4);
        lemma_jobj_get_at(ps, "name"@, 5);
        lemma_jobj_get_at(ps, "description"@, 6);
        lemma_jobj_get_at(ps, "compressed_size"@, 7);
        lemma_jobj_get_at(ps, "download_uri"@, 8);
        lemma_jobj_get_at(ps, "content_type"@, 9);
        lemma_jobj_get_at(ps, "content_encoding"@, 10);
    }
}

impl BulkData {
    /// Two values carry the same data: every member reads back equal.
    pub open spec fn same_data(&self, other: &BulkData) -> bool {
        &&& self.item_kind == other.item_kind
        &&& self.id@ == other.id@
        &&& self.kind == other.kind
        &&& self.updated_at.0@ == other.updated_at.0@
        &&& self.uri.0@ == other.uri.0@
        &&& self.name@ == other.name@
        &&& self.description@ == other.description@
        &&& self.compressed_size == other.compressed_size
        &&& self.download_uri.0@ == other.download_uri.0@
        &&& self.content_type@ == other.content_type@
        &&& self.content_encoding@ == other.content_encoding@
    }
}

/// Law: a tree determines the data it carries; two values matching one
/// tree carry the same data.
pub proof fn lemma_bulk_data_decode_functional(a: BulkData, b: BulkData, t: JVal)
    ensures
        a.matches_tree(t) && b.matches_tree(t) ==> a.same_data(&b),
{
    if a.matches_tree(t) && b.matches_tree(t) {
        let ps = t->Obj_0;
        lemma_kind_str_injective(a.item_kind, b.item_kind);
        lemma_bulk_data_kind_str_injective(a.kind, b.kind);
    }
}

/// Basic struct representing a bulk data list.
#[derive(Debug)]
pub struct BulkDataList {
    pub kind: ResourceKind,
    pub has_more: bool,
    pub data: Vec<BulkData>,
}

/// The members of the tree a BulkDataList encodes to, in wire order.
pub open spec fn bulk_data_list_pairs(m: BulkDataList) -> Seq<(Seq<char>, JVal)> {
    seq![
        ("object"@, m.kind.tree_spec()),
        ("has_more"@, m.has_more.tree_spec()),
        ("data"@, m.data.tree_spec()),
    ]
}

impl ApiModel for BulkDataList {
    open spec fn inv(&self) -> bool {
        self.data.inv()
    }

    open spec fn matches_tree(&self, t: JVal) -> bool {
        &&& t matches JVal::Obj(ps)
        &&& field_like(ps, "object"@, self.kind)
        &&& field_like(ps, "has_more"@, self.has_more)
        &&& field_like(ps, "data"@, self.data)
    }

    open spec fn tree_spec(&self) -> JVal {
        JVal::Obj(bulk_data_list_pairs(*self))
    }

    fn from_tree(t: &JsonValue) -> (r: Option<Self>) {
        match t {
            JsonValue::Obj(ps) => {
                proof {
                    assert(t@ == JVal::Obj(jpairs_of(ps@)));
                }
                let kind = match read_field::<ResourceKind>(ps, "object") {
                    Some(x) => x,
                    None => {
                        return None;
                    },
                };
                let has_more = match read_field::<bool>(ps, "has_more") {
                    Some(x) => x,
                    None => {
                        return None;
                    },
                };
                let data = match read_field::<Vec<BulkData>>(ps, "data") {
                    Some(x) => x,
                    None => {
                        return None;
                    },
                };
                Some(BulkDataList { kind, has_more, data })
            },
            _ => None,
        }
    }

    fn to_tree(&self) -> (t: JsonValue) {
        let mut ps: Vec<(String, JsonValue)> = Vec::new();
        ps.push(("object".to_owned(), self.kind.to_tree()));
        ps.push(("has_more".to_owned(), self.has_more.to_tree()));
        ps.push(("data".to_owned(), self.data.to_tree()));
        let r = JsonValue::Obj(ps);
        proof {
            assert(jpairs_of(ps@) =~= bulk_data_list_pairs(*self));
        }
        r
    }
}

/// Law: the canonical tree of a valid BulkDataList carries exactly
/// that value, so decoding what it encodes to yields its data back.
pub proof fn lemma_bulk_data_list_round_trip(m: BulkDataList)
    ensures
        m.inv() ==> m.matches_tree(m.tree_spec()),
{
    if m.inv() {
        reveal_strlit("object");
        reveal_strlit("has_more");
        reveal_strlit("data");
        assert("object"@.len() == 6 && "object"@[0] == 'o');
        assert("has_more"@.len() == 8 && "has_more"@[0] == 'h');
        assert("data"@.len() == 4 && "data"@[0] == 'd');
        let ps = bulk_data_list_pairs(m);
        assert(ps[0].0 == "object"@);
        assert(ps[1].0 == "has_more"@);
        assert(ps[2].0 == "data"@);
        lemma_jobj_get_at(ps, "object"@, 0);
        lemma_jobj_get_at(ps, "has_more"@, 1);
        lemma_jobj_get_at(ps, "data"@, 2);
        let tv = m.data@.map_values(|x: BulkData| x.tree_spec());
        assert forall|i2: int| 0 <= i2 < tv.len() implies (#[trigger] m.data@[i2]).matches_tree(tv[i2]) by {
            lemma_bulk_data_round_trip(m.data@[i2]);
        }
        assert(m.data.matches_tree(m.data.tree_spec()));
    }
}

impl BulkDataList {
    /// Two values carry the same data: every member reads back equal.
    pub open spec fn same_data(&self, other: &BulkDataList) -> bool {
        &&& self.kind == other.kind
        &&& self.has_more == other.has_more
        &&& self.data@.len() == other.data@.len() && (forall|i: int| 0 <= i < self.data@.len() ==> (#[trigger] self.data@[i]).same_data(&other.data@[i]))
    }
}

/// Law: a tree determines the data it carries; two values matching one
/// tree carry the same data.
pub proof fn lemma_bulk_data_list_decode_functional(a: BulkDataList, b: BulkDataList, t: JVal)
    ensures
        a.matches_tree(t) && b.matches_tree(t) ==> a.same_data(&b),
{
    if a.matches_tree(t) && b.matches_tree(t) {
        let ps = t->Obj_0;
        lemma_kind_str_injective(a.kind, b.kind);
        match jobj_get(ps, "data"@) {
            Some(JVal::Arr(av)) => {
                assert forall|i2: int| 0 <= i2 < av.len() implies (#[trigger] a.data@[i2]).same_data(&b.data@[i2]) by {
                    assert(a.data@[i2].matches_tree(av[i2]));
                    assert(b.data@[i2].matches_tree(av[i2]));
                    lemma_bulk_data_decode_functional(a.data@[i2], b.data@[i2], av[i2]);
                }
            },
            _ => {},
        }
    }
}

} // verus!
