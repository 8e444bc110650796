//! Ruling resource definitions.

use vstd::prelude::*;

use crate::json::{jobj_get, jpairs_of, lemma_jobj_get_at, lemma_jpairs_of_index,
    lemma_jpairs_of_len, lemma_jvals_of_index, lemma_jvals_of_len, JVal, JsonValue};
use crate::model::{field_like, read_field, ApiModel, DateText};
use crate::resources::{lemma_kind_str_injective, HttpResource, Method, ResourceKind};
use crate::text::{dec_int, i64_to_string};

verus! {

broadcast use lemma_jpairs_of_len, lemma_jpairs_of_index, lemma_jvals_of_len, lemma_jvals_of_index;

/// Endpoints for the rulings of a card.
pub enum RulingListResource<'a> {
    /// Ruling list by the card's scryfall id: `GET cards/:id/rulings`.
    ByCardId(&'a str),
    /// Ruling list by set code and collector number:
    /// `GET cards/:code/:number/rulings`.
    BySetCode(&'a str, i32),
    /// Ruling list by the card's arena id: `GET cards/arena/:id/rulings`.
    ByArenaId(i32),
    /// Ruling list by the card's MTGO id: `GET cards/mtgo/:id/rulings`.
    ByMtgoId(i32),
    /// Ruling list by the card's multiverse id:
    /// `GET cards/multiverse/:id/rulings`.
    ByMultiverseId(i32),
}

impl<'a> HttpResource<RulingList> for RulingListResource<'a> {
    open spec fn spec_method(&self) -> Method {
        Method::Get
    }

    open spec fn spec_path(&self) -> Seq<char> {
        match *self {
            RulingListResource::ByCardId(id) => "cards/"@ + id@ + "/rulings"@,
            RulingListResource::BySetCode(code, num) => "cards/"@ + code@ + "/"@ + dec_int(
                num as int,
            ) + "/rulings"@,
            RulingListResource::ByArenaId(id) => "cards/arena/"@ + dec_int(id as int)
                + "/rulings"@,
            RulingListResource::ByMtgoId(id) => "cards/mtgo/"@ + dec_int(id as int) + "/rulings"@,
            RulingListResource::ByMultiverseId(id) => "cards/multiverse/"@ + dec_int(id as int)
                + "/rulings"@,
        }
    }

    open spec fn spec_body(&self) -> Option<Seq<char>> {
        None
    }

    fn method(&self) -> (m: Method) {
        Method::Get
    }

    fn path(&self) -> (p: String) {
        match self {
            RulingListResource::ByCardId(id) => {
                let p = String::from_str("cards/").concat(id).concat("/rulings");
                proof {
                    assert(p@ =~= self.spec_path());
                }
                p
            },
            RulingListResource::BySetCode(code, num) => {
                let ns = i64_to_string(*num as i64);
                let p = String::from_str("cards/").concat(code).concat("/").concat(
                    ns.as_str(),
                ).concat("/rulings");
                proof {
                    assert(p@ =~= self.spec_path());
                }
                p
            },
            RulingListResource::ByArenaId(id) => {
                let ns = i64_to_string(*id as i64);
                let p = String::from_str("cards/arena/").concat(ns.as_str()).concat("/rulings");
                proof {
                    assert(p@ =~= self.spec_path());
                }
                p
            },
            RulingListResource::ByMtgoId(id) => {
                let ns = i64_to_string(*id as i64);
                let p = String::from_str("cards/mtgo/").concat(ns.as_str()).concat("/rulings");
                proof {
                    assert(p@ =~= self.spec_path());
                }
                p
            },
            RulingListResource::ByMultiverseId(id) => {
                let ns = i64_to_string(*id as i64);
                let p = String::from_str("cards/multiverse/").concat(ns.as_str()).concat(
                    "/rulings",
                );
                proof {
                    assert(p@ =~= self.spec_path());
                }
                p
            },
        }
    }

    fn json(&self) -> (b: Option<String>) {
        None
    }
}

/// A ruling.
#[derive(Debug)]
pub struct Ruling {
    pub kind: ResourceKind,
    pub oracle_id: String,
    pub source: String,
    pub published_at: DateText,
    pub comment: String,
}

/// The members of the tree a Ruling encodes to, in wire order.
pub open spec fn ruling_pairs(m: Ruling) -> Seq<(Seq<char>, JVal)> {
    seq![
        ("object"@, m.kind.tree_spec()),
        ("oracle_id"@, m.oracle_id.tree_spec()),
        ("source"@, m.source.tree_spec()),
        ("published_at"@, m.published_at.tree_spec()),
        ("comment"@, m.comment.tree_spec()),
    ]
}

impl ApiModel for Ruling {
    open spec fn inv(&self) -> bool {
        self.published_at.inv()
    }

    open spec fn matches_tree(&self, t: JVal) -> bool {
        &&& t matches JVal::Obj(ps)
        &&& field_like(ps, "object"@, self.kind)
        &&& field_like(ps, "oracle_id"@, self.oracle_id)
        &&& field_like(ps, "source"@, self.source)
        &&& field_like(ps, "published_at"@, self.published_at)
        &&& field_like(ps, "comment"@, self.comment)
    }

    open spec fn tree_spec(&self) -> JVal {
        JVal::Obj(ruling_pairs(*self))
    }

    fn from_tree(t: &JsonValue) -> (r: Option<Self>) {
        match t {
            JsonValue::Obj(ps) => {
                proof {
                    assert(t@ == JVal::Obj(jpairs_of(ps@)));
                }
                let kind = match read_field::<ResourceKind>(ps, "object") {
                    Some(x) => x,
                    None => {
                        return None;
                    },
                };
                let oracle_id = match read_field::<String>(ps, "oracle_id") {
                    Some(x) => x,
                    None => {
                        return None;
                    },
                };
                let source = match read_field::<String>(ps, "source") {
                    Some(x) => x,
                    None => {
                        return None;
                    },
                };
                let published_at = match read_field::<DateText>(ps, "published_at") {
                    Some(x) => x,
                    None => {
                        return None;
                    },
                };
                let comment = match read_field::<String>(ps, "comment") {
                    Some(x) => x,
                    None => {
                        return None;
                    },
                };
                Some(Ruling { kind, oracle_id, source, published_at, comment })
            },
            _ => None,
        }
    }

    fn to_tree(&self) -> (t: JsonValue) {
        let mut ps: Vec<(String, JsonValue)> = Vec::new();
        ps.push(("object".to_owned(), self.kind.to_tree()));
        ps.push(("oracle_id".to_owned(), self.oracle_id.to_tree()));
        ps.push(("source".to_owned(), self.source.to_tree()));
        ps.push(("published_at".to_owned(), self.published_at.to_tree()));
        ps.push(("comment".to_owned(), self.comment.to_tree()));
        let r = JsonValue::Obj(ps);
        proof {
            assert(jpairs_of(ps@) =~= ruling_pairs(*self));
        }
        r
    }
}

/// Law: the canonical tree of a valid Ruling carries exactly
/// that value, so decoding what it encodes to yields its data back.
pub proof fn lemma_ruling_round_trip(m: Ruling)
    ensures
        m.inv() ==> m.matches_tree(m.tree_spec()),
{
    if m.inv() {
        reveal_strlit("object");
        reveal_strlit("oracle_id");
        reveal_strlit("source");
        reveal_strlit("published_at");
        reveal_strlit("comment");
        assert("object"@.len() == 6 && "object"@[0] == 'o');
        assert("oracle_id"@.len() == 9 && "oracle_id"@[0] == 'o');
        assert("source"@.len() == 6 && "source"@[0] == 's');
        assert("published_at"@.len() == 12 && "published_at"@[0] == 'p');
        assert("comment"@.len() == 7 && "comment"@[0] == 'c');
        let ps = ruling_pairs(m);
        assert(ps[0].0 == "object"@);
        assert(ps[1].0 == "oracle_id"@);
        assert(ps[2].0 == "source"@);
        assert(ps[3].0 == "published_at"@);
        assert(ps[4].0 == "comment"@);
        lemma_jobj_get_at(ps, "object"@, 0);
        lemma_jobj_get_at(ps, "oracle_id"@, 1);
        lemma_jobj_get_at(ps, "source"@, 2);
        lemma_jobj_get_at(ps, "published_at"@, 3);
        lemma_jobj_get_at(ps, "comment"@, 4);
    }
}

impl Ruling {
    /// Two values carry the same data: every member reads back equal.
    pub open spec fn same_data(&self, other: &Ruling) -> bool {
        &&& self.kind == other.kind
        &&& self.oracle_id@ == other.oracle_id@
        &&& self.source@ == other.source@
        &&& self.published_at.0@ == other.published_at.0@
        &&& self.comment@ == other.comment@
    }
}

/// Law: a tree determines the data it carries; two values matching one
/// tree carry the same data.
pub proof fn lemma_ruling_decode_functional(a: Ruling, b: Ruling, t: JVal)
    ensures
        a.matches_tree(t) && b.matches_tree(t) ==> a.same_data(&b),
{
    if a.matches_tree(t) && b.matches_tree(t) {
        let ps = t->Obj_0;
        lemma_kind_str_injective(a.kind, b.kind);
    }
}

/// Basic struct representing a ruling list.
#[derive(Debug)]
pub struct RulingList {
    pub kind: ResourceKind,
    pub has_more: bool,
    pub data: Vec<Ruling>,
}

/// The members of the tree a RulingList encodes to, in wire order.
pub open spec fn ruling_list_pairs(m: RulingList) -> Seq<(Seq<char>, JVal)> {
    seq![
        ("object"@, m.kind.tree_spec()),
        ("has_more"@, m.has_more.tree_spec()),
        ("data"@, m.data.tree_spec()),
    ]
}

impl ApiModel for RulingList {
    open spec fn inv(&self) -> bool {
        self.data.inv()
    }

    open spec fn matches_tree(&self, t: JVal) -> bool {
        &&& t matches JVal::Obj(ps)
        &&& field_like(ps, "object"@, self.kind)
        &&& field_like(ps, "has_more"@, self.has_more)
        &&& field_like(ps, "data"@, self.data)
    }

    open spec fn tree_spec(&self) -> JVal {
        JVal::Obj(ruling_list_pairs(*self))
    }

    fn from_tree(t: &JsonValue) -> (r: Option<Self>) {
        match t {
            JsonValue::Obj(ps) => {
                proof {
                    assert(t@ == JVal::Obj(jpairs_of(ps@)));
                }
                let kind = match read_field::<ResourceKind>(ps, "object") {
                    Some(x) => x,
                    None => {
                        return None;
                    },
                };
                let has_more = match read_field::<bool>(ps, "has_more") {
                    Some(x) => x,
                    None => {
                        return None;
                    },
                };
                let data = match read_field::<Vec<Ruling>>(ps, "data") {
                    Some(x) => x,
                    None => {
                        return None;
                    },
                };
                Some(RulingList { kind, has_more, data })
            },
            _ => None,
        }
    }

    fn to_tree(&self) -> (t: JsonValue) {
        let mut ps: Vec<(String, JsonValue)> = Vec::new();
        ps.push(("object".to_owned(), self.kind.to_tree()));
        ps.push(("has_more".to_owned(), self.has_more.to_tree()));
        ps.push(("data".to_owned(), self.data.to_tree()));
        let r = JsonValue::Obj(ps);
        proof {
            assert(jpairs_of(ps@) =~= ruling_list_pairs(*self));
        }
        r
    }
}

/// Law: the canonical tree of a valid RulingList carries exactly
/// that value, so decoding what it encodes to yields its data back.
pub proof fn lemma_ruling_list_round_trip(m: RulingList)
    ensures
        m.inv() ==> m.matches_tree(m.tree_spec()),
{
    if m.inv() {
        reveal_strlit("object");
        reveal_strlit("has_more");
        reveal_strlit("data");
        assert("object"@.len() == 6 && "object"@[0] == 'o');
        assert("has_more"@.len() == 8 && "has_more"@[0] == 'h');
        assert("data"@.len() == 4 && "data"@[0] == 'd');
        let ps = ruling_list_pairs(m);
        assert(ps[0].0 == "object"@);
        assert(ps[1].0 == "has_more"@);
        assert(ps[2].0 == "data"@);
        lemma_jobj_get_at(ps, "object"@, 0);
        lemma_jobj_get_at(ps, "has_more"@, 1);
        lemma_jobj_get_at(ps, "data"@, 2);
        let tv = m.data@.map_values(|x: Ruling| x.tree_spec());
        assert forall|i2: int| 0 <= i2 < tv.len() implies (#[trigger] m.data@[i2]).matches_tree(tv[i2]) by {
            assert(m.data@[i2].inv());
            assert(tv[i2] == m.data@[i2].tree_spec());
            lemma_ruling_round_trip(m.data@[i2]);
        }
        assert(m.data.matches_tree(m.data.tree_spec()));
    }
}

impl RulingList {
    /// Two values carry the same data: every member reads back equal.
    pub open spec fn same_data(&self, other: &RulingList) -> bool {
        &&& self.kind == other.kind
        &&& self.has_more == other.has_more
        &&& self.data@.len() == other.data@.len() && (forall|i: int| 0 <= i < self.data@.len() ==> (#[trigger] self.data@[i]).same_data(&other.data@[i]))
    }
}

/// Law: a tree determines the data it carries; two values matching one
/// tree carry the same data.
pub proof fn lemma_ruling_list_decode_functional(a: RulingList, b: RulingList, t: JVal)
    ensures
        a.matches_tree(t) && b.matches_tree(t) ==> a.same_data(&b),
{
    if a.matches_tree(t) && b.matches_tree(t) {
        let ps = t->Obj_0;
        lemma_kind_str_injective(a.kind, b.kind);
        match jobj_get(ps, "data"@) {
            Some(JVal::Arr(av)) => {
                assert forall|i2: int| 0 <= i2 < av.len() implies (#[trigger] a.data@[i2]).same_data(&b.data@[i2]) by {
                    assert(a.data@[i2].matches_tree(av[i2]));
                    assert(b.data@[i2].matches_tree(av[i2]));
                    lemma_ruling_decode_functional(a.data@[i2], b.data@[i2], av[i2]);
                }
            },
            _ => {},
        }
    }
}

} // verus!
