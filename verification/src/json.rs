//! JSON documents as trees of plain values, and the parsing boundary.
//!
//! A response body is parsed by serde_json and converted, node for node,
//! into [`JsonValue`], a tree the rest of the library reads and builds in
//! verified code. Specifications speak about [`JVal`], the mathematical
//! shape of such a tree.

use vstd::prelude::*;

use crate::text::str_eq;

verus! {

/// A JSON document held as a tree of plain values.
///
/// A number that fits `i64` is held as `Int`; any other number keeps its
/// literal text in `Num`. Object members keep their order of appearance,
/// and a key may in principle repeat; lookups take the first occurrence,
/// as serde_json's own value type effectively does.
#[derive(Debug)]
pub enum JsonValue {
    Null,
    Bool(bool),
    Int(i64),
    Num(String),
    Str(String),
    Arr(Vec<JsonValue>),
    Obj(Vec<(String, JsonValue)>),
}

/// The shape of a JSON tree in specifications.
#[verifier::ext_equal]
pub enum JVal {
    Null,
    Bool(bool),
    Int(i64),
    Num(Seq<char>),
    Str(Seq<char>),
    Arr(Seq<JVal>),
    Obj(Seq<(Seq<char>, JVal)>),
}

/// The shape of one tree node, recursively.
pub open spec fn jval_of(v: JsonValue) -> JVal
    decreases v,
{
    match v {
        JsonValue::Null => JVal::Null,
        JsonValue::Bool(b) => JVal::Bool(b),
        JsonValue::Int(i) => JVal::Int(i),
        JsonValue::Num(s) => JVal::Num(s@),
        JsonValue::Str(s) => JVal::Str(s@),
        JsonValue::Arr(vs) => JVal::Arr(jvals_of(vs@)),
        JsonValue::Obj(ps) => JVal::Obj(jpairs_of(ps@)),
    }
}

/// The shapes of a sequence of tree nodes.
pub open spec fn jvals_of(vs: Seq<JsonValue>) -> Seq<JVal>
    decreases vs,
{
    if vs.len() == 0 {
        Seq::empty()
    } else {
        seq![jval_of(vs[0])] + jvals_of(vs.drop_first())
    }
}

/// The shapes of a sequence of object members.
pub open spec fn jpairs_of(ps: Seq<(String, JsonValue)>) -> Seq<(Seq<char>, JVal)>
    decreases ps,
{
    if ps.len() == 0 {
        Seq::empty()
    } else {
        seq![(ps[0].0@, jval_of(ps[0].1))] + jpairs_of(ps.drop_first())
    }
}

impl View for JsonValue {
    type V = JVal;

    open spec fn view(&self) -> JVal {
        jval_of(*self)
    }
}

pub broadcast proof fn lemma_jvals_of_len(vs: Seq<JsonValue>)
    ensures
        #[trigger] jvals_of(vs).len() == vs.len(),
    decreases vs,
{
    if vs.len() != 0 {
        lemma_jvals_of_len(vs.drop_first());
    }
}

pub broadcast proof fn lemma_jvals_of_index(vs: Seq<JsonValue>, i: int)
    requires
        0 <= i < vs.len(),
    ensures
        #[trigger] jvals_of(vs)[i] == jval_of(vs[i]),
    decreases vs,
{
    lemma_jvals_of_len(vs);
    if i > 0 {
        lemma_jvals_of_index(vs.drop_first(), i - 1);
    }
}

pub broadcast proof fn lemma_jpairs_of_len(ps: Seq<(String, JsonValue)>)
    ensures
        #[trigger] jpairs_of(ps).len() == ps.len(),
    decreases ps,
{
    if ps.len() != 0 {
        lemma_jpairs_of_len(ps.drop_first());
    }
}

pub broadcast proof fn lemma_jpairs_of_index(ps: Seq<(String, JsonValue)>, i: int)
    requires
        0 <= i < ps.len(),
    ensures
        #[trigger] jpairs_of(ps)[i] == (ps[i].0@, jval_of(ps[i].1)),
    decreases ps,
{
    lemma_jpairs_of_len(ps);
    if i > 0 {
        lemma_jpairs_of_index(ps.drop_first(), i - 1);
    }
}

/// First-match lookup of a key among the members of an object.
pub open spec fn jobj_get(ps: Seq<(Seq<char>, JVal)>, key: Seq<char>) -> Option<JVal>
    decreases ps,
{
    if ps.len() == 0 {
        None
    } else if ps[0].0 == key {
        Some(ps[0].1)
    } else {
        jobj_get(ps.drop_first(), key)
    }
}

/// A key that occurs first at position `i` is looked up to the value there.
pub proof fn lemma_jobj_get_at(ps: Seq<(Seq<char>, JVal)>, key: Seq<char>, i: int)
    requires
        0 <= i < ps.len(),
        ps[i].0 == key,
        forall|j: int| 0 <= j < i ==> ps[j].0 != key,
    ensures
        jobj_get(ps, key) == Some(ps[i].1),
    decreases i,
{
    if i > 0 {
        assert forall|j: int| 0 <= j < i - 1 implies ps.drop_first()[j].0 != key by {
            assert(ps.drop_first()[j] == ps[j + 1]);
        }
        lemma_jobj_get_at(ps.drop_first(), key, i - 1);
    }
}

/// A key that occurs nowhere is looked up to nothing.
pub proof fn lemma_jobj_get_none(ps: Seq<(Seq<char>, JVal)>, key: Seq<char>)
    requires
        forall|j: int| 0 <= j < ps.len() ==> ps[j].0 != key,
    ensures
        jobj_get(ps, key) is None,
    decreases ps,
{
    if ps.len() > 0 {
        assert forall|j: int| 0 <= j < ps.drop_first().len() implies ps.drop_first()[j].0 != key by {
            assert(ps.drop_first()[j] == ps[j + 1]);
        }
        lemma_jobj_get_none(ps.drop_first(), key);
    }
}

/// First-match lookup of a key among the members of an object tree.
pub fn obj_get<'a>(ps: &'a Vec<(String, JsonValue)>, key: &str) -> (r: Option<&'a JsonValue>)
    ensures
        match r {
            Some(v) => jobj_get(jpairs_of(ps@), key@) == Some(v@),
            None => jobj_get(jpairs_of(ps@), key@) is None,
        },
{
    broadcast use lemma_jpairs_of_len, lemma_jpairs_of_index;

    let n = ps.len();
    let mut i: usize = 0;
    while i < n
        invariant
            n == ps.len(),
            i <= n,
            jpairs_of(ps@).len() == ps@.len(),
            forall|j: int| 0 <= j < i ==> jpairs_of(ps@)[j].0 != key@,
        decreases n - i,
    {
        proof {
            lemma_jpairs_of_index(ps@, i as int);
        }
        if str_eq(ps[i].0.as_str(), key) {
            proof {
                lemma_jobj_get_at(jpairs_of(ps@), key@, i as int);
            }
            return Some(&ps[i].1);
        }
        i += 1;
    }
    proof {
        lemma_jobj_get_none(jpairs_of(ps@), key@);
    }
    None
}

/// The outside value type of serde_json, opaque to this library.
#[verifier::external_type_specification]
#[verifier::external_body]
pub struct ExValue(serde_json::Value);

/// The outside error type of serde_json, opaque to this library.
#[verifier::external_type_specification]
#[verifier::external_body]
pub struct ExJsonError(serde_json::Error);

/// What parsing a text as JSON yields: the tree of the document it holds,
/// or nothing when the text is not JSON. A function of the text alone.
pub uninterp spec fn json_of(s: Seq<char>) -> Option<JVal>;

/// Relies on `serde_json::from_str::<serde_json::Value>`: parses text as a
/// JSON document and converts it, node for node, into the library's tree,
/// or reports why the text is not one.
#[verifier::external_body]
pub(crate) fn json_parse(s: &str) -> (r: Result<JsonValue, serde_json::Error>)
    ensures
        match r {
            Ok(v) => json_of(s@) == Some(v@),
            Err(_) => json_of(s@) is None,
        },
{
    match serde_json::from_str::<serde_json::Value>(s) {
        Ok(v) => Ok(json_tree(&v)),
        Err(e) => Err(e),
    }
}

/// Relies on `serde_json::Error`'s `Display` implementation for a
/// human-readable description of a parse failure.
#[verifier::external_body]
pub(crate) fn json_error_text(e: &serde_json::Error) -> String {
    e.to_string()
}

/// Relies on `serde_json::Value` being a finite tree; converts each of its
/// nodes, one for one, into the library's own tree. A number that fits
/// `i64` becomes `Int`; any other number keeps serde_json's text for it.
/// This is the conversion half of [`json_parse`], which alone calls it.
#[verifier::external_body]
fn json_tree(v: &serde_json::Value) -> JsonValue {
    match v {
        serde_json::Value::Null => JsonValue::Null,
        serde_json::Value::Bool(b) => JsonValue::Bool(*b),
        serde_json::Value::Number(n) => match n.as_i64() {
            Some(i) => JsonValue::Int(i),
            None => JsonValue::Num(n.to_string()),
        },
        serde_json::Value::String(s) => JsonValue::Str(s.clone()),
        serde_json::Value::Array(a) => JsonValue::Arr(a.iter().map(json_tree).collect()),
        serde_json::Value::Object(m) => JsonValue::Obj(
            m.iter().map(|p| (p.0.clone(), json_tree(p.1))).collect(),
        ),
    }
}

} // verus!
