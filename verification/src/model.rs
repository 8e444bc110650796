//! The decoding and encoding contract that every response model meets.
//!
//! A model relates to a JSON tree through two spec functions: `matches_tree`
//! says which trees carry the model's data, and `tree_spec` is the one tree
//! the model encodes to. `from_tree` decodes any tree a model matches, and
//! reports failure exactly when no value of the model matches the tree.

use vstd::prelude::*;

use crate::json::{
    jobj_get, jpairs_of, jval_of, jvals_of, lemma_jpairs_of_index, lemma_jpairs_of_len,
    lemma_jvals_of_index, lemma_jvals_of_len, obj_get, JVal, JsonValue,
};

verus! {

broadcast use lemma_jvals_of_len, lemma_jvals_of_index, lemma_jpairs_of_len, lemma_jpairs_of_index;

/// A value that mirrors one JSON shape of the vendor's wire format.
pub trait ApiModel: Sized {
    /// Validity of the carried data itself (well-formed identifiers and the like).
    spec fn inv(&self) -> bool;

    /// Whether the tree `t` carries exactly this value's data.
    spec fn matches_tree(&self, t: JVal) -> bool;

    /// The tree this value encodes to.
    spec fn tree_spec(&self) -> JVal;

    /// Structural decoding: succeeds with a value whose data the tree
    /// carries, and fails exactly when no value of this type matches.
    fn from_tree(t: &JsonValue) -> (r: Option<Self>)
        ensures
            match r {
                Some(m) => m.matches_tree(t@) && m.inv(),
                None => forall|m: Self| !m.matches_tree(t@),
            },
    ;

    /// Structural encoding to the canonical tree.
    fn to_tree(&self) -> (t: JsonValue)
        ensures
            t@ == self.tree_spec(),
    ;
}

/// The member is missing, or present as JSON `null`.
pub open spec fn absent_at(ps: Seq<(Seq<char>, JVal)>, key: Seq<char>) -> bool {
    jobj_get(ps, key) is None || jobj_get(ps, key) == Some(JVal::Null)
}

/// The member at `key` carries the data of `m`.
pub open spec fn field_like<M: ApiModel>(ps: Seq<(Seq<char>, JVal)>, key: Seq<char>, m: M) -> bool {
    jobj_get(ps, key) matches Some(v) && m.matches_tree(v)
}

/// An optional member: present and carrying `m`, or absent for `None`.
pub open spec fn opt_field_like<M: ApiModel>(
    ps: Seq<(Seq<char>, JVal)>,
    key: Seq<char>,
    o: Option<M>,
) -> bool {
    match o {
        Some(m) => field_like(ps, key, m),
        None => absent_at(ps, key),
    }
}

/// The tree an optional value encodes to: `null` when absent.
pub open spec fn opt_tree<M: ApiModel>(o: Option<M>) -> JVal {
    match o {
        Some(m) => m.tree_spec(),
        None => JVal::Null,
    }
}

/// Validity of an optional value.
pub open spec fn opt_inv<M: ApiModel>(o: Option<M>) -> bool {
    match o {
        Some(m) => m.inv(),
        None => true,
    }
}

/// Encodes an optional value: `null` when absent.
pub fn opt_to_tree<M: ApiModel>(o: &Option<M>) -> (t: JsonValue)
    ensures
        t@ == opt_tree(*o),
{
    match o {
        Some(m) => m.to_tree(),
        None => JsonValue::Null,
    }
}

/// Reads a required member of an object.
pub fn read_field<M: ApiModel>(ps: &Vec<(String, JsonValue)>, key: &str) -> (r: Option<M>)
    ensures
        match r {
            Some(m) => field_like(jpairs_of(ps@), key@, m) && m.inv(),
            None => forall|m: M| !field_like(jpairs_of(ps@), key@, m),
        },
{
    match obj_get(ps, key) {
        Some(v) => M::from_tree(v),
        None => None,
    }
}

/// Reads an optional member of an object; missing and `null` both read as `None`.
pub fn read_opt<M: ApiModel>(ps: &Vec<(String, JsonValue)>, key: &str) -> (r: Option<Option<M>>)
    ensures
        match r {
            Some(o) => opt_field_like(jpairs_of(ps@), key@, o) && opt_inv(o),
            None => !absent_at(jpairs_of(ps@), key@) && (forall|m: M|
                !field_like(jpairs_of(ps@), key@, m)),
        },
{
    match obj_get(ps, key) {
        None => Some(None),
        Some(v) => match v {
            JsonValue::Null => Some(None),
            _ => match M::from_tree(v) {
                Some(m) => Some(Some(m)),
                None => None,
            },
        },
    }
}

impl ApiModel for String {
    open spec fn inv(&self) -> bool {
        true
    }

    open spec fn matches_tree(&self, t: JVal) -> bool {
        t == JVal::Str(self@)
    }

    open spec fn tree_spec(&self) -> JVal {
        JVal::Str(self@)
    }

    fn from_tree(t: &JsonValue) -> (r: Option<Self>) {
        match t {
            JsonValue::Str(s) => Some(s.clone()),
            _ => None,
        }
    }

    fn to_tree(&self) -> (t: JsonValue) {
        JsonValue::Str(self.clone())
    }
}

impl ApiModel for bool {
    open spec fn inv(&self) -> bool {
        true
    }

    open spec fn matches_tree(&self, t: JVal) -> bool {
        t == JVal::Bool(*self)
    }

    open spec fn tree_spec(&self) -> JVal {
        JVal::Bool(*self)
    }

    fn from_tree(t: &JsonValue) -> (r: Option<Self>) {
        match t {
            JsonValue::Bool(b) => Some(*b),
            _ => None,
        }
    }

    fn to_tree(&self) -> (t: JsonValue) {
        JsonValue::Bool(*self)
    }
}

impl ApiModel for i64 {
    open spec fn inv(&self) -> bool {
        true
    }

    open spec fn matches_tree(&self, t: JVal) -> bool {
        t == JVal::Int(*self)
    }

    open spec fn tree_spec(&self) -> JVal {
        JVal::Int(*self)
    }

    fn from_tree(t: &JsonValue) -> (r: Option<Self>) {
        match t {
            JsonValue::Int(i) => Some(*i),
            _ => None,
        }
    }

    fn to_tree(&self) -> (t: JsonValue) {
        JsonValue::Int(*self)
    }
}

impl ApiModel for i32 {
    open spec fn inv(&self) -> bool {
        true
    }

    open spec fn matches_tree(&self, t: JVal) -> bool {
        t == JVal::Int(*self as i64)
    }

    open spec fn tree_spec(&self) -> JVal {
        JVal::Int(*self as i64)
    }

    fn from_tree(t: &JsonValue) -> (r: Option<Self>) {
        match t {
            JsonValue::Int(i) => {
                if -2147483648i64 <= *i && *i <= 2147483647i64 {
                    Some(*i as i32)
                } else {
                    None
                }
            },
            _ => None,
        }
    }

    fn to_tree(&self) -> (t: JsonValue) {
        JsonValue::Int(*self as i64)
    }
}

impl ApiModel for i16 {
    open spec fn inv(&self) -> bool {
        true
    }

    open spec fn matches_tree(&self, t: JVal) -> bool {
        t == JVal::Int(*self as i64)
    }

    open spec fn tree_spec(&self) -> JVal {
        JVal::Int(*self as i64)
    }

    fn from_tree(t: &JsonValue) -> (r: Option<Self>) {
        match t {
            JsonValue::Int(i) => {
                if -32768i64 <= *i && *i <= 32767i64 {
                    Some(*i as i16)
                } else {
                    None
                }
            },
            _ => None,
        }
    }

    fn to_tree(&self) -> (t: JsonValue) {
        JsonValue::Int(*self as i64)
    }
}

impl ApiModel for u32 {
    open spec fn inv(&self) -> bool {
        true
    }

    open spec fn matches_tree(&self, t: JVal) -> bool {
        t == JVal::Int(*self as i64)
    }

    open spec fn tree_spec(&self) -> JVal {
        JVal::Int(*self as i64)
    }

    fn from_tree(t: &JsonValue) -> (r: Option<Self>) {
        match t {
            JsonValue::Int(i) => {
                if 0i64 <= *i && *i <= 4294967295i64 {
                    Some(*i as u32)
                } else {
                    None
                }
            },
            _ => None,
        }
    }

    fn to_tree(&self) -> (t: JsonValue) {
        JsonValue::Int(*self as i64)
    }
}

impl<T: ApiModel> ApiModel for Vec<T> {
    open spec fn inv(&self) -> bool {
        forall|i: int| 0 <= i < self@.len() ==> #[trigger] self@[i].inv()
    }

    open spec fn matches_tree(&self, t: JVal) -> bool {
        &&& t matches JVal::Arr(vs)
        &&& vs.len() == self@.len()
        &&& forall|i: int| 0 <= i < vs.len() ==> #[trigger] self@[i].matches_tree(vs[i])
    }

    open spec fn tree_spec(&self) -> JVal {
        JVal::Arr(self@.map_values(|x: T| x.tree_spec()))
    }

    fn from_tree(t: &JsonValue) -> (r: Option<Self>) {
        match t {
            JsonValue::Arr(vs) => {
                let n = vs.len();
                let mut out: Vec<T> = Vec::new();
                let mut i: usize = 0;
                proof {
                    lemma_jvals_of_len(vs@);
                }
                while i < n
                    invariant
                        n == vs.len(),
                        i <= n,
                        out.len() == i,
                        t@ == JVal::Arr(jvals_of(vs@)),
                        jvals_of(vs@).len() == vs@.len(),
                        forall|j: int|
                            0 <= j < i ==> (#[trigger] out@[j]).matches_tree(jvals_of(vs@)[j]),
                        forall|j: int| 0 <= j < i ==> (#[trigger] out@[j]).inv(),
                    decreases n - i,
                {
                    proof {
                        lemma_jvals_of_index(vs@, i as int);
                    }
                    let node = &vs[i];
                    match T::from_tree(node) {
                        Some(m) => {
                            out.push(m);
                        },
                        None => {
                            proof {
                                assert(forall|m: T| !m.matches_tree(node@));
                                assert(node@ == jval_of(vs@[i as int]));
                                assert forall|w: Vec<T>| !w.matches_tree(t@) by {
                                    if w.matches_tree(t@) {
                                        assert(0 <= i < jvals_of(vs@).len());
                                        assert(w@[i as int].matches_tree(jvals_of(vs@)[i as int]));
                                        assert(jvals_of(vs@)[i as int] == jval_of(vs@[i as int]));
                                        assert(!w@[i as int].matches_tree(jval_of(vs@[i as int])));
                                        assert(false);
                                    }
                                }
                            }
                            return None;
                        },
                    }
                    i += 1;
                }
                Some(out)
            },
            _ => None,
        }
    }

    fn to_tree(&self) -> (t: JsonValue) {
        let n = self.len();
        let mut out: Vec<JsonValue> = Vec::new();
        let mut i: usize = 0;
        while i < n
            invariant
                n == self.len(),
                i <= n,
                out.len() == i,
                forall|j: int| 0 <= j < i ==> jvals_of(out@)[j] == (#[trigger] self@[j]).tree_spec(),
            decreases n - i,
        {
            let node = self[i].to_tree();
            out.push(node);
            i += 1;
        }
        let r = JsonValue::Arr(out);
        proof {
            assert(jvals_of(out@) =~= self@.map_values(|x: T| x.tree_spec()));
        }
        r
    }
}

/// What `uuid::Uuid::parse_str` accepts; a function of the text alone.
pub uninterp spec fn uuid_ok(s: Seq<char>) -> bool;

/// What `url::Url::parse` accepts; a function of the text alone.
pub uninterp spec fn url_ok(s: Seq<char>) -> bool;

/// What `time::Date::parse` accepts as an ISO 8601 calendar date;
/// a function of the text alone.
pub uninterp spec fn date_ok(s: Seq<char>) -> bool;

/// What `time::OffsetDateTime::parse` accepts as an ISO 8601 instant;
/// a function of the text alone.
pub uninterp spec fn timestamp_ok(s: Seq<char>) -> bool;

/// Relies on `uuid::Uuid::parse_str`: whether the text is one of the
/// accepted textual forms of a UUID.
#[verifier::external_body]
fn uuid_valid(s: &str) -> (r: bool)
    ensures
        r == uuid_ok(s@),
{
    uuid::Uuid::parse_str(s).is_ok()
}

/// Relies on `url::Url::parse`: whether the text is an absolute URL.
#[verifier::external_body]
fn url_valid(s: &str) -> (r: bool)
    ensures
        r == url_ok(s@),
{
    url::Url::parse(s).is_ok()
}

/// Relies on `time::Date::parse` with the well-known ISO 8601 date
/// description: whether the text is a calendar date.
#[verifier::external_body]
fn date_valid(s: &str) -> (r: bool)
    ensures
        r == date_ok(s@),
{
    time::Date::parse(s, &time::format_description::well_known::Iso8601::DATE).is_ok()
}

/// Relies on `time::OffsetDateTime::parse` with the well-known ISO 8601
/// parsing description: whether the text is an instant with a UTC offset.
#[verifier::external_body]
fn timestamp_valid(s: &str) -> (r: bool)
    ensures
        r == timestamp_ok(s@),
{
    time::OffsetDateTime::parse(
        s,
        &time::format_description::well_known::Iso8601::PARSING,
    ).is_ok()
}

/// A UUID, held as the text the vendor sent, checked on decode.
#[derive(Debug)]
pub struct UuidText(pub String);

impl ApiModel for UuidText {
    open spec fn inv(&self) -> bool {
        uuid_ok(self.0@)
    }

    open spec fn matches_tree(&self, t: JVal) -> bool {
        t == JVal::Str(self.0@) && uuid_ok(self.0@)
    }

    open spec fn tree_spec(&self) -> JVal {
        JVal::Str(self.0@)
    }

    fn from_tree(t: &JsonValue) -> (r: Option<Self>) {
        match t {
            JsonValue::Str(s) => {
                if uuid_valid(s.as_str()) {
                    Some(UuidText(s.clone()))
                } else {
                    None
                }
            },
            _ => None,
        }
    }

    fn to_tree(&self) -> (t: JsonValue) {
        JsonValue::Str(self.0.clone())
    }
}

/// A URL, held as the text the vendor sent, checked on decode.
#[derive(Debug)]
pub struct UrlText(pub String);

impl ApiModel for UrlText {
    open spec fn inv(&self) -> bool {
        url_ok(self.0@)
    }

    open spec fn matches_tree(&self, t: JVal) -> bool {
        t == JVal::Str(self.0@) && url_ok(self.0@)
    }

    open spec fn tree_spec(&self) -> JVal {
        JVal::Str(self.0@)
    }

    fn from_tree(t: &JsonValue) -> (r: Option<Self>) {
        match t {
            JsonValue::Str(s) => {
                if url_valid(s.as_str()) {
                    Some(UrlText(s.clone()))
                } else {
                    None
                }
            },
            _ => None,
        }
    }

    fn to_tree(&self) -> (t: JsonValue) {
        JsonValue::Str(self.0.clone())
    }
}

/// A calendar date, held as the ISO 8601 text the vendor sent, checked on decode.
#[derive(Debug)]
pub struct DateText(pub String);

impl ApiModel for DateText {
    open spec fn inv(&self) -> bool {
        date_ok(self.0@)
    }

    open spec fn matches_tree(&self, t: JVal) -> bool {
        t == JVal::Str(self.0@) && date_ok(self.0@)
    }

    open spec fn tree_spec(&self) -> JVal {
        JVal::Str(self.0@)
    }

    fn from_tree(t: &JsonValue) -> (r: Option<Self>) {
        match t {
            JsonValue::Str(s) => {
                if date_valid(s.as_str()) {
                    Some(DateText(s.clone()))
                } else {
                    None
                }
            },
            _ => None,
        }
    }

    fn to_tree(&self) -> (t: JsonValue) {
        JsonValue::Str(self.0.clone())
    }
}

/// An instant, held as the ISO 8601 text the vendor sent, checked on decode.
#[derive(Debug)]
pub struct TimestampText(pub String);

impl ApiModel for TimestampText {
    open spec fn inv(&self) -> bool {
        timestamp_ok(self.0@)
    }

    open spec fn matches_tree(&self, t: JVal) -> bool {
        t == JVal::Str(self.0@) && timestamp_ok(self.0@)
    }

    open spec fn tree_spec(&self) -> JVal {
        JVal::Str(self.0@)
    }

    fn from_tree(t: &JsonValue) -> (r: Option<Self>) {
        match t {
            JsonValue::Str(s) => {
                if timestamp_valid(s.as_str()) {
                    Some(TimestampText(s.clone()))
                } else {
                    None
                }
            },
            _ => None,
        }
    }

    fn to_tree(&self) -> (t: JsonValue) {
        JsonValue::Str(self.0.clone())
    }
}

/// A JSON number kept as its literal text, for values that need no arithmetic.
///
/// Decoding accepts any JSON number: an integral one is re-rendered in
/// decimal, any other keeps its literal text.
#[derive(Debug)]
pub struct NumberText(pub String);

impl ApiModel for NumberText {
    open spec fn inv(&self) -> bool {
        true
    }

    open spec fn matches_tree(&self, t: JVal) -> bool {
        t == JVal::Num(self.0@) || (t matches JVal::Int(i) && self.0@ == crate::text::dec_int(
            i as int,
        ))
    }

    open spec fn tree_spec(&self) -> JVal {
        JVal::Num(self.0@)
    }

    fn from_tree(t: &JsonValue) -> (r: Option<Self>) {
        match t {
            JsonValue::Num(s) => Some(NumberText(s.clone())),
            JsonValue::Int(i) => Some(NumberText(crate::text::i64_to_string(*i))),
            _ => None,
        }
    }

    fn to_tree(&self) -> (t: JsonValue) {
        JsonValue::Num(self.0.clone())
    }
}

} // verus!
