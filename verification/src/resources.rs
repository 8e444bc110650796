//! Scryfall API resources (root module).
//!
//! A resource descriptor says how to call one endpoint: HTTP verb, path
//! relative to the client's base URL, and an optional JSON body. A response
//! is decoded into either the expected model or the vendor's error body,
//! selected by the `object` discriminant member: `"error"` always selects
//! the error variant, anything else selects the model.

use vstd::prelude::*;

use crate::json::{jobj_get, JVal, JsonValue, obj_get};
use crate::model::ApiModel;
use crate::resources::errors::ErrorBody;
use crate::text::str_eq;

pub mod bulk_data;
pub mod card_sets;
pub mod card_symbols;
pub mod cards;
pub mod catalog;
pub mod errors;
pub mod rulings;

verus! {

/// The HTTP verb of a request.
#[derive(Clone, Copy, Debug, PartialEq, Eq, Structural)]
pub enum Method {
    Get,
    Post,
    Put,
    Patch,
    Delete,
}

/// Kind of resource.
///
/// The vendor marks each resource with an `object` member naming its type;
/// `list` marks a collection of resources, `error` marks an error body.
#[derive(Clone, Copy, Debug, PartialEq, Eq, Structural)]
pub enum ResourceKind {
    BulkData,
    Card,
    CardFace,
    CardSymbol,
    Catalog,
    Error,
    List,
    ManaCost,
    Ruling,
    CardSet,
}

/// The `object` member text that names each resource kind.
pub open spec fn kind_str(k: ResourceKind) -> Seq<char> {
    match k {
        ResourceKind::BulkData => "bulk_data"@,
        ResourceKind::Card => "card"@,
        ResourceKind::CardFace => "card_face"@,
        ResourceKind::CardSymbol => "card_symbol"@,
        ResourceKind::Catalog => "catalog"@,
        ResourceKind::Error => "error"@,
        ResourceKind::List => "list"@,
        ResourceKind::ManaCost => "mana_cost"@,
        ResourceKind::Ruling => "ruling"@,
        ResourceKind::CardSet => "set"@,
    }
}

/// The resource kind an `object` member text names, if any.
pub open spec fn kind_of_str(s: Seq<char>) -> Option<ResourceKind> {
    if s == "bulk_data"@ {
        Some(ResourceKind::BulkData)
    } else if s == "card"@ {
        Some(ResourceKind::Card)
    } else if s == "card_face"@ {
        Some(ResourceKind::CardFace)
    } else if s == "card_symbol"@ {
        Some(ResourceKind::CardSymbol)
    } else if s == "catalog"@ {
        Some(ResourceKind::Catalog)
    } else if s == "error"@ {
        Some(ResourceKind::Error)
    } else if s == "list"@ {
        Some(ResourceKind::List)
    } else if s == "mana_cost"@ {
        Some(ResourceKind::ManaCost)
    } else if s == "ruling"@ {
        Some(ResourceKind::Ruling)
    } else if s == "set"@ {
        Some(ResourceKind::CardSet)
    } else {
        None
    }
}

/// The text that names a kind reads back as that kind.
pub proof fn lemma_kind_str_decode(k: ResourceKind)
    ensures
        kind_of_str(kind_str(k)) == Some(k),
{
    reveal_strlit("bulk_data");
    reveal_strlit("card");
    reveal_strlit("card_face");
    reveal_strlit("card_symbol");
    reveal_strlit("catalog");
    reveal_strlit("error");
    reveal_strlit("list");
    reveal_strlit("mana_cost");
    reveal_strlit("ruling");
    reveal_strlit("set");
    assert("bulk_data"@.len() == 9 && "bulk_data"@[0] == 'b');
    assert("card"@.len() == 4 && "card"@[0] == 'c');
    assert("card_face"@.len() == 9 && "card_face"@[0] == 'c');
    assert("card_symbol"@.len() == 11 && "card_symbol"@[0] == 'c');
    assert("catalog"@.len() == 7 && "catalog"@[0] == 'c');
    assert("error"@.len() == 5 && "error"@[0] == 'e');
    assert("list"@.len() == 4 && "list"@[0] == 'l');
    assert("mana_cost"@.len() == 9 && "mana_cost"@[0] == 'm');
    assert("ruling"@.len() == 6 && "ruling"@[0] == 'r');
    assert("set"@.len() == 3 && "set"@[0] == 's');
    match k {
        ResourceKind::BulkData => assert(kind_of_str(kind_str(k)) == Some(k)),
        ResourceKind::Card => assert(kind_of_str(kind_str(k)) == Some(k)),
        ResourceKind::CardFace => assert(kind_of_str(kind_str(k)) == Some(k)),
        ResourceKind::CardSymbol => assert(kind_of_str(kind_str(k)) == Some(k)),
        ResourceKind::Catalog => assert(kind_of_str(kind_str(k)) == Some(k)),
        ResourceKind::Error => assert(kind_of_str(kind_str(k)) == Some(k)),
        ResourceKind::List => assert(kind_of_str(kind_str(k)) == Some(k)),
        ResourceKind::ManaCost => assert(kind_of_str(kind_str(k)) == Some(k)),
        ResourceKind::Ruling => assert(kind_of_str(kind_str(k)) == Some(k)),
        ResourceKind::CardSet => assert(kind_of_str(kind_str(k)) == Some(k)),
    }
}

/// Distinct resource kinds are named by distinct texts.
pub proof fn lemma_kind_str_injective(a: ResourceKind, b: ResourceKind)
    requires
        kind_str(a) == kind_str(b),
    ensures
        a == b,
{
    lemma_kind_str_decode(a);
    lemma_kind_str_decode(b);
}

impl ResourceKind {
    /// The `object` member text for this kind.
    pub fn as_str(&self) -> (r: &'static str)
        ensures
            r@ == kind_str(*self),
    {
        match self {
            ResourceKind::BulkData => "bulk_data",
            ResourceKind::Card => "card",
            ResourceKind::CardFace => "card_face",
            ResourceKind::CardSymbol => "card_symbol",
            ResourceKind::Catalog => "catalog",
            ResourceKind::Error => "error",
            ResourceKind::List => "list",
            ResourceKind::ManaCost => "mana_cost",
            ResourceKind::Ruling => "ruling",
            ResourceKind::CardSet => "set",
        }
    }
}

impl ApiModel for ResourceKind {
    open spec fn inv(&self) -> bool {
        true
    }

    open spec fn matches_tree(&self, t: JVal) -> bool {
        t == JVal::Str(kind_str(*self))
    }

    open spec fn tree_spec(&self) -> JVal {
        JVal::Str(kind_str(*self))
    }

    fn from_tree(t: &JsonValue) -> (r: Option<Self>) {
        match t {
            JsonValue::Str(s) => {
                if str_eq(s.as_str(), "bulk_data") {
                    Some(ResourceKind::BulkData)
                } else if str_eq(s.as_str(), "card") {
                    Some(ResourceKind::Card)
                } else if str_eq(s.as_str(), "card_face") {
                    Some(ResourceKind::CardFace)
                } else if str_eq(s.as_str(), "card_symbol") {
                    Some(ResourceKind::CardSymbol)
                } else if str_eq(s.as_str(), "catalog") {
                    Some(ResourceKind::Catalog)
                } else if str_eq(s.as_str(), "error") {
                    Some(ResourceKind::Error)
                } else if str_eq(s.as_str(), "list") {
                    Some(ResourceKind::List)
                } else if str_eq(s.as_str(), "mana_cost") {
                    Some(ResourceKind::ManaCost)
                } else if str_eq(s.as_str(), "ruling") {
                    Some(ResourceKind::Ruling)
                } else if str_eq(s.as_str(), "set") {
                    Some(ResourceKind::CardSet)
                } else {
                    None
                }
            },
            _ => None,
        }
    }

    fn to_tree(&self) -> (t: JsonValue) {
        JsonValue::Str(self.as_str().to_owned())
    }
}

/// The path up to, and not including, its first `?`; the whole path when
/// it has none.
pub open spec fn strip_query(s: Seq<char>) -> Seq<char>
    decreases s,
{
    if s.len() == 0 {
        s
    } else if s[0] == '?' {
        Seq::empty()
    } else {
        seq![s[0]] + strip_query(s.drop_first())
    }
}

/// A path without a `?` is kept whole.
pub proof fn lemma_strip_query_clean(s: Seq<char>)
    requires
        forall|j: int| 0 <= j < s.len() ==> s[j] != '?',
    ensures
        strip_query(s) == s,
    decreases s,
{
    if s.len() > 0 {
        assert forall|j: int| 0 <= j < s.drop_first().len() implies s.drop_first()[j] != '?' by {
            assert(s.drop_first()[j] == s[j + 1]);
        }
        lemma_strip_query_clean(s.drop_first());
        assert(strip_query(s) =~= s);
    }
}

/// A path whose first `?` stands at `i` is cut to everything strictly before it.
pub proof fn lemma_strip_query_upto(s: Seq<char>, i: int)
    requires
        0 <= i < s.len(),
        s[i] == '?',
        forall|j: int| 0 <= j < i ==> s[j] != '?',
    ensures
        strip_query(s) == s.take(i),
    decreases i,
{
    if i == 0 {
        assert(strip_query(s) =~= s.take(0));
    } else {
        assert forall|j: int| 0 <= j < i - 1 implies s.drop_first()[j] != '?' by {
            assert(s.drop_first()[j] == s[j + 1]);
        }
        assert(s.drop_first()[i - 1] == s[i]);
        lemma_strip_query_upto(s.drop_first(), i - 1);
        assert(strip_query(s) =~= s.take(i));
    }
}

/// Cutting at the first `?` is idempotent.
pub proof fn lemma_strip_query_idempotent(s: Seq<char>)
    ensures
        strip_query(strip_query(s)) == strip_query(s),
    decreases s,
{
    if s.len() == 0 {
        assert(strip_query(strip_query(s)) =~= strip_query(s));
    } else if s[0] == '?' {
        assert(strip_query(s) == Seq::<char>::empty());
        assert(strip_query(strip_query(s)) =~= strip_query(s));
    } else {
        lemma_strip_query_idempotent(s.drop_first());
        let inner = strip_query(s.drop_first());
        let outer = seq![s[0]] + inner;
        assert(strip_query(s) == outer);
        if outer.len() > 0 {
            assert(outer[0] == s[0]);
            assert(outer.drop_first() =~= inner);
            assert(strip_query(outer) == seq![outer[0]] + strip_query(outer.drop_first()));
            assert(strip_query(strip_query(s)) =~= strip_query(s));
        }
    }
}

/// Cuts a path at its first `?`, keeping what stands strictly before it.
pub fn strip_query_str(p: &str) -> (r: String)
    ensures
        r@ == strip_query(p@),
{
    let n = p.unicode_len();
    let mut out = String::new();
    let mut i: usize = 0;
    while i < n
        invariant
            n == p@.len(),
            i <= n,
            out@ == p@.take(i as int),
            forall|j: int| 0 <= j < i ==> p@[j] != '?',
        decreases n - i,
    {
        let c = p.get_char(i);
        if c == '?' {
            proof {
                lemma_strip_query_upto(p@, i as int);
            }
            return out;
        }
        out.push(c);
        proof {
            assert(out@ =~= p@.take(i as int + 1));
        }
        i += 1;
    }
    proof {
        lemma_strip_query_clean(p@);
        assert(out@ =~= p@);
    }
    out
}

/// Represents an HTTP resource (endpoint).
///
/// A value of an implementing type describes one call: the verb, the path
/// relative to the client's base URL (with any literal query string the
/// endpoint needs), and the optional JSON body. The client consumes any
/// such value uniformly.
pub trait HttpResource<M: ApiModel>: Sized {
    /// The verb of the endpoint.
    spec fn spec_method(&self) -> Method;

    /// The exact path of the endpoint, relative to the base URL.
    spec fn spec_path(&self) -> Seq<char>;

    /// The exact body sent with the request, if the endpoint takes one.
    spec fn spec_body(&self) -> Option<Seq<char>>;

    /// The HTTP method for the endpoint.
    fn method(&self) -> (m: Method)
        ensures
            m == self.spec_method(),
    ;

    /// The path for the endpoint, relative to the client's base URL.
    fn path(&self) -> (p: String)
        ensures
            p@ == self.spec_path(),
    ;

    /// The JSON body to send with the request, if any.
    fn json(&self) -> (b: Option<String>)
        ensures
            match b {
                Some(s) => self.spec_body() == Some(s@),
                None => self.spec_body() is None,
            },
    ;

    /// The endpoint path with any query string cut off at the first `?`.
    fn path_without_query(&self) -> (p: String)
        ensures
            p@ == strip_query(self.spec_path()),
    {
        let p = self.path();
        strip_query_str(p.as_str())
    }
}

/// A response with two states: a model for the resource, or the vendor's
/// error body. The `object` member of the response selects between them.
#[derive(Debug)]
pub enum Response<M> {
    Success(M),
    Failure(ErrorBody),
}

/// The tree is an object whose `object` member is the text `error`.
pub open spec fn is_error_doc(t: JVal) -> bool {
    t matches JVal::Obj(ps) && jobj_get(ps, "object"@) == Some(JVal::Str("error"@))
}

/// What decoding an envelope returns: on an error-shaped document, the
/// error body it carries; on any other document, the model it carries;
/// nothing when the selected shape does not decode.
pub open spec fn envelope_spec<M: ApiModel>(t: JVal, r: Option<Response<M>>) -> bool {
    if is_error_doc(t) {
        match r {
            Some(Response::Failure(e)) => e.matches_tree(t) && e.inv(),
            Some(Response::Success(_)) => false,
            None => forall|e: ErrorBody| !e.matches_tree(t),
        }
    } else {
        match r {
            Some(Response::Success(m)) => m.matches_tree(t) && m.inv(),
            Some(Response::Failure(_)) => false,
            None => forall|m: M| !m.matches_tree(t),
        }
    }
}

/// Decodes a response document into the envelope: the `object` member being
/// `"error"` always selects the error variant, anything else selects the
/// model.
pub fn decode_envelope<M: ApiModel>(t: &JsonValue) -> (r: Option<Response<M>>)
    ensures
        envelope_spec::<M>(t@, r),
{
    let is_err: bool = match t {
        JsonValue::Obj(ps) => match obj_get(ps, "object") {
            Some(v) => match v {
                JsonValue::Str(s) => str_eq(s.as_str(), "error"),
                _ => false,
            },
            None => false,
        },
        _ => false,
    };
    if is_err {
        match ErrorBody::from_tree(t) {
            Some(e) => Some(Response::Failure(e)),
            None => None,
        }
    } else {
        match M::from_tree(t) {
            Some(m) => Some(Response::Success(m)),
            None => None,
        }
    }
}

/// An error-shaped document never decodes to the success variant, whatever
/// model was asked for.
pub proof fn lemma_error_doc_never_ok<M: ApiModel>(t: JVal, r: Option<Response<M>>)
    ensures
        envelope_spec::<M>(t, r) && is_error_doc(t) ==> !(r matches Some(Response::Success(_))),
{
}

/// An error-shaped document carrying the data of some error body always
/// decodes to the error variant, whatever model was asked for.
pub proof fn lemma_error_doc_selects_err<M: ApiModel>(t: JVal, e: ErrorBody, r: Option<Response<M>>)
    ensures
        envelope_spec::<M>(t, r) && is_error_doc(t) && e.matches_tree(t) ==> (r matches Some(
            Response::Failure(e2),
        ) && e2.matches_tree(t)),
{
}

} // verus!
