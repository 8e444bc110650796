//! Catalog resource definitions.

use vstd::prelude::*;

use crate::json::{jobj_get, jpairs_of, lemma_jobj_get_at, lemma_jpairs_of_index,
    lemma_jpairs_of_len, lemma_jvals_of_index, lemma_jvals_of_len, JVal, JsonValue};
use crate::model::{field_like, opt_field_like, opt_inv, opt_to_tree, opt_tree, read_field,
    read_opt, ApiModel, UrlText};
use crate::resources::{lemma_kind_str_injective, HttpResource, Method, ResourceKind};
use crate::text::str_eq;

verus! {

broadcast use lemma_jpairs_of_len, lemma_jpairs_of_index, lemma_jvals_of_len, lemma_jvals_of_index;

/// Endpoints for the fixed named catalogs: `GET catalog/<name>`.
pub enum CatalogResource {
    /// `GET catalog/ability-words`.
    AbilityWords,
    /// `GET catalog/artifact-types`.
    ArtifactTypes,
    /// `GET catalog/artist-names`.
    ArtistNames,
    /// `GET catalog/card-names`.
    CardNames,
    /// `GET catalog/creature-types`.
    CreatureTypes,
    /// `GET catalog/enchantment-types`.
    EnchantmentTypes,
    /// `GET catalog/keyword-abilities`.
    KeywordAbilities,
    /// `GET catalog/keyword-actions`.
    KeywordActions,
    /// `GET catalog/land-types`.
    LandTypes,
    /// `GET catalog/loyalties`.
    Loyalties,
    /// `GET catalog/planeswalker-types`.
    PlaneswalkerTypes,
    /// `GET catalog/powers`.
    Powers,
    /// `GET catalog/spell-types`.
    SpellTypes,
    /// `GET catalog/toughnesses`.
    Toughnesses,
    /// `GET catalog/watermarks`.
    Watermarks,
    /// `GET catalog/word-bank`.
    WordBank,
}

impl HttpResource<Catalog> for CatalogResource {
    open spec fn spec_method(&self) -> Method {
        Method::Get
    }

    open spec fn spec_path(&self) -> Seq<char> {
        match *self {
            CatalogResource::AbilityWords => "catalog/ability-words"@,
            CatalogResource::ArtifactTypes => "catalog/artifact-types"@,
            CatalogResource::ArtistNames => "catalog/artist-names"@,
            CatalogResource::CardNames => "catalog/card-names"@,
            CatalogResource::CreatureTypes => "catalog/creature-types"@,
            CatalogResource::EnchantmentTypes => "catalog/enchantment-types"@,
            CatalogResource::KeywordAbilities => "catalog/keyword-abilities"@,
            CatalogResource::KeywordActions => "catalog/keyword-actions"@,
            CatalogResource::LandTypes => "catalog/land-types"@,
            CatalogResource::Loyalties => "catalog/loyalties"@,
            CatalogResource::PlaneswalkerTypes => "catalog/planeswalker-types"@,
            CatalogResource::Powers => "catalog/powers"@,
            CatalogResource::SpellTypes => "catalog/spell-types"@,
            CatalogResource::Toughnesses => "catalog/toughnesses"@,
            CatalogResource::Watermarks => "catalog/watermarks"@,
            CatalogResource::WordBank => "catalog/word-bank"@,
        }
    }

    open spec fn spec_body(&self) -> Option<Seq<char>> {
        None
    }

    fn method(&self) -> (m: Method) {
        Method::Get
    }

    fn path(&self) -> (p: String) {
        match self {
            CatalogResource::AbilityWords => String::from_str("catalog/ability-words"),
            CatalogResource::ArtifactTypes => String::from_str("catalog/artifact-types"),
            CatalogResource::ArtistNames => String::from_str("catalog/artist-names"),
            CatalogResource::CardNames => String::from_str("catalog/card-names"),
            CatalogResource::CreatureTypes => String::from_str("catalog/creature-types"),
            CatalogResource::EnchantmentTypes => String::from_str("catalog/enchantment-types"),
            CatalogResource::KeywordAbilities => String::from_str("catalog/keyword-abilities"),
            CatalogResource::KeywordActions => String::from_str("catalog/keyword-actions"),
            CatalogResource::LandTypes => String::from_str("catalog/land-types"),
            CatalogResource::Loyalties => String::from_str("catalog/loyalties"),
            CatalogResource::PlaneswalkerTypes => String::from_str("catalog/planeswalker-types"),
            CatalogResource::Powers => String::from_str("catalog/powers"),
            CatalogResource::SpellTypes => String::from_str("catalog/spell-types"),
            CatalogResource::Toughnesses => String::from_str("catalog/toughnesses"),
            CatalogResource::Watermarks => String::from_str("catalog/watermarks"),
            CatalogResource::WordBank => String::from_str("catalog/word-bank"),
        }
    }

    fn json(&self) -> (b: Option<String>) {
        None
    }
}

/// Basic struct representing a catalog: a list of plain names or texts.
#[derive(Debug)]
pub struct Catalog {
    pub kind: ResourceKind,
    pub uri: Option<UrlText>,
    pub total_values: i64,
    pub data: Vec<String>,
}

/// The members of the tree a Catalog encodes to, in wire order.
pub open spec fn catalog_pairs(m: Catalog) -> Seq<(Seq<char>, JVal)> {
    seq![
        ("object"@, m.kind.tree_spec()),
        ("uri"@, opt_tree(m.uri)),
        ("total_values"@, m.total_values.tree_spec()),
        ("data"@, m.data.tree_spec()),
    ]
}

impl ApiModel for Catalog {
    open spec fn inv(&self) -> bool {
        opt_inv(self.uri)
    }

    open spec fn matches_tree(&self, t: JVal) -> bool {
        &&& t matches JVal::Obj(ps)
        &&& field_like(ps, "object"@, self.kind)
        &&& opt_field_like(ps, "uri"@, self.uri)
        &&& field_like(ps, "total_values"@, self.total_values)
        &&& field_like(ps, "data"@, self.data)
    }

    open spec fn tree_spec(&self) -> JVal {
        JVal::Obj(catalog_pairs(*self))
    }

    fn from_tree(t: &JsonValue) -> (r: Option<Self>) {
        match t {
            JsonValue::Obj(ps) => {
                proof {
                    assert(t@ == JVal::Obj(jpairs_of(ps@)));
                }
                let kind = match read_field::<ResourceKind>(ps, "object") {
                    Some(x) => x,
                    None => {
                        return None;
                    },
                };
                let uri = match read_opt::<UrlText>(ps, "uri") {
                    Some(x) => x,
                    None => {
                        return None;
                    },
                };
                let total_values = match read_field::<i64>(ps, "total_values") {
                    Some(x) => x,
                    None => {
                        return None;
                    },
                };
                let data = match read_field::<Vec<String>>(ps, "data") {
                    Some(x) => x,
                    None => {
                        return None;
                    },
                };
                Some(Catalog { kind, uri, total_values, data })
            },
            _ => None,
        }
    }

    fn to_tree(&self) -> (t: JsonValue) {
        let mut ps: Vec<(String, JsonValue)> = Vec::new();
        ps.push(("object".to_owned(), self.kind.to_tree()));
        ps.push(("uri".to_owned(), opt_to_tree(&self.uri)));
        ps.push(("total_values".to_owned(), self.total_values.to_tree()));
        ps.push(("data".to_owned(), self.data.to_tree()));
        let r = JsonValue::Obj(ps);
        proof {
            assert(jpairs_of(ps@) =~= catalog_pairs(*self));
        }
        r
    }
}

/// Law: the canonical tree of a valid Catalog carries exactly
/// that value, so decoding what it encodes to yields its data back.
pub proof fn lemma_catalog_round_trip(m: Catalog)
    ensures
        m.inv() ==> m.matches_tree(m.tree_spec()),
{
    if m.inv() {
        reveal_strlit("object");
        reveal_strlit("uri");
        reveal_strlit("total_values");
        reveal_strlit("data");
        assert("object"@.len() == 6 && "object"@[0] == 'o');
        assert("uri"@.len() == 3 && "uri"@[0] == 'u');
        assert("total_values"@.len() == 12 && "total_values"@[0] == 't');
        assert("data"@.len() == 4 && "data"@[0] == 'd');
        let ps = catalog_pairs(m);
        assert(ps[0].0 == "object"@);
        assert(ps[1].0 == "uri"@);
        assert(ps[2].0 == "total_values"@);
        assert(ps[3].0 == "data"@);
        lemma_jobj_get_at(ps, "object"@, 0);
        lemma_jobj_get_at(ps, "uri"@, 1);
        lemma_jobj_get_at(ps, "total_values"@, 2);
        lemma_jobj_get_at(ps, "data"@, 3);
        let tv = m.data@.map_values(|x: String| x.tree_spec());
        assert forall|i2: int| 0 <= i2 < tv.len() implies (#[trigger] m.data@[i2]).matches_tree(tv[i2]) by {
            assert(tv[i2] == m.data@[i2].tree_spec());
        }
        assert(m.data.matches_tree(m.data.tree_spec()));
    }
}

impl Catalog {
    /// Two values carry the same data: every member reads back equal.
    pub open spec fn same_data(&self, other: &Catalog) -> bool {
        &&& self.kind == other.kind
        &&& match (self.uri, other.uri) { (Some(va), Some(vb)) => va.0@ == vb.0@, (None, None) => true, _ => false }
        &&& self.total_values == other.total_values
        &&& self.data@.len() == other.data@.len() && (forall|i: int| #![auto] 0 <= i < self.data@.len() ==> self.data@[i]@ == other.data@[i]@)
    }
}

/// Law: a tree determines the data it carries; two values matching one
/// tree carry the same data.
pub proof fn lemma_catalog_decode_functional(a: Catalog, b: Catalog, t: JVal)
    ensures
        a.matches_tree(t) && b.matches_tree(t) ==> a.same_data(&b),
{
    if a.matches_tree(t) && b.matches_tree(t) {
        let ps = t->Obj_0;
        lemma_kind_str_injective(a.kind, b.kind);
        match jobj_get(ps, "data"@) {
            Some(JVal::Arr(av)) => {
                assert forall|i2: int| 0 <= i2 < av.len() implies #[trigger] a.data@[i2]@ == b.data@[i2]@ by {
                    assert(a.data@[i2].matches_tree(av[i2]));
                    assert(b.data@[i2].matches_tree(av[i2]));
                }
            },
            _ => {},
        }
    }
}

} // verus!
