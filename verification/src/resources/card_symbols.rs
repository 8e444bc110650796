//! Card symbols resource definitions.

use vstd::prelude::*;

use crate::json::{jobj_get, jpairs_of, lemma_jobj_get_at, lemma_jpairs_of_index,
    lemma_jpairs_of_len, lemma_jvals_of_index, lemma_jvals_of_len, JVal, JsonValue};
use crate::model::{field_like, opt_field_like, opt_inv, opt_to_tree, opt_tree, read_field,
    read_opt, ApiModel, NumberText, UrlText};
use crate::resources::{lemma_kind_str_injective, HttpResource, Method, ResourceKind};
use crate::text::str_eq;

verus! {

broadcast use lemma_jpairs_of_len, lemma_jpairs_of_index, lemma_jvals_of_len, lemma_jvals_of_index;

/// Binding for endpoint `GET symbology`.
pub struct CardSymbolsResource;

/// Binding for endpoint `GET symbology/parse-mana?cost=x`.
pub struct ManaCostResource<'a>(pub &'a str);

impl HttpResource<CardSymbolList> for CardSymbolsResource {
    open spec fn spec_method(&self) -> Method {
        Method::Get
    }

    open spec fn spec_path(&self) -> Seq<char> {
        "symbology"@
    }

    open spec fn spec_body(&self) -> Option<Seq<char>> {
        None
    }

    fn method(&self) -> (m: Method) {
        Method::Get
    }

    fn path(&self) -> (p: String) {
        String::from_str("symbology")
    }

    fn json(&self) -> (b: Option<String>) {
        None
    }
}

impl<'a> HttpResource<ManaCost> for ManaCostResource<'a> {
    open spec fn spec_method(&self) -> Method {
        Method::Get
    }

    open spec fn spec_path(&self) -> Seq<char> {
        "symbology/parse-mana?cost="@ + self.0@
    }

    open spec fn spec_body(&self) -> Option<Seq<char>> {
        None
    }

    fn method(&self) -> (m: Method) {
        Method::Get
    }

    fn path(&self) -> (p: String) {
        let p = String::from_str("symbology/parse-mana?cost=").concat(self.0);
        proof {
            assert(p@ =~= self.spec_path());
        }
        p
    }

    fn json(&self) -> (b: Option<String>) {
        None
    }
}

/// A color symbol (single color).
#[derive(Clone, Copy, Debug, PartialEq, Eq, Structural)]
pub enum ColorSymbol {
    B,
    G,
    R,
    U,
    W,
}

/// The wire text of each `ColorSymbol` value.
pub open spec fn color_symbol_str(k: ColorSymbol) -> Seq<char> {
    match k {
        ColorSymbol::B => "B"@,
        ColorSymbol::G => "G"@,
        ColorSymbol::R => "R"@,
        ColorSymbol::U => "U"@,
        ColorSymbol::W => "W"@,
    }
}

/// The `ColorSymbol` value a wire text names, if any.
pub open spec fn color_symbol_of_str(s: Seq<char>) -> Option<ColorSymbol> {
    if s == "B"@ {
        Some(ColorSymbol::B)
    } else if s == "G"@ {
        Some(ColorSymbol::G)
    } else if s == "R"@ {
        Some(ColorSymbol::R)
    } else if s == "U"@ {
        Some(ColorSymbol::U)
    } else if s == "W"@ {
        Some(ColorSymbol::W)
    } else {
        None
    }
}

/// The text that names a value reads back as that value.
pub proof fn lemma_color_symbol_decode(k: ColorSymbol)
    ensures
        color_symbol_of_str(color_symbol_str(k)) == Some(k),
{
    reveal_strlit("B");
    reveal_strlit("G");
    reveal_strlit("R");
    reveal_strlit("U");
    reveal_strlit("W");
    assert("B"@.len() == 1 && "B"@[0] == 'B');
    assert("G"@.len() == 1 && "G"@[0] == 'G');
    assert("R"@.len() == 1 && "R"@[0] == 'R');
    assert("U"@.len() == 1 && "U"@[0] == 'U');
    assert("W"@.len() == 1 && "W"@[0] == 'W');
    match k {
        ColorSymbol::B => assert(color_symbol_of_str(color_symbol_str(k)) == Some(k)),
        ColorSymbol::G => assert(color_symbol_of_str(color_symbol_str(k)) == Some(k)),
        ColorSymbol::R => assert(color_symbol_of_str(color_symbol_str(k)) == Some(k)),
        ColorSymbol::U => assert(color_symbol_of_str(color_symbol_str(k)) == Some(k)),
        ColorSymbol::W => assert(color_symbol_of_str(color_symbol_str(k)) == Some(k)),
    }
}

/// Distinct values are named by distinct texts.
pub proof fn lemma_color_symbol_str_injective(a: ColorSymbol, b: ColorSymbol)
    requires
        color_symbol_str(a) == color_symbol_str(b),
    ensures
        a == b,
{
    lemma_color_symbol_decode(a);
    lemma_color_symbol_decode(b);
}

impl ColorSymbol {
    /// The wire text for this value.
    pub fn as_str(&self) -> (r: &'static str)
        ensures
            r@ == color_symbol_str(*self),
    {
        match self {
            ColorSymbol::B => "B",
            ColorSymbol::G => "G",
            ColorSymbol::R => "R",
            ColorSymbol::U => "U",
            ColorSymbol::W => "W",
        }
    }
}

impl ApiModel for ColorSymbol {
    open spec fn inv(&self) -> bool {
        true
    }

    open spec fn matches_tree(&self, t: JVal) -> bool {
        t == JVal::Str(color_symbol_str(*self))
    }

    open spec fn tree_spec(&self) -> JVal {
        JVal::Str(color_symbol_str(*self))
    }

    fn from_tree(t: &JsonValue) -> (r: Option<Self>) {
        match t {
            JsonValue::Str(s) => {
                if str_eq(s.as_str(), "B") {
                    Some(ColorSymbol::B)
                } else if str_eq(s.as_str(), "G") {
                    Some(ColorSymbol::G)
                } else if str_eq(s.as_str(), "R") {
                    Some(ColorSymbol::R)
                } else if str_eq(s.as_str(), "U") {
                    Some(ColorSymbol::U)
                } else if str_eq(s.as_str(), "W") {
                    Some(ColorSymbol::W)
                } else {
                    None
                }
            },
            _ => None,
        }
    }

    fn to_tree(&self) -> (t: JsonValue) {
        JsonValue::Str(self.as_str().to_owned())
    }
}

/// A card symbol.
#[derive(Debug)]
pub struct CardSymbol {
    pub kind: ResourceKind,
    pub symbol: String,
    pub svg_uri: UrlText,
    pub loose_variant: Option<String>,
    pub english: String,
    pub transposable: bool,
    pub represents_mana: bool,
    pub appears_in_mana_costs: bool,
    pub cmc: Option<NumberText>,
    pub funny: bool,
    pub colors: Vec<ColorSymbol>,
    pub gatherer_alternates: Option<Vec<String>>,
}

/// The members of the tree a CardSymbol encodes to, in wire order.
pub open spec fn card_symbol_pairs(m: CardSymbol) -> Seq<(Seq<char>, JVal)> {
    seq![
        ("object"@, m.kind.tree_spec()),
        ("symbol"@, m.symbol.tree_spec()),
        ("svg_uri"@, m.svg_uri.tree_spec()),
        ("loose_variant"@, opt_tree(m.loose_variant)),
        ("english"@, m.english.tree_spec()),
        ("transposable"@, m.transposable.tree_spec()),
        ("represents_mana"@, m.represents_mana.tree_spec()),
        ("appears_in_mana_costs"@, m.appears_in_mana_costs.tree_spec()),
        ("cmc"@, opt_tree(m.cmc)),
        ("funny"@, m.funny.tree_spec()),
        ("colors"@, m.colors.tree_spec()),
        ("gatherer_alternates"@, opt_tree(m.gatherer_alternates)),
    ]
}

impl ApiModel for CardSymbol {
    open spec fn inv(&self) -> bool {
        self.svg_uri.inv()
    }

    open spec fn matches_tree(&self, t: JVal) -> bool {
        &&& t matches JVal::Obj(ps)
        &&& field_like(ps, "object"@, self.kind)
        &&& field_like(ps, "symbol"@, self.symbol)
        &&& field_like(ps, "svg_uri"@, self.svg_uri)
        &&& opt_field_like(ps, "loose_variant"@, self.loose_variant)
        &&& field_like(ps, "english"@, self.english)
        &&& field_like(ps, "transposable"@, self.transposable)
        &&& field_like(ps, "represents_mana"@, self.represents_mana)
        &&& field_like(ps, "appears_in_mana_costs"@, self.appears_in_mana_costs)
        &&& opt_field_like(ps, "cmc"@, self.cmc)
        &&& field_like(ps, "funny"@, self.funny)
        &&& field_like(ps, "colors"@, self.colors)
        &&& opt_field_like(ps, "gatherer_alternates"@, self.gatherer_alternates)
    }

    open spec fn tree_spec(&self) -> JVal {
        JVal::Obj(card_symbol_pairs(*self))
    }

    fn from_tree(t: &JsonValue) -> (r: Option<Self>) {
        match t {
            JsonValue::Obj(ps) => {
                proof {
                    assert(t@ == JVal::Obj(jpairs_of(ps@)));
                }
                let kind = match read_field::<ResourceKind>(ps, "object") {
                    Some(x) => x,
                    None => {
                        return None;
                    },
                };
                let symbol = match read_field::<String>(ps, "symbol") {
                    Some(x) => x,
                    None => {
                        return None;
                    },
                };
                let svg_uri = match read_field::<UrlText>(ps, "svg_uri") {
                    Some(x) => x,
                    None => {
                        return None;
                    },
                };
                let loose_variant = match read_opt::<String>(ps, "loose_variant") {
                    Some(x) => x,
                    None => {
                        return None;
                    },
                };
                let english = match read_field::<String>(ps, "english") {
                    Some(x) => x,
                    None => {
                        return None;
                    },
                };
                let transposable = match read_field::<bool>(ps, "transposable") {
                    Some(x) => x,
                    None => {
                        return None;
                    },
                };
                let represents_mana = match read_field::<bool>(ps, "represents_mana") {
                    Some(x) => x,
                    None => {
                        return None;
                    },
                };
                let appears_in_mana_costs = match read_field::<bool>(ps, "appears_in_mana_costs") {
                    Some(x) => x,
                    None => {
                        return None;
                    },
                };
                let cmc = match read_opt::<NumberText>(ps, "cmc") {
                    Some(x) => x,
                    None => {
                        return None;
                    },
                };
                let funny = match read_field::<bool>(ps, "funny") {
                    Some(x) => x,
                    None => {
                        return None;
                    },
                };
                let colors = match read_field::<Vec<ColorSymbol>>(ps, "colors") {
                    Some(x) => x,
                    None => {
                        return None;
                    },
                };
                let gatherer_alternates = match read_opt::<Vec<String>>(ps, "gatherer_alternates") {
                    Some(x) => x,
                    None => {
                        return None;
                    },
                };
                Some(CardSymbol { kind, symbol, svg_uri, loose_variant, english, transposable, represents_mana, appears_in_mana_costs, cmc, funny, colors, gatherer_alternates })
            },
            _ => None,
        }
    }

    fn to_tree(&self) -> (t: JsonValue) {
        let mut ps: Vec<(String, JsonValue)> = Vec::new();
        ps.push(("object".to_owned(), self.kind.to_tree()));
        ps.push(("symbol".to_owned(), self.symbol.to_tree()));
        ps.push(("svg_uri".to_owned(), self.svg_uri.to_tree()));
        ps.push(("loose_variant".to_owned(), opt_to_tree(&self.loose_variant)));
        ps.push(("english".to_owned(), self.english.to_tree()));
        ps.push(("transposable".to_owned(), self.transposable.to_tree()));
        ps.push(("represents_mana".to_owned(), self.represents_mana.to_tree()));
        ps.push(("appears_in_mana_costs".to_owned(), self.appears_in_mana_costs.to_tree()));
        ps.push(("cmc".to_owned(), opt_to_tree(&self.cmc)));
        ps.push(("funny".to_owned(), self.funny.to_tree()));
        ps.push(("colors".to_owned(), self.colors.to_tree()));
        ps.push(("gatherer_alternates".to_owned(), opt_to_tree(&self.gatherer_alternates)));
        let r = JsonValue::Obj(ps);
        proof {
            assert(jpairs_of(ps@) =~= card_symbol_pairs(*self));
        }
        r
    }
}

/// Law: the canonical tree of a valid CardSymbol carries exactly
/// that value, so decoding what it encodes to yields its data back.
pub proof fn lemma_card_symbol_round_trip(m: CardSymbol)
    ensures
        m.inv() ==> m.matches_tree(m.tree_spec()),
{
    if m.inv() {
        reveal_strlit("object");
        reveal_strlit("symbol");
        reveal_strlit("svg_uri");
        reveal_strlit("loose_variant");
        reveal_strlit("english");
        reveal_strlit("transposable");
        reveal_strlit("represents_mana");
        reveal_strlit("appears_in_mana_costs");
        reveal_strlit("cmc");
        reveal_strlit("funny");
        reveal_strlit("colors");
        reveal_strlit("gatherer_alternates");
        assert("object"@.len() == 6 && "object"@[0] == 'o');
        assert("symbol"@.len() == 6 && "symbol"@[0] == 's');
        assert("svg_uri"@.len() == 7 && "svg_uri"@[0] == 's');
        assert("loose_variant"@.len() == 13 && "loose_variant"@[0] == 'l');
        assert("english"@.len() == 7 && "english"@[0] == 'e');
        assert("transposable"@.len() == 12 && "transposable"@[0] == 't');
        assert("represents_mana"@.len() == 15 && "represents_mana"@[0] == 'r');
        assert("appears_in_mana_costs"@.len() == 21 && "appears_in_mana_costs"@[0] == 'a');
        assert("cmc"@.len() == 3 && "cmc"@[0] == 'c');
        assert("funny"@.len() == 5 && "funny"@[0] == 'f');
        assert("colors"@.len() == 6 && "colors"@[0] == 'c');
        assert("gatherer_alternates"@.len() == 19 && "gatherer_alternates"@[0] == 'g');
        let ps = card_symbol_pairs(m);
        assert(ps[0].0 == "object"@);
        assert(ps[1].0 == "symbol"@);
        assert(ps[2].0 == "svg_uri"@);
        assert(ps[3].0 == "loose_variant"@);
        assert(ps[4].0 == "english"@);
        assert(ps[5].0 == "transposable"@);
        assert(ps[6].0 == "represents_mana"@);
        assert(ps[7].0 == "appears_in_mana_costs"@);
        assert(ps[8].0 == "cmc"@);
        assert(ps[9].0 == "funny"@);
        assert(ps[10].0 == "colors"@);
        assert(ps[11].0 == "gatherer_alternates"@);
        lemma_jobj_get_at(ps, "object"@, 0);
        lemma_jobj_get_at(ps, "symbol"@, 1);
        lemma_jobj_get_at(ps, "svg_uri"@, 2);
        lemma_jobj_get_at(ps, "loose_variant"@, 3);
        lemma_jobj_get_at(ps, "english"@, 4);
        lemma_jobj_get_at(ps, "transposable"@, 5);
        lemma_jobj_get_at(ps, "represents_mana"@, 6);
        lemma_jobj_get_at(ps, "appears_in_mana_costs"@, 7);
        lemma_jobj_get_at(ps, "cmc"@, 8);
        lemma_jobj_get_at(ps, "funny"@, 9);
        lemma_jobj_get_at(ps, "colors"@, 10);
        lemma_jobj_get_at(ps, "gatherer_alternates"@, 11);
        let tv = m.colors@.map_values(|x: ColorSymbol| x.tree_spec());
        assert forall|i2: int| 0 <= i2 < tv.len() implies (#[trigger] m.colors@[i2]).matches_tree(tv[i2]) by {
            assert(tv[i2] == m.colors@[i2].tree_spec());
        }
        assert(m.colors.matches_tree(m.colors.tree_spec()));
        match m.gatherer_alternates {
            Some(x) => {
                let tv = x@.map_values(|x: String| x.tree_spec());
                assert forall|i2: int| 0 <= i2 < tv.len() implies (#[trigger] x@[i2]).matches_tree(tv[i2]) by {
                    assert(tv[i2] == x@[i2].tree_spec());
                }
                assert(x.matches_tree(x.tree_spec()));
            },
            None => {},
        }
    }
}

impl CardSymbol {
    /// Two values carry the same data: every member reads back equal.
    pub open spec fn same_data(&self, other: &CardSymbol) -> bool {
        &&& self.kind == other.kind
        &&& self.symbol@ == other.symbol@
        &&& self.svg_uri.0@ == other.svg_uri.0@
        &&& match (self.loose_variant, other.loose_variant) { (Some(va), Some(vb)) => va@ == vb@, (None, None) => true, _ => false }
        &&& self.english@ == other.english@
        &&& self.transposable == other.transposable
        &&& self.represents_mana == other.represents_mana
        &&& self.appears_in_mana_costs == other.appears_in_mana_costs
        &&& match (self.cmc, other.cmc) { (Some(va), Some(vb)) => va.0@ == vb.0@, (None, None) => true, _ => false }
        &&& self.funny == other.funny
        &&& self.colors@ == other.colors@
        &&& match (self.gatherer_alternates, other.gatherer_alternates) { (Some(va), Some(vb)) => va@.len() == vb@.len() && (forall|i: int| #![auto] 0 <= i < va@.len() ==> va@[i]@ == vb@[i]@), (None, None) => true, _ => false }
    }
}

/// Law: a tree determines the data it carries; two values matching one
/// tree carry the same data.
pub proof fn lemma_card_symbol_decode_functional(a: CardSymbol, b: CardSymbol, t: JVal)
    ensures
        a.matches_tree(t) && b.matches_tree(t) ==> a.same_data(&b),
{
    if a.matches_tree(t) && b.matches_tree(t) {
        let ps = t->Obj_0;
        lemma_kind_str_injective(a.kind, b.kind);
        match jobj_get(ps, "colors"@) {
            Some(JVal::Arr(av)) => {
                assert forall|i2: int| 0 <= i2 < av.len() implies a.colors@[i2] == b.colors@[i2] by {
                    assert(a.colors@[i2].matches_tree(av[i2]));
                    assert(b.colors@[i2].matches_tree(av[i2]));
                    lemma_color_symbol_str_injective(a.colors@[i2], b.colors@[i2]);
                }
                assert(a.colors@ =~= b.colors@);
            },
            _ => {},
        }
        match (a.gatherer_alternates, b.gatherer_alternates) {
            (Some(va), Some(vb)) => {
                match jobj_get(ps, "gatherer_alternates"@) {
                    Some(JVal::Arr(av)) => {
                        assert forall|i2: int| 0 <= i2 < av.len() implies #[trigger] va@[i2]@ == vb@[i2]@ by {
                            assert(va@[i2].matches_tree(av[i2]));
                            assert(vb@[i2].matches_tree(av[i2]));
                        }
                    },
                    _ => {},
                }
            },
            _ => {},
        }
    }
}

/// Basic struct representing a card symbol list.
#[derive(Debug)]
pub struct CardSymbolList {
    pub kind: ResourceKind,
    pub has_more: bool,
    pub data: Vec<CardSymbol>,
}

/// The members of the tree a CardSymbolList encodes to, in wire order.
pub open spec fn card_symbol_list_pairs(m: CardSymbolList) -> Seq<(Seq<char>, JVal)> {
    seq![
        ("object"@, m.kind.tree_spec()),
        ("has_more"@, m.has_more.tree_spec()),
        ("data"@, m.data.tree_spec()),
    ]
}

impl ApiModel for CardSymbolList {
    open spec fn inv(&self) -> bool {
        self.data.inv()
    }

    open spec fn matches_tree(&self, t: JVal) -> bool {
        &&& t matches JVal::Obj(ps)
        &&& field_like(ps, "object"@, self.kind)
        &&& field_like(ps, "has_more"@, self.has_more)
        &&& field_like(ps, "data"@, self.data)
    }

    open spec fn tree_spec(&self) -> JVal {
        JVal::Obj(card_symbol_list_pairs(*self))
    }

    fn from_tree(t: &JsonValue) -> (r: Option<Self>) {
        match t {
            JsonValue::Obj(ps) => {
                proof {
                    assert(t@ == JVal::Obj(jpairs_of(ps@)));
                }
                let kind = match read_field::<ResourceKind>(ps, "object") {
                    Some(x) => x,
                    None => {
                        return None;
                    },
                };
                let has_more = match read_field::<bool>(ps, "has_more") {
                    Some(x) => x,
                    None => {
                        return None;
                    },
                };
                let data = match read_field::<Vec<CardSymbol>>(ps, "data") {
                    Some(x) => x,
                    None => {
                        return None;
                    },
                };
                Some(CardSymbolList { kind, has_more, data })
            },
            _ => None,
        }
    }

    fn to_tree(&self) -> (t: JsonValue) {
        let mut ps: Vec<(String, JsonValue)> = Vec::new();
        ps.push(("object".to_owned(), self.kind.to_tree()));
        ps.push(("has_more".to_owned(), self.has_more.to_tree()));
        ps.push(("data".to_owned(), self.data.to_tree()));
        let r = JsonValue::Obj(ps);
        proof {
            assert(jpairs_of(ps@) =~= card_symbol_list_pairs(*self));
        }
        r
    }
}

/// Law: the canonical tree of a valid CardSymbolList carries exactly
/// that value, so decoding what it encodes to yields its data back.
pub proof fn lemma_card_symbol_list_round_trip(m: CardSymbolList)
    ensures
        m.inv() ==> m.matches_tree(m.tree_spec()),
{
    if m.inv() {
        reveal_strlit("object");
        reveal_strlit("has_more");
        reveal_strlit("data");
        assert("object"@.len() == 6 && "object"@[0] == 'o');
        assert("has_more"@.len() == 8 && "has_more"@[0] == 'h');
        assert("data"@.len() == 4 && "data"@[0] == 'd');
        let ps = card_symbol_list_pairs(m);
        assert(ps[0].0 == "object"@);
        assert(ps[1].0 == "has_more"@);
        assert(ps[2].0 == "data"@);
        lemma_jobj_get_at(ps, "object"@, 0);
        lemma_jobj_get_at(ps, "has_more"@, 1);
        lemma_jobj_get_at(ps, "data"@, 2);
        let tv = m.data@.map_values(|x: CardSymbol| x.tree_spec());
        assert forall|i2: int| 0 <= i2 < tv.len() implies (#[trigger] m.data@[i2]).matches_tree(tv[i2]) by {
            lemma_card_symbol_round_trip(m.data@[i2]);
        }
        assert(m.data.matches_tree(m.data.tree_spec()));
    }
}

impl CardSymbolList {
    /// Two values carry the same data: every member reads back equal.
    pub open spec fn same_data(&self, other: &CardSymbolList) -> bool {
        &&& self.kind == other.kind
        &&& self.has_more == other.has_more
        &&& self.data@.len() == other.data@.len() && (forall|i: int| 0 <= i < self.data@.len() ==> (#[trigger] self.data@[i]).same_data(&other.data@[i]))
    }
}

/// Law: a tree determines the data it carries; two values matching one
/// tree carry the same data.
pub proof fn lemma_card_symbol_list_decode_functional(a: CardSymbolList, b: CardSymbolList, t: JVal)
    ensures
        a.matches_tree(t) && b.matches_tree(t) ==> a.same_data(&b),
{
    if a.matches_tree(t) && b.matches_tree(t) {
        let ps = t->Obj_0;
        lemma_kind_str_injective(a.kind, b.kind);
        match jobj_get(ps, "data"@) {
            Some(JVal::Arr(av)) => {
                assert forall|i2: int| 0 <= i2 < av.len() implies (#[trigger] a.data@[i2]).same_data(&b.data@[i2]) by {
                    assert(a.data@[i2].matches_tree(av[i2]));
                    assert(b.data@[i2].matches_tree(av[i2]));
                    lemma_card_symbol_decode_functional(a.data@[i2], b.data@[i2], av[i2]);
                }
            },
            _ => {},
        }
    }
}

/// A mana cost entry.
#[derive(Debug)]
pub struct ManaCost {
    pub kind: ResourceKind,
    pub cost: String,
    pub colors: Vec<ColorSymbol>,
    pub cmc: i64,
    pub colorless: bool,
    pub monocolored: bool,
    pub multicolored: bool,
}

/// The members of the tree a ManaCost encodes to, in wire order.
pub open spec fn mana_cost_pairs(m: ManaCost) -> Seq<(Seq<char>, JVal)> {
    seq![
        ("object"@, m.kind.tree_spec()),
        ("cost"@, m.cost.tree_spec()),
        ("colors"@, m.colors.tree_spec()),
        ("cmc"@, m.cmc.tree_spec()),
        ("colorless"@, m.colorless.tree_spec()),
        ("monocolored"@, m.monocolored.tree_spec()),
        ("multicolored"@, m.multicolored.tree_spec()),
    ]
}

impl ApiModel for ManaCost {
    open spec fn inv(&self) -> bool {
        true
    }

    open spec fn matches_tree(&self, t: JVal) -> bool {
        &&& t matches JVal::Obj(ps)
        &&& field_like(ps, "object"@, self.kind)
        &&& field_like(ps, "cost"@, self.cost)
        &&& field_like(ps, "colors"@, self.colors)
        &&& field_like(ps, "cmc"@, self.cmc)
        &&& field_like(ps, "colorless"@, self.colorless)
        &&& field_like(ps, "monocolored"@, self.monocolored)
        &&& field_like(ps, "multicolored"@, self.multicolored)
    }

    open spec fn tree_spec(&self) -> JVal {
        JVal::Obj(mana_cost_pairs(*self))
    }

    fn from_tree(t: &JsonValue) -> (r: Option<Self>) {
        match t {
            JsonValue::Obj(ps) => {
                proof {
                    assert(t@ == JVal::Obj(jpairs_of(ps@)));
                }
                let kind = match read_field::<ResourceKind>(ps, "object") {
                    Some(x) => x,
                    None => {
                        return None;
                    },
                };
                let cost = match read_field::<String>(ps, "cost") {
                    Some(x) => x,
                    None => {
                        return None;
                    },
                };
                let colors = match read_field::<Vec<ColorSymbol>>(ps, "colors") {
                    Some(x) => x,
                    None => {
                        return None;
                    },
                };
                let cmc = match read_field::<i64>(ps, "cmc") {
                    Some(x) => x,
                    None => {
                        return None;
                    },
                };
                let colorless = match read_field::<bool>(ps, "colorless") {
                    Some(x) => x,
                    None => {
                        return None;
                    },
                };
                let monocolored = match read_field::<bool>(ps, "monocolored") {
                    Some(x) => x,
                    None => {
                        return None;
                    },
                };
                let multicolored = match read_field::<bool>(ps, "multicolored") {
                    Some(x) => x,
                    None => {
                        return None;
                    },
                };
                Some(ManaCost { kind, cost, colors, cmc, colorless, monocolored, multicolored })
            },
            _ => None,
        }
    }

    fn to_tree(&self) -> (t: JsonValue) {
        let mut ps: Vec<(String, JsonValue)> = Vec::new();
        ps.push(("object".to_owned(), self.kind.to_tree()));
        ps.push(("cost".to_owned(), self.cost.to_tree()));
        ps.push(("colors".to_owned(), self.colors.to_tree()));
        ps.push(("cmc".to_owned(), self.cmc.to_tree()));
        ps.push(("colorless".to_owned(), self.colorless.to_tree()));
        ps.push(("monocolored".to_owned(), self.monocolored.to_tree()));
        ps.push(("multicolored".to_owned(), self.multicolored.to_tree()));
        let r = JsonValue::Obj(ps);
        proof {
            assert(jpairs_of(ps@) =~= mana_cost_pairs(*self));
        }
        r
    }
}

/// Law: the canonical tree of a valid ManaCost carries exactly
/// that value, so decoding what it encodes to yields its data back.
pub proof fn lemma_mana_cost_round_trip(m: ManaCost)
    ensures
        m.inv() ==> m.matches_tree(m.tree_spec()),
{
    if m.inv() {
        reveal_strlit("object");
        reveal_strlit("cost");
        reveal_strlit("colors");
        reveal_strlit("cmc");
        reveal_strlit("colorless");
        reveal_strlit("monocolored");
        reveal_strlit("multicolored");
        assert("object"@.len() == 6 && "object"@[0] == 'o');
        assert("cost"@.len() == 4 && "cost"@[0] == 'c');
        assert("colors"@.len() == 6 && "colors"@[0] == 'c');
        assert("cmc"@.len() == 3 && "cmc"@[0] == 'c');
        assert("colorless"@.len() == 9 && "colorless"@[0] == 'c');
        assert("monocolored"@.len() == 11 && "monocolored"@[0] == 'm');
        assert("multicolored"@.len() == 12 && "multicolored"@[0] == 'm');
        let ps = mana_cost_pairs(m);
        assert(ps[0].0 == "object"@);
        assert(ps[1].0 == "cost"@);
        assert(ps[2].0 == "colors"@);
        assert(ps[3].0 == "cmc"@);
        assert(ps[4].0 == "colorless"@);
        assert(ps[5].0 == "monocolored"@);
        assert(ps[6].0 == "multicolored"@);
        lemma_jobj_get_at(ps, "object"@, 0);
        lemma_jobj_get_at(ps, "cost"@, 1);
        lemma_jobj_get_at(ps, "colors"@, 2);
        lemma_jobj_get_at(ps, "cmc"@, 3);
        lemma_jobj_get_at(ps, "colorless"@, 4);
        lemma_jobj_get_at(ps, "monocolored"@, 5);
        lemma_jobj_get_at(ps, "multicolored"@, 6);
        let tv = m.colors@.map_values(|x: ColorSymbol| x.tree_spec());
        assert forall|i2: int| 0 <= i2 < tv.len() implies (#[trigger] m.colors@[i2]).matches_tree(tv[i2]) by {
            assert(tv[i2] == m.colors@[i2].tree_spec());
        }
        assert(m.colors.matches_tree(m.colors.tree_spec()));
    }
}

impl ManaCost {
    /// Two values carry the same data: every member reads back equal.
    pub open spec fn same_data(&self, other: &ManaCost) -> bool {
        &&& self.kind == other.kind
        &&& self.cost@ == other.cost@
        &&& self.colors@ == other.colors@
        &&& self.cmc == other.cmc
        &&& self.colorless == other.colorless
        &&& self.monocolored == other.monocolored
        &&& self.multicolored == other.multicolored
    }
}

/// Law: a tree determines the data it carries; two values matching one
/// tree carry the same data.
pub proof fn lemma_mana_cost_decode_functional(a: ManaCost, b: ManaCost, t: JVal)
    ensures
        a.matches_tree(t) && b.matches_tree(t) ==> a.same_data(&b),
{
    if a.matches_tree(t) && b.matches_tree(t) {
        let ps = t->Obj_0;
        lemma_kind_str_injective(a.kind, b.kind);
        match jobj_get(ps, "colors"@) {
            Some(JVal::Arr(av)) => {
                assert forall|i2: int| 0 <= i2 < av.len() implies a.colors@[i2] == b.colors@[i2] by {
                    assert(a.colors@[i2].matches_tree(av[i2]));
                    assert(b.colors@[i2].matches_tree(av[i2]));
                    lemma_color_symbol_str_injective(a.colors@[i2], b.colors@[i2]);
                }
                assert(a.colors@ =~= b.colors@);
            },
            _ => {},
        }
    }
}

} // verus!
