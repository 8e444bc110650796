//! Card sets resource definitions.

use vstd::prelude::*;

use crate::json::{jobj_get, jpairs_of, lemma_jobj_get_at, lemma_jpairs_of_index,
    lemma_jpairs_of_len, lemma_jvals_of_index, lemma_jvals_of_len, JVal, JsonValue};
use crate::model::{field_like, opt_field_like, opt_inv, opt_to_tree, opt_tree, read_field,
    read_opt, ApiModel, DateText, UrlText};
use crate::resources::{lemma_kind_str_injective, HttpResource, Method, ResourceKind};
use crate::text::str_eq;

verus! {

broadcast use lemma_jpairs_of_len, lemma_jpairs_of_index, lemma_jvals_of_len, lemma_jvals_of_index;

/// Endpoints for the `sets` resource (list).
pub enum CardSetListResource {
    /// Binding for endpoint `GET sets`.
    All,
}

/// Endpoints for single `sets` entries.
pub enum CardSetResource<'a> {
    /// Binding for `GET sets/:code` and `GET sets/:id`.
    ///
    /// The vendor exposes two endpoints, but both filter by one value, so
    /// one binding covers them.
    Filter(&'a str),
    /// Binding for endpoint `GET sets/tcgplayer/:id`.
    WithTcgPlayerId(&'a str),
}

impl HttpResource<CardSetList> for CardSetListResource {
    open spec fn spec_method(&self) -> Method {
        Method::Get
    }

    open spec fn spec_path(&self) -> Seq<char> {
        "sets"@
    }

    open spec fn spec_body(&self) -> Option<Seq<char>> {
        None
    }

    fn method(&self) -> (m: Method) {
        Method::Get
    }

    fn path(&self) -> (p: String) {
        String::from_str("sets")
    }

    fn json(&self) -> (b: Option<String>) {
        None
    }
}

impl<'a> HttpResource<CardSet> for CardSetResource<'a> {
    open spec fn spec_method(&self) -> Method {
        Method::Get
    }

    open spec fn spec_path(&self) -> Seq<char> {
        match *self {
            CardSetResource::Filter(by) => "sets/"@ + by@,
            CardSetResource::WithTcgPlayerId(id) => "sets/tcgplayer/"@ + id@,
        }
    }

    open spec fn spec_body(&self) -> Option<Seq<char>> {
        None
    }

    fn method(&self) -> (m: Method) {
        Method::Get
    }

    fn path(&self) -> (p: String) {
        match self {
            CardSetResource::Filter(by) => {
                let p = String::from_str("sets/").concat(by);
                proof {
                    assert(p@ =~= self.spec_path());
                }
                p
            },
            CardSetResource::WithTcgPlayerId(id) => {
                let p = String::from_str("sets/tcgplayer/").concat(id);
                proof {
                    assert(p@ =~= self.spec_path());
                }
                p
            },
        }
    }

    fn json(&self) -> (b: Option<String>) {
        None
    }
}

/// Kind of card set; the vendor's `set_type` member.
#[derive(Clone, Copy, Debug, PartialEq, Eq, Structural)]
pub enum SetKind {
    Alchemy,
    Archenemy,
    Arsenal,
    Box,
    Commander,
    Core,
    DraftInnovation,
    DuelDeck,
    Expansion,
    FromTheVault,
    Funny,
    Masterpiece,
    Masters,
    Memorabilia,
    Planechase,
    PremiumDeck,
    Promo,
    Spellbook,
    Starter,
    Token,
    TreasureChest,
    Vanguard,
}

/// The wire text of each `SetKind` value.
pub open spec fn set_kind_str(k: SetKind) -> Seq<char> {
    match k {
        SetKind::Alchemy => "alchemy"@,
        SetKind::Archenemy => "archenemy"@,
        SetKind::Arsenal => "arsenal"@,
        SetKind::Box => "box"@,
        SetKind::Commander => "commander"@,
        SetKind::Core => "core"@,
        SetKind::DraftInnovation => "draft_innovation"@,
        SetKind::DuelDeck => "duel_deck"@,
        SetKind::Expansion => "expansion"@,
        SetKind::FromTheVault => "from_the_vault"@,
        SetKind::Funny => "funny"@,
        SetKind::Masterpiece => "masterpiece"@,
        SetKind::Masters => "masters"@,
        SetKind::Memorabilia => "memorabilia"@,
        SetKind::Planechase => "planechase"@,
        SetKind::PremiumDeck => "premium_deck"@,
        SetKind::Promo => "promo"@,
        SetKind::Spellbook => "spellbook"@,
        SetKind::Starter => "starter"@,
        SetKind::Token => "token"@,
        SetKind::TreasureChest => "treasure_chest"@,
        SetKind::Vanguard => "vanguard"@,
    }
}

/// The `SetKind` value a wire text names, if any.
pub open spec fn set_kind_of_str(s: Seq<char>) -> Option<SetKind> {
    if s == "alchemy"@ {
        Some(SetKind::Alchemy)
    } else if s == "archenemy"@ {
        Some(SetKind::Archenemy)
    } else if s == "arsenal"@ {
        Some(SetKind::Arsenal)
    } else if s == "box"@ {
        Some(SetKind::Box)
    } else if s == "commander"@ {
        Some(SetKind::Commander)
    } else if s == "core"@ {
        Some(SetKind::Core)
    } else if s == "draft_innovation"@ {
        Some(SetKind::DraftInnovation)
    } else if s == "duel_deck"@ {
        Some(SetKind::DuelDeck)
    } else if s == "expansion"@ {
        Some(SetKind::Expansion)
    } else if s == "from_the_vault"@ {
        Some(SetKind::FromTheVault)
    } else if s == "funny"@ {
        Some(SetKind::Funny)
    } else if s == "masterpiece"@ {
        Some(SetKind::Masterpiece)
    } else if s == "masters"@ {
        Some(SetKind::Masters)
    } else if s == "memorabilia"@ {
        Some(SetKind::Memorabilia)
    } else if s == "planechase"@ {
        Some(SetKind::Planechase)
    } else if s == "premium_deck"@ {
        Some(SetKind::PremiumDeck)
    } else if s == "promo"@ {
        Some(SetKind::Promo)
    } else if s == "spellbook"@ {
        Some(SetKind::Spellbook)
    } else if s == "starter"@ {
        Some(SetKind::Starter)
    } else if s == "token"@ {
        Some(SetKind::Token)
    } else if s == "treasure_chest"@ {
        Some(SetKind::TreasureChest)
    } else if s == "vanguard"@ {
        Some(SetKind::Vanguard)
    } else {
        None
    }
}

/// The text that names a value reads back as that value.
pub proof fn lemma_set_kind_decode(k: SetKind)
    ensures
        set_kind_of_str(set_kind_str(k)) == Some(k),
{
    reveal_strlit("alchemy");
    reveal_strlit("archenemy");
    reveal_strlit("arsenal");
    reveal_strlit("box");
    reveal_strlit("commander");
    reveal_strlit("core");
    reveal_strlit("draft_innovation");
    reveal_strlit("duel_deck");
    reveal_strlit("expansion");
    reveal_strlit("from_the_vault");
    reveal_strlit("funny");
    reveal_strlit("masterpiece");
    reveal_strlit("masters");
    reveal_strlit("memorabilia");
    reveal_strlit("planechase");
    reveal_strlit("premium_deck");
    reveal_strlit("promo");
    reveal_strlit("spellbook");
    reveal_strlit("starter");
    reveal_strlit("token");
    reveal_strlit("treasure_chest");
    reveal_strlit("vanguard");
    assert("alchemy"@.len() == 7 && "alchemy"@[0] == 'a' && "alchemy"@[1] == 'l');
    assert("archenemy"@.len() == 9 && "archenemy"@[0] == 'a');
    assert("arsenal"@.len() == 7 && "arsenal"@[0] == 'a' && "arsenal"@[1] == 'r');
    assert("box"@.len() == 3 && "box"@[0] == 'b');
    assert("commander"@.len() == 9 && "commander"@[0] == 'c');
    assert("core"@.len() == 4 && "core"@[0] == 'c');
    assert("draft_innovation"@.len() == 16 && "draft_innovation"@[0] == 'd');
    assert("duel_deck"@.len() == 9 && "duel_deck"@[0] == 'd');
    assert("expansion"@.len() == 9 && "expansion"@[0] == 'e');
    assert("from_the_vault"@.len() == 14 && "from_the_vault"@[0] == 'f');
    assert("funny"@.len() == 5 && "funny"@[0] == 'f');
    assert("masterpiece"@.len() == 11 && "masterpiece"@[0] == 'm' && "masterpiece"@[1] == 'a');
    assert("masters"@.len() == 7 && "masters"@[0] == 'm');
    assert("memorabilia"@.len() == 11 && "memorabilia"@[0] == 'm' && "memorabilia"@[1] == 'e');
    assert("planechase"@.len() == 10 && "planechase"@[0] == 'p');
    assert("premium_deck"@.len() == 12 && "premium_deck"@[0] == 'p');
    assert("promo"@.len() == 5 && "promo"@[0] == 'p');
    assert("spellbook"@.len() == 9 && "spellbook"@[0] == 's');
    assert("starter"@.len() == 7 && "starter"@[0] == 's');
    assert("token"@.len() == 5 && "token"@[0] == 't');
    assert("treasure_chest"@.len() == 14 && "treasure_chest"@[0] == 't');
    assert("vanguard"@.len() == 8 && "vanguard"@[0] == 'v');
    match k {
        SetKind::Alchemy => assert(set_kind_of_str(set_kind_str(k)) == Some(k)),
        SetKind::Archenemy => assert(set_kind_of_str(set_kind_str(k)) == Some(k)),
        SetKind::Arsenal => assert(set_kind_of_str(set_kind_str(k)) == Some(k)),
        SetKind::Box => assert(set_kind_of_str(set_kind_str(k)) == Some(k)),
        SetKind::Commander => assert(set_kind_of_str(set_kind_str(k)) == Some(k)),
        SetKind::Core => assert(set_kind_of_str(set_kind_str(k)) == Some(k)),
        SetKind::DraftInnovation => assert(set_kind_of_str(set_kind_str(k)) == Some(k)),
        SetKind::DuelDeck => assert(set_kind_of_str(set_kind_str(k)) == Some(k)),
        SetKind::Expansion => assert(set_kind_of_str(set_kind_str(k)) == Some(k)),
        SetKind::FromTheVault => assert(set_kind_of_str(set_kind_str(k)) == Some(k)),
        SetKind::Funny => assert(set_kind_of_str(set_kind_str(k)) == Some(k)),
        SetKind::Masterpiece => assert(set_kind_of_str(set_kind_str(k)) == Some(k)),
        SetKind::Masters => assert(set_kind_of_str(set_kind_str(k)) == Some(k)),
        SetKind::Memorabilia => assert(set_kind_of_str(set_kind_str(k)) == Some(k)),
        SetKind::Planechase => assert(set_kind_of_str(set_kind_str(k)) == Some(k)),
        SetKind::PremiumDeck => assert(set_kind_of_str(set_kind_str(k)) == Some(k)),
        SetKind::Promo => assert(set_kind_of_str(set_kind_str(k)) == Some(k)),
        SetKind::Spellbook => assert(set_kind_of_str(set_kind_str(k)) == Some(k)),
        SetKind::Starter => assert(set_kind_of_str(set_kind_str(k)) == Some(k)),
        SetKind::Token => assert(set_kind_of_str(set_kind_str(k)) == Some(k)),
        SetKind::TreasureChest => assert(set_kind_of_str(set_kind_str(k)) == Some(k)),
        SetKind::Vanguard => assert(set_kind_of_str(set_kind_str(k)) == Some(k)),
    }
}

/// Distinct values are named by distinct texts.
pub proof fn lemma_set_kind_str_injective(a: SetKind, b: SetKind)
    requires
        set_kind_str(a) == set_kind_str(b),
    ensures
        a == b,
{
    lemma_set_kind_decode(a);
    lemma_set_kind_decode(b);
}

impl SetKind {
    /// The wire text for this value.
    pub fn as_str(&self) -> (r: &'static str)
        ensures
            r@ == set_kind_str(*self),
    {
        match self {
            SetKind::Alchemy => "alchemy",
            SetKind::Archenemy => "archenemy",
            SetKind::Arsenal => "arsenal",
            SetKind::Box => "box",
            SetKind::Commander => "commander",
            SetKind::Core => "core",
            SetKind::DraftInnovation => "draft_innovation",
            SetKind::DuelDeck => "duel_deck",
            SetKind::Expansion => "expansion",
            SetKind::FromTheVault => "from_the_vault",
            SetKind::Funny => "funny",
            SetKind::Masterpiece => "masterpiece",
            SetKind::Masters => "masters",
            SetKind::Memorabilia => "memorabilia",
            SetKind::Planechase => "planechase",
            SetKind::PremiumDeck => "premium_deck",
            SetKind::Promo => "promo",
            SetKind::Spellbook => "spellbook",
            SetKind::Starter => "starter",
            SetKind::Token => "token",
            SetKind::TreasureChest => "treasure_chest",
            SetKind::Vanguard => "vanguard",
        }
    }
}

impl ApiModel for SetKind {
    open spec fn inv(&self) -> bool {
        true
    }

    open spec fn matches_tree(&self, t: JVal) -> bool {
        t == JVal::Str(set_kind_str(*self))
    }

    open spec fn tree_spec(&self) -> JVal {
        JVal::Str(set_kind_str(*self))
    }

    fn from_tree(t: &JsonValue) -> (r: Option<Self>) {
        match t {
            JsonValue::Str(s) => {
                if str_eq(s.as_str(), "alchemy") {
                    Some(SetKind::Alchemy)
                } else if str_eq(s.as_str(), "archenemy") {
                    Some(SetKind::Archenemy)
                } else if str_eq(s.as_str(), "arsenal") {
                    Some(SetKind::Arsenal)
                } else if str_eq(s.as_str(), "box") {
                    Some(SetKind::Box)
                } else if str_eq(s.as_str(), "commander") {
                    Some(SetKind::Commander)
                } else if str_eq(s.as_str(), "core") {
                    Some(SetKind::Core)
                } else if str_eq(s.as_str(), "draft_innovation") {
                    Some(SetKind::DraftInnovation)
                } else if str_eq(s.as_str(), "duel_deck") {
                    Some(SetKind::DuelDeck)
                } else if str_eq(s.as_str(), "expansion") {
                    Some(SetKind::Expansion)
                } else if str_eq(s.as_str(), "from_the_vault") {
                    Some(SetKind::FromTheVault)
                } else if str_eq(s.as_str(), "funny") {
                    Some(SetKind::Funny)
                } else if str_eq(s.as_str(), "masterpiece") {
                    Some(SetKind::Masterpiece)
                } else if str_eq(s.as_str(), "masters") {
                    Some(SetKind::Masters)
                } else if str_eq(s.as_str(), "memorabilia") {
                    Some(SetKind::Memorabilia)
                } else if str_eq(s.as_str(), "planechase") {
                    Some(SetKind::Planechase)
                } else if str_eq(s.as_str(), "premium_deck") {
                    Some(SetKind::PremiumDeck)
                } else if str_eq(s.as_str(), "promo") {
                    Some(SetKind::Promo)
                } else if str_eq(s.as_str(), "spellbook") {
                    Some(SetKind::Spellbook)
                } else if str_eq(s.as_str(), "starter") {
                    Some(SetKind::Starter)
                } else if str_eq(s.as_str(), "token") {
                    Some(SetKind::Token)
                } else if str_eq(s.as_str(), "treasure_chest") {
                    Some(SetKind::TreasureChest)
                } else if str_eq(s.as_str(), "vanguard") {
                    Some(SetKind::Vanguard)
                } else {
                    None
                }
            },
            _ => None,
        }
    }

    fn to_tree(&self) -> (t: JsonValue) {
        JsonValue::Str(self.as_str().to_owned())
    }
}

/// A card set.
#[derive(Debug)]
pub struct CardSet {
    pub item_kind: ResourceKind,
    pub id: String,
    pub code: String,
    pub mtgo_code: Option<String>,
    pub arena_code: Option<String>,
    pub name: String,
    pub uri: UrlText,
    pub scryfall_uri: UrlText,
    pub search_uri: UrlText,
    pub released_at: DateText,
    pub kind: SetKind,
    pub card_count: i64,
    pub digital: bool,
    pub nonfoil_only: bool,
    pub foil_only: bool,
    pub icon_svg_uri: UrlText,
    pub tcgplayer_id: Option<i64>,
    pub parent_set_code: Option<String>,
    pub block_code: Option<String>,
    pub block: Option<String>,
}

/// The members of the tree a CardSet encodes to, in wire order.
pub open spec fn card_set_pairs(m: CardSet) -> Seq<(Seq<char>, JVal)> {
    seq![
        ("object"@, m.item_kind.tree_spec()),
        ("id"@, m.id.tree_spec()),
        ("code"@, m.code.tree_spec()),
        ("mtgo_code"@, opt_tree(m.mtgo_code)),
        ("arena_code"@, opt_tree(m.arena_code)),
        ("name"@, m.name.tree_spec()),
        ("uri"@, m.uri.tree_spec()),
        ("scryfall_uri"@, m.scryfall_uri.tree_spec()),
        ("search_uri"@, m.search_uri.tree_spec()),
        ("released_at"@, m.released_at.tree_spec()),
        ("set_type"@, m.kind.tree_spec()),
        ("card_count"@, m.card_count.tree_spec()),
        ("digital"@, m.digital.tree_spec()),
        ("nonfoil_only"@, m.nonfoil_only.tree_spec()),
        ("foil_only"@, m.foil_only.tree_spec()),
        ("icon_svg_uri"@, m.icon_svg_uri.tree_spec()),
        ("tcgplayer_id"@, opt_tree(m.tcgplayer_id)),
        ("parent_set_code"@, opt_tree(m.parent_set_code)),
        ("block_code"@, opt_tree(m.block_code)),
        ("block"@, opt_tree(m.block)),
    ]
}

impl ApiModel for CardSet {
    open spec fn inv(&self) -> bool {
        &&& self.uri.inv()
        &&& self.scryfall_uri.inv()
        &&& self.search_uri.inv()
        &&& self.released_at.inv()
        &&& self.icon_svg_uri.inv()
    }

    open spec fn matches_tree(&self, t: JVal) -> bool {
        &&& t matches JVal::Obj(ps)
        &&& field_like(ps, "object"@, self.item_kind)
        &&& field_like(ps, "id"@, self.id)
        &&& field_like(ps, "code"@, self.code)
        &&& opt_field_like(ps, "mtgo_code"@, self.mtgo_code)
        &&& opt_field_like(ps, "arena_code"@, self.arena_code)
        &&& field_like(ps, "name"@, self.name)
        &&& field_like(ps, "uri"@, self.uri)
        &&& field_like(ps, "scryfall_uri"@, self.scryfall_uri)
        &&& field_like(ps, "search_uri"@, self.search_uri)
        &&& field_like(ps, "released_at"@, self.released_at)
        &&& field_like(ps, "set_type"@, self.kind)
        &&& field_like(ps, "card_count"@, self.card_count)
        &&& field_like(ps, "digital"@, self.digital)
        &&& field_like(ps, "nonfoil_only"@, self.nonfoil_only)
        &&& field_like(ps, "foil_only"@, self.foil_only)
        &&& field_like(ps, "icon_svg_uri"@, self.icon_svg_uri)
        &&& opt_field_like(ps, "tcgplayer_id"@, self.tcgplayer_id)
        &&& opt_field_like(ps, "parent_set_code"@, self.parent_set_code)
        &&& opt_field_like(ps, "block_code"@, self.block_code)
        &&& opt_field_like(ps, "block"@, self.block)
    }

    open spec fn tree_spec(&self) -> JVal {
        JVal::Obj(card_set_pairs(*self))
    }

    fn from_tree(t: &JsonValue) -> (r: Option<Self>) {
        match t {
            JsonValue::Obj(ps) => {
                proof {
                    assert(t@ == JVal::Obj(jpairs_of(ps@)));
                }
                let item_kind = match read_field::<ResourceKind>(ps, "object") {
                    Some(x) => x,
                    None => {
                        return None;
                    },
                };
                let id = match read_field::<String>(ps, "id") {
                    Some(x) => x,
                    None => {
                        return None;
                    },
                };
                let code = match read_field::<String>(ps, "code") {
                    Some(x) => x,
                    None => {
                        return None;
                    },
                };
                let mtgo_code = match read_opt::<String>(ps, "mtgo_code") {
                    Some(x) => x,
                    None => {
                        return None;
                    },
                };
                let arena_code = match read_opt::<String>(ps, "arena_code") {
                    Some(x) => x,
                    None => {
                        return None;
                    },
                };
                let name = match read_field::<String>(ps, "name") {
                    Some(x) => x,
                    None => {
                        return None;
                    },
                };
                let uri = match read_field::<UrlText>(ps, "uri") {
                    Some(x) => x,
                    None => {
                        return None;
                    },
                };
                let scryfall_uri = match read_field::<UrlText>(ps, "scryfall_uri") {
                    Some(x) => x,
                    None => {
                        return None;
                    },
                };
                let search_uri = match read_field::<UrlText>(ps, "search_uri") {
                    Some(x) => x,
                    None => {
                        return None;
                    },
                };
                let released_at = match read_field::<DateText>(ps, "released_at") {
                    Some(x) => x,
                    None => {
                        return None;
                    },
                };
                let kind = match read_field::<SetKind>(ps, "set_type") {
                    Some(x) => x,
                    None => {
                        return None;
                    },
                };
                let card_count = match read_field::<i64>(ps, "card_count") {
                    Some(x) => x,
                    None => {
                        return None;
                    },
                };
                let digital = match read_field::<bool>(ps, "digital") {
                    Some(x) => x,
                    None => {
                        return None;
                    },
                };
                let nonfoil_only = match read_field::<bool>(ps, "nonfoil_only") {
                    Some(x) => x,
                    None => {
                        return None;
                    },
                };
                let foil_only = match read_field::<bool>(ps, "foil_only") {
                    Some(x) => x,
                    None => {
                        return None;
                    },
                };
                let icon_svg_uri = match read_field::<UrlText>(ps, "icon_svg_uri") {
                    Some(x) => x,
                    None => {
                        return None;
                    },
                };
                let tcgplayer_id = match read_opt::<i64>(ps, "tcgplayer_id") {
                    Some(x) => x,
                    None => {
                        return None;
                    },
                };
                let parent_set_code = match read_opt::<String>(ps, "parent_set_code") {
                    Some(x) => x,
                    None => {
                        return None;
                    },
                };
                let block_code = match read_opt::<String>(ps, "block_code") {
                    Some(x) => x,
                    None => {
                        return None;
                    },
                };
                let block = match read_opt::<String>(ps, "block") {
                    Some(x) => x,
                    None => {
                        return None;
                    },
                };
                Some(CardSet { item_kind, id, code, mtgo_code, arena_code, name, uri, scryfall_uri, search_uri, released_at, kind, card_count, digital, nonfoil_only, foil_only, icon_svg_uri, tcgplayer_id, parent_set_code, block_code, block })
            },
            _ => None,
        }
    }

    fn to_tree(&self) -> (t: JsonValue) {
        let mut ps: Vec<(String, JsonValue)> = Vec::new();
        ps.push(("object".to_owned(), self.item_kind.to_tree()));
        ps.push(("id".to_owned(), self.id.to_tree()));
        ps.push(("code".to_owned(), self.code.to_tree()));
        ps.push(("mtgo_code".to_owned(), opt_to_tree(&self.mtgo_code)));
        ps.push(("arena_code".to_owned(), opt_to_tree(&self.arena_code)));
        ps.push(("name".to_owned(), self.name.to_tree()));
        ps.push(("uri".to_owned(), self.uri.to_tree()));
        ps.push(("scryfall_uri".to_owned(), self.scryfall_uri.to_tree()));
        ps.push(("search_uri".to_owned(), self.search_uri.to_tree()));
        ps.push(("released_at".to_owned(), self.released_at.to_tree()));
        ps.push(("set_type".to_owned(), self.kind.to_tree()));
        ps.push(("card_count".to_owned(), self.card_count.to_tree()));
        ps.push(("digital".to_owned(), self.digital.to_tree()));
        ps.push(("nonfoil_only".to_owned(), self.nonfoil_only.to_tree()));
        ps.push(("foil_only".to_owned(), self.foil_only.to_tree()));
        ps.push(("icon_svg_uri".to_owned(), self.icon_svg_uri.to_tree()));
        ps.push(("tcgplayer_id".to_owned(), opt_to_tree(&self.tcgplayer_id)));
        ps.push(("parent_set_code".to_owned(), opt_to_tree(&self.parent_set_code)));
        ps.push(("block_code".to_owned(), opt_to_tree(&self.block_code)));
        ps.push(("block".to_owned(), opt_to_tree(&self.block)));
        let r = JsonValue::Obj(ps);
        proof {
            assert(jpairs_of(ps@) =~= card_set_pairs(*self));
        }
        r
    }
}

/// Law: the canonical tree of a valid CardSet carries exactly
/// that value, so decoding what it encodes to yields its data back.
pub proof fn lemma_card_set_round_trip(m: CardSet)
    ensures
        m.inv() ==> m.matches_tree(m.tree_spec()),
{
    if m.inv() {
        reveal_strlit("object");
        reveal_strlit("id");
        reveal_strlit("code");
        reveal_strlit("mtgo_code");
        reveal_strlit("arena_code");
        reveal_strlit("name");
        reveal_strlit("uri");
        reveal_strlit("scryfall_uri");
        reveal_strlit("search_uri");
        reveal_strlit("released_at");
        reveal_strlit("set_type");
        reveal_strlit("card_count");
        reveal_strlit("digital");
        reveal_strlit("nonfoil_only");
        reveal_strlit("foil_only");
        reveal_strlit("icon_svg_uri");
        reveal_strlit("tcgplayer_id");
        reveal_strlit("parent_set_code");
        reveal_strlit("block_code");
        reveal_strlit("block");
        assert("object"@.len() == 6 && "object"@[0] == 'o');
        assert("id"@.len() == 2 && "id"@[0] == 'i');
        assert("code"@.len() == 4 && "code"@[0] == 'c');
        assert("mtgo_code"@.len() == 9 && "mtgo_code"@[0] == 'm');
        assert("arena_code"@.len() == 10 && "arena_code"@[0] == 'a');
        assert("name"@.len() == 4 && "name"@[0] == 'n');
        assert("uri"@.len() == 3 && "uri"@[0] == 'u');
        assert("scryfall_uri"@.len() == 12 && "scryfall_uri"@[0] == 's');
        assert("search_uri"@.len() == 10 && "search_uri"@[0] == 's');
        assert("released_at"@.len() == 11 && "released_at"@[0] == 'r');
        assert("set_type"@.len() == 8 && "set_type"@[0] == 's');
        assert("card_count"@.len() == 10 && "card_count"@[0] == 'c');
        assert("digital"@.len() == 7 && "digital"@[0] == 'd');
        assert("nonfoil_only"@.len() == 12 && "nonfoil_only"@[0] == 'n');
        assert("foil_only"@.len() == 9 && "foil_only"@[0] == 'f');
        assert("icon_svg_uri"@.len() == 12 && "icon_svg_uri"@[0] == 'i');
        assert("tcgplayer_id"@.len() == 12 && "tcgplayer_id"@[0] == 't');
        assert("parent_set_code"@.len() == 15 && "parent_set_code"@[0] == 'p');
        assert("block_code"@.len() == 10 && "block_code"@[0] == 'b');
        assert("block"@.len() == 5 && "block"@[0] == 'b');
        let ps = card_set_pairs(m);
        assert(ps[0].0 == "object"@);
        assert(ps[1].0 == "id"@);
        assert(ps[2].0 == "code"@);
        assert(ps[3].0 == "mtgo_code"@);
        assert(ps[4].0 == "arena_code"@);
        assert(ps[5].0 == "name"@);
        assert(ps[6].0 == "uri"@);
        assert(ps[7].0 == "scryfall_uri"@);
        assert(ps[8].0 == "search_uri"@);
        assert(ps[9].0 == "released_at"@);
        assert(ps[10].0 == "set_type"@);
        assert(ps[11].0 == "card_count"@);
        assert(ps[12].0 == "digital"@);
        assert(ps[13].0 == "nonfoil_only"@);
        assert(ps[14].0 == "foil_only"@);
        assert(ps[15].0 == "icon_svg_uri"@);
        assert(ps[16].0 == "tcgplayer_id"@);
        assert(ps[17].0 == "parent_set_code"@);
        assert(ps[18].0 == "block_code"@);
        assert(ps[19].0 == "block"@);
        lemma_jobj_get_at(ps, "object"@, 0);
        lemma_jobj_get_at(ps, "id"@, 1);
        lemma_jobj_get_at(ps, "code"@, 2);
        lemma_jobj_get_at(ps, "mtgo_code"@, 3);
        lemma_jobj_get_at(ps, "arena_code"@, 4);
        lemma_jobj_get_at(ps, "name"@, 5);
        lemma_jobj_get_at(ps, "uri"@, 6);
        lemma_jobj_get_at(ps, "scryfall_uri"@, 7);
        lemma_jobj_get_at(ps, "search_uri"@, 8);
        lemma_jobj_get_at(ps, "released_at"@, 9);
        lemma_jobj_get_at(ps, "set_type"@, 10);
        lemma_jobj_get_at(ps, "card_count"@, 11);
        lemma_jobj_get_at(ps, "digital"@, 12);
        lemma_jobj_get_at(ps, "nonfoil_only"@, 13);
        lemma_jobj_get_at(ps, "foil_only"@, 14);
        lemma_jobj_get_at(ps, "icon_svg_uri"@, 15);
        lemma_jobj_get_at(ps, "tcgplayer_id"@, 16);
        lemma_jobj_get_at(ps, "parent_set_code"@, 17);
        lemma_jobj_get_at(ps, "block_code"@, 18);
        lemma_jobj_get_at(ps, "block"@, 19);
    }
}

impl CardSet {
    /// Two values carry the same data: every member reads back equal.
    pub open spec fn same_data(&self, other: &CardSet) -> bool {
        &&& self.item_kind == other.item_kind
        &&& self.id@ == other.id@
        &&& self.code@ == other.code@
        &&& match (self.mtgo_code, other.mtgo_code) { (Some(va), Some(vb)) => va@ == vb@, (None, None) => true, _ => false }
        &&& match (self.arena_code, other.arena_code) { (Some(va), Some(vb)) => va@ == vb@, (None, None) => true, _ => false }
        &&& self.name@ == other.name@
        &&& self.uri.0@ == other.uri.0@
        &&& self.scryfall_uri.0@ == other.scryfall_uri.0@
        &&& self.search_uri.0@ == other.search_uri.0@
        &&& self.released_at.0@ == other.released_at.0@
        &&& self.kind == other.kind
        &&& self.card_count == other.card_count
        &&& self.digital == other.digital
        &&& self.nonfoil_only == other.nonfoil_only
        &&& self.foil_only == other.foil_only
        &&& self.icon_svg_uri.0@ == other.icon_svg_uri.0@
        &&& match (self.tcgplayer_id, other.tcgplayer_id) { (Some(va), Some(vb)) => va == vb, (None, None) => true, _ => false }
        &&& match (self.parent_set_code, other.parent_set_code) { (Some(va), Some(vb)) => va@ == vb@, (None, None) => true, _ => false }
        &&& match (self.block_code, other.block_code) { (Some(va), Some(vb)) => va@ == vb@, (None, None) => true, _ => false }
        &&& match (self.block, other.block) { (Some(va), Some(vb)) => va@ == vb@, (None, None) => true, _ => false }
    }
}

/// Law: a tree determines the data it carries; two values matching one
/// tree carry the same data.
pub proof fn lemma_card_set_decode_functional(a: CardSet, b: CardSet, t: JVal)
    ensures
        a.matches_tree(t) && b.matches_tree(t) ==> a.same_data(&b),
{
    if a.matches_tree(t) && b.matches_tree(t) {
        let ps = t->Obj_0;
        lemma_kind_str_injective(a.item_kind, b.item_kind);
        lemma_set_kind_str_injective(a.kind, b.kind);
    }
}

/// Basic struct representing a card set list.
#[derive(Debug)]
pub struct CardSetList {
    pub kind: ResourceKind,
    pub has_more: bool,
    pub data: Vec<CardSet>,
}

/// The members of the tree a CardSetList encodes to, in wire order.
pub open spec fn card_set_list_pairs(m: CardSetList) -> Seq<(Seq<char>, JVal)> {
    seq![
        ("object"@, m.kind.tree_spec()),
        ("has_more"@, m.has_more.tree_spec()),
        ("data"@, m.data.tree_spec()),
    ]
}

impl ApiModel for CardSetList {
    open spec fn inv(&self) -> bool {
        self.data.inv()
    }

    open spec fn matches_tree(&self, t: JVal) -> bool {
        &&& t matches JVal::Obj(ps)
        &&& field_like(ps, "object"@, self.kind)
        &&& field_like(ps, "has_more"@, self.has_more)
        &&& field_like(ps, "data"@, self.data)
    }

    open spec fn tree_spec(&self) -> JVal {
        JVal::Obj(card_set_list_pairs(*self))
    }

    fn from_tree(t: &JsonValue) -> (r: Option<Self>) {
        match t {
            JsonValue::Obj(ps) => {
                proof {
                    assert(t@ == JVal::Obj(jpairs_of(ps@)));
                }
                let kind = match read_field::<ResourceKind>(ps, "object") {
                    Some(x) => x,
                    None => {
                        return None;
                    },
                };
                let has_more = match read_field::<bool>(ps, "has_more") {
                    Some(x) => x,
                    None => {
                        return None;
                    },
                };
                let data = match read_field::<Vec<CardSet>>(ps, "data") {
                    Some(x) => x,
                    None => {
                        return None;
                    },
                };
                Some(CardSetList { kind, has_more, data })
            },
            _ => None,
        }
    }

    fn to_tree(&self) -> (t: JsonValue) {
        let mut ps: Vec<(String, JsonValue)> = Vec::new();
        ps.push(("object".to_owned(), self.kind.to_tree()));
        ps.push(("has_more".to_owned(), self.has_more.to_tree()));
        ps.push(("data".to_owned(), self.data.to_tree()));
        let r = JsonValue::Obj(ps);
        proof {
            assert(jpairs_of(ps@) =~= card_set_list_pairs(*self));
        }
        r
    }
}

/// Law: the canonical tree of a valid CardSetList carries exactly
/// that value, so decoding what it encodes to yields its data back.
pub proof fn lemma_card_set_list_round_trip(m: CardSetList)
    ensures
        m.inv() ==> m.matches_tree(m.tree_spec()),
{
    if m.inv() {
        reveal_strlit("object");
        reveal_strlit("has_more");
        reveal_strlit("data");
        assert("object"@.len() == 6 && "object"@[0] == 'o');
        assert("has_more"@.len() == 8 && "has_more"@[0] == 'h');
        assert("data"@.len() == 4 && "data"@[0] == 'd');
        let ps = card_set_list_pairs(m);
        assert(ps[0].0 == "object"@);
        assert(ps[1].0 == "has_more"@);
        assert(ps[2].0 == "data"@);
        lemma_jobj_get_at(ps, "object"@, 0);
        lemma_jobj_get_at(ps, "has_more"@, 1);
        lemma_jobj_get_at(ps, "data"@, 2);
        let tv = m.data@.map_values(|x: CardSet| x.tree_spec());
        assert forall|i2: int| 0 <= i2 < tv.len() implies (#[trigger] m.data@[i2]).matches_tree(tv[i2]) by {
            lemma_card_set_round_trip(m.data@[i2]);
        }
        assert(m.data.matches_tree(m.data.tree_spec()));
    }
}

impl CardSetList {
    /// Two values carry the same data: every member reads back equal.
    pub open spec fn same_data(&self, other: &CardSetList) -> bool {
        &&& self.kind == other.kind
        &&& self.has_more == other.has_more
        &&& self.data@.len() == other.data@.len() && (forall|i: int| 0 <= i < self.data@.len() ==> (#[trigger] self.data@[i]).same_data(&other.data@[i]))
    }
}

/// Law: a tree determines the data it carries; two values matching one
/// tree carry the same data.
pub proof fn lemma_card_set_list_decode_functional(a: CardSetList, b: CardSetList, t: JVal)
    ensures
        a.matches_tree(t) && b.matches_tree(t) ==> a.same_data(&b),
{
    if a.matches_tree(t) && b.matches_tree(t) {
        let ps = t->Obj_0;
        lemma_kind_str_injective(a.kind, b.kind);
        match jobj_get(ps, "data"@) {
            Some(JVal::Arr(av)) => {
                assert forall|i2: int| 0 <= i2 < av.len() implies (#[trigger] a.data@[i2]).same_data(&b.data@[i2]) by {
                    assert(a.data@[i2].matches_tree(av[i2]));
                    assert(b.data@[i2].matches_tree(av[i2]));
                    lemma_card_set_decode_functional(a.data@[i2], b.data@[i2], av[i2]);
                }
            },
            _ => {},
        }
    }
}

} // verus!
