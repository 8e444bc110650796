//! Card resource definitions.

use vstd::prelude::*;

use crate::json::{jobj_get, jpairs_of, lemma_jobj_get_at, lemma_jpairs_of_index,
    lemma_jpairs_of_len, lemma_jvals_of_index, lemma_jvals_of_len, obj_get, JVal, JsonValue};
use crate::model::{field_like, opt_field_like, opt_inv, opt_to_tree, opt_tree, read_field,
    read_opt, ApiModel, DateText, NumberText, UrlText, UuidText};
use crate::render::{jv_text, render_json};
use crate::resources::card_symbols::{lemma_color_symbol_str_injective, ColorSymbol};
use crate::resources::catalog::Catalog;
use crate::resources::{lemma_kind_str_injective, HttpResource, Method, ResourceKind};
use crate::text::{bool_str, dec_digits, str_eq, u32_to_string};

verus! {

broadcast use lemma_jpairs_of_len, lemma_jpairs_of_index, lemma_jvals_of_len, lemma_jvals_of_index;

/// Endpoints for single cards.
pub enum CardResource<'a> {
    /// A single card by its scryfall id: `GET cards/:id`.
    ById(&'a str),
    /// A single card by its arena id: `GET cards/arena/:id`.
    ByArenaId(&'a str),
    /// A single card by its cardmarket id: `GET cards/cardmarket/:id`.
    ByCardmarketId(&'a str),
    /// A single card by set code and collector number: `GET cards/:code/:number`.
    ByCode(&'a str, &'a str),
    /// A single card by its MTGO id: `GET cards/mtgo/:id`.
    ByMtgoId(&'a str),
    /// A single card by its multiverse id: `GET cards/multiverse/:id`.
    ByMultiverseId(&'a str),
    /// A single card by its tcgplayer id: `GET cards/tcgplayer/:id`.
    ByTcgplayerId(&'a str),
    /// A single card by its exact name: `GET cards/named?exact={name}`.
    NamedExact(&'a str),
    /// A single card by fuzzy name search: `GET cards/named?fuzzy={name}`.
    /// An exact match is returned when one exists.
    NamedFuzzy(&'a str),
    /// A card at random: `GET cards/random`, with an optional `q` query
    /// parameter limiting the pool.
    Random(Option<&'a str>),
}

impl<'a> HttpResource<Card> for CardResource<'a> {
    open spec fn spec_method(&self) -> Method {
        Method::Get
    }

    open spec fn spec_path(&self) -> Seq<char> {
        match *self {
            CardResource::ById(id) => "cards/"@ + id@,
            CardResource::ByArenaId(id) => "cards/arena/"@ + id@,
            CardResource::ByCardmarketId(id) => "cards/cardmarket/"@ + id@,
            CardResource::ByCode(code, number) => "cards/"@ + code@ + "/"@ + number@,
            CardResource::ByMtgoId(id) => "cards/mtgo/"@ + id@,
            CardResource::ByMultiverseId(id) => "cards/multiverse/"@ + id@,
            CardResource::ByTcgplayerId(id) => "cards/tcgplayer/"@ + id@,
            CardResource::NamedExact(name) => "cards/named?exact="@ + name@,
            CardResource::NamedFuzzy(name) => "cards/named?fuzzy="@ + name@,
            CardResource::Random(query) => match query {
                None => "cards/random"@,
                Some(q) => "cards/random?q="@ + q@,
            },
        }
    }

    open spec fn spec_body(&self) -> Option<Seq<char>> {
        None
    }

    fn method(&self) -> (m: Method) {
        Method::Get
    }

    fn path(&self) -> (p: String) {
        match self {
            CardResource::ById(id) => {
                let p = String::from_str("cards/").concat(id);
                proof {
                    assert(p@ =~= self.spec_path());
                }
                p
            },
            CardResource::ByArenaId(id) => {
                let p = String::from_str("cards/arena/").concat(id);
                proof {
                    assert(p@ =~= self.spec_path());
                }
                p
            },
            CardResource::ByCardmarketId(id) => {
                let p = String::from_str("cards/cardmarket/").concat(id);
                proof {
                    assert(p@ =~= self.spec_path());
                }
                p
            },
            CardResource::ByCode(code, number) => {
                let p = String::from_str("cards/").concat(code).concat("/").concat(number);
                proof {
                    assert(p@ =~= self.spec_path());
                }
                p
            },
            CardResource::ByMtgoId(id) => {
                let p = String::from_str("cards/mtgo/").concat(id);
                proof {
                    assert(p@ =~= self.spec_path());
                }
                p
            },
            CardResource::ByMultiverseId(id) => {
                let p = String::from_str("cards/multiverse/").concat(id);
                proof {
                    assert(p@ =~= self.spec_path());
                }
                p
            },
            CardResource::ByTcgplayerId(id) => {
                let p = String::from_str("cards/tcgplayer/").concat(id);
                proof {
                    assert(p@ =~= self.spec_path());
                }
                p
            },
            CardResource::NamedExact(name) => {
                let p = String::from_str("cards/named?exact=").concat(name);
                proof {
                    assert(p@ =~= self.spec_path());
                }
                p
            },
            CardResource::NamedFuzzy(name) => {
                let p = String::from_str("cards/named?fuzzy=").concat(name);
                proof {
                    assert(p@ =~= self.spec_path());
                }
                p
            },
            CardResource::Random(query) => match query {
                None => String::from_str("cards/random"),
                Some(q) => {
                    let p = String::from_str("cards/random?q=").concat(q);
                    proof {
                        assert(p@ =~= self.spec_path());
                    }
                    p
                },
            },
        }
    }

    fn json(&self) -> (b: Option<String>) {
        None
    }
}

/// Endpoints for card pages.
pub enum CardPageResource {
    /// Full-text search over cards: `GET cards/search` with the query
    /// parameters of [`SearchQueryParams`].
    Search(SearchQueryParams),
}

impl HttpResource<CardPage> for CardPageResource {
    open spec fn spec_method(&self) -> Method {
        Method::Get
    }

    open spec fn spec_path(&self) -> Seq<char> {
        match *self {
            CardPageResource::Search(params) => "cards/search"@ + params.spec_query(),
        }
    }

    open spec fn spec_body(&self) -> Option<Seq<char>> {
        None
    }

    fn method(&self) -> (m: Method) {
        Method::Get
    }

    fn path(&self) -> (p: String) {
        match self {
            CardPageResource::Search(params) => {
                let q = params.as_query_str();
                let p = String::from_str("cards/search").concat(q.as_str());
                proof {
                    assert(p@ =~= self.spec_path());
                }
                p
            },
        }
    }

    fn json(&self) -> (b: Option<String>) {
        None
    }
}

/// Endpoints for card catalogs.
pub enum CardCatalogResource<'a> {
    /// A catalog of up to twenty card names for autocompletion:
    /// `GET cards/autocomplete?q={q}`.
    Autocomplete(&'a str),
}

impl<'a> HttpResource<Catalog> for CardCatalogResource<'a> {
    open spec fn spec_method(&self) -> Method {
        Method::Get
    }

    open spec fn spec_path(&self) -> Seq<char> {
        match *self {
            CardCatalogResource::Autocomplete(q) => "cards/autocomplete?q="@ + q@,
        }
    }

    open spec fn spec_body(&self) -> Option<Seq<char>> {
        None
    }

    fn method(&self) -> (m: Method) {
        Method::Get
    }

    fn path(&self) -> (p: String) {
        match self {
            CardCatalogResource::Autocomplete(q) => {
                let p = String::from_str("cards/autocomplete?q=").concat(q);
                proof {
                    assert(p@ =~= self.spec_path());
                }
                p
            },
        }
    }

    fn json(&self) -> (b: Option<String>) {
        None
    }
}

/// Endpoints for the card collection lookup.
pub enum CardCollectionResource {
    /// Looks cards up by a JSON array of identifiers:
    /// `POST cards/collection`.
    WithIdentifiers(CardIdentifiers),
}

impl HttpResource<CardCollection> for CardCollectionResource {
    open spec fn spec_method(&self) -> Method {
        Method::Post
    }

    open spec fn spec_path(&self) -> Seq<char> {
        "cards/collection"@
    }

    open spec fn spec_body(&self) -> Option<Seq<char>> {
        match *self {
            CardCollectionResource::WithIdentifiers(ids) => Some(jv_text(ids.tree_spec())),
        }
    }

    fn method(&self) -> (m: Method) {
        Method::Post
    }

    fn path(&self) -> (p: String) {
        String::from_str("cards/collection")
    }

    fn json(&self) -> (b: Option<String>) {
        match self {
            CardCollectionResource::WithIdentifiers(ids) => {
                let tree = ids.to_tree();
                Some(render_json(&tree))
            },
        }
    }
}

/// How the search omits similar cards.
#[derive(Clone, Copy, Debug, PartialEq, Eq, Structural)]
pub enum UniqueMode {
    Art,
    Cards,
    Prints,
}

/// The query-string text of each `UniqueMode` value.
pub open spec fn unique_mode_str(k: UniqueMode) -> Seq<char> {
    match k {
        UniqueMode::Art => "art"@,
        UniqueMode::Cards => "cards"@,
        UniqueMode::Prints => "prints"@,
    }
}

impl UniqueMode {
    /// The query-string text for this value.
    pub fn as_str(&self) -> (r: &'static str)
        ensures
            r@ == unique_mode_str(*self),
    {
        match self {
            UniqueMode::Art => "art",
            UniqueMode::Cards => "cards",
            UniqueMode::Prints => "prints",
        }
    }
}

impl Default for UniqueMode {
    fn default() -> (r: UniqueMode)
        ensures
            r == UniqueMode::Cards,
    {
        UniqueMode::Cards
    }
}

/// The field the search sorts cards by.
#[derive(Clone, Copy, Debug, PartialEq, Eq, Structural)]
pub enum OrderField {
    Artist,
    Cmc,
    Color,
    Edhrec,
    Eur,
    Name,
    Penny,
    Power,
    Rarity,
    Released,
    Review,
    CardSet,
    Tix,
    Toughness,
    Usd,
}

/// The query-string text of each `OrderField` value.
pub open spec fn order_field_str(k: OrderField) -> Seq<char> {
    match k {
        OrderField::Artist => "artist"@,
        OrderField::Cmc => "cmc"@,
        OrderField::Color => "color"@,
        OrderField::Edhrec => "edhrec"@,
        OrderField::Eur => "eur"@,
        OrderField::Name => "name"@,
        OrderField::Penny => "penny"@,
        OrderField::Power => "power"@,
        OrderField::Rarity => "rarity"@,
        OrderField::Released => "released"@,
        OrderField::Review => "review"@,
        OrderField::CardSet => "set"@,
        OrderField::Tix => "tix"@,
        OrderField::Toughness => "toughness"@,
        OrderField::Usd => "usd"@,
    }
}

impl OrderField {
    /// The query-string text for this value.
    pub fn as_str(&self) -> (r: &'static str)
        ensures
            r@ == order_field_str(*self),
    {
        match self {
            OrderField::Artist => "artist",
            OrderField::Cmc => "cmc",
            OrderField::Color => "color",
            OrderField::Edhrec => "edhrec",
            OrderField::Eur => "eur",
            OrderField::Name => "name",
            OrderField::Penny => "penny",
            OrderField::Power => "power",
            OrderField::Rarity => "rarity",
            OrderField::Released => "released",
            OrderField::Review => "review",
            OrderField::CardSet => "set",
            OrderField::Tix => "tix",
            OrderField::Toughness => "toughness",
            OrderField::Usd => "usd",
        }
    }
}

impl Default for OrderField {
    fn default() -> (r: OrderField)
        ensures
            r == OrderField::Name,
    {
        OrderField::Name
    }
}

/// The direction the search sorts in.
#[derive(Clone, Copy, Debug, PartialEq, Eq, Structural)]
pub enum OrderDirection {
    Auto,
    Asc,
    Desc,
}

/// The query-string text of each `OrderDirection` value.
pub open spec fn order_direction_str(k: OrderDirection) -> Seq<char> {
    match k {
        OrderDirection::Auto => "auto"@,
        OrderDirection::Asc => "asc"@,
        OrderDirection::Desc => "desc"@,
    }
}

impl OrderDirection {
    /// The query-string text for this value.
    pub fn as_str(&self) -> (r: &'static str)
        ensures
            r@ == order_direction_str(*self),
    {
        match self {
            OrderDirection::Auto => "auto",
            OrderDirection::Asc => "asc",
            OrderDirection::Desc => "desc",
        }
    }
}

impl Default for OrderDirection {
    fn default() -> (r: OrderDirection)
        ensures
            r == OrderDirection::Auto,
    {
        OrderDirection::Auto
    }
}

/// The query parameters of the card search endpoint. Only `q` is
/// required; every other parameter is omitted from the query string when
/// unset.
pub struct SearchQueryParams {
    pub dir: Option<OrderDirection>,
    pub include_extras: Option<bool>,
    pub include_multilingual: Option<bool>,
    pub include_variations: Option<bool>,
    pub order: Option<OrderField>,
    pub page: Option<u32>,
    pub q: String,
    pub unique: Option<UniqueMode>,
}

/// An optional boolean query parameter: its prefix and value, or nothing.
pub open spec fn opt_flag_text(prefix: Seq<char>, o: Option<bool>) -> Seq<char> {
    match o {
        Some(b) => prefix + bool_str(b),
        None => Seq::empty(),
    }
}

/// The `unique` piece of the query string, or nothing.
fn unique_part(o: &Option<UniqueMode>) -> (r: String)
    ensures
        r@ == (match *o {
            Some(u) => "&unique="@ + unique_mode_str(u),
            None => Seq::<char>::empty(),
        }),
{
    match o {
        Some(u) => {
            let s = String::from_str("&unique=").concat(u.as_str());
            s
        },
        None => String::new(),
    }
}

/// The `order` piece of the query string, or nothing.
fn order_part(o: &Option<OrderField>) -> (r: String)
    ensures
        r@ == (match *o {
            Some(f) => "&order="@ + order_field_str(f),
            None => Seq::<char>::empty(),
        }),
{
    match o {
        Some(f) => {
            let s = String::from_str("&order=").concat(f.as_str());
            s
        },
        None => String::new(),
    }
}

/// The `dir` piece of the query string, or nothing.
fn dir_part(o: &Option<OrderDirection>) -> (r: String)
    ensures
        r@ == (match *o {
            Some(d) => "&dir="@ + order_direction_str(d),
            None => Seq::<char>::empty(),
        }),
{
    match o {
        Some(d) => {
            let s = String::from_str("&dir=").concat(d.as_str());
            s
        },
        None => String::new(),
    }
}

/// An optional boolean piece of the query string, or nothing.
fn flag_part(prefix: &str, o: &Option<bool>) -> (r: String)
    ensures
        r@ == opt_flag_text(prefix@, *o),
{
    match o {
        Some(b) => {
            let s = prefix.to_owned().concat(
                if *b {
                    "true"
                } else {
                    "false"
                },
            );
            s
        },
        None => String::new(),
    }
}

/// The `page` piece of the query string, or nothing.
fn page_part(o: &Option<u32>) -> (r: String)
    ensures
        r@ == (match *o {
            Some(p) => "&page="@ + dec_digits(p as int),
            None => Seq::<char>::empty(),
        }),
{
    match o {
        Some(p) => {
            let digits = u32_to_string(*p);
            let s = String::from_str("&page=").concat(digits.as_str());
            s
        },
        None => String::new(),
    }
}

impl SearchQueryParams {
    /// The exact query string these parameters produce: `?q=` first, then
    /// one `&`-separated piece per set parameter, in a fixed order.
    pub open spec fn spec_query(self) -> Seq<char> {
        "?q="@ + self.q@ + (match self.unique {
            Some(u) => "&unique="@ + unique_mode_str(u),
            None => Seq::empty(),
        }) + (match self.order {
            Some(f) => "&order="@ + order_field_str(f),
            None => Seq::empty(),
        }) + (match self.dir {
            Some(d) => "&dir="@ + order_direction_str(d),
            None => Seq::empty(),
        }) + opt_flag_text("&include_extras="@, self.include_extras) + opt_flag_text(
            "&include_multilingual="@,
            self.include_multilingual,
        ) + opt_flag_text("&include_variations="@, self.include_variations) + (match self.page {
            Some(p) => "&page="@ + dec_digits(p as int),
            None => Seq::empty(),
        })
    }

    /// Renders the parameters as the query string of the search endpoint.
    pub fn as_query_str(&self) -> (r: String)
        ensures
            r@ == self.spec_query(),
    {
        let mut out = String::from_str("?q=");
        out.append(self.q.as_str());
        let part_unique = unique_part(&self.unique);
        out.append(part_unique.as_str());
        let part_order = order_part(&self.order);
        out.append(part_order.as_str());
        let part_dir = dir_part(&self.dir);
        out.append(part_dir.as_str());
        let part_extras = flag_part("&include_extras=", &self.include_extras);
        out.append(part_extras.as_str());
        let part_multilingual = flag_part("&include_multilingual=", &self.include_multilingual);
        out.append(part_multilingual.as_str());
        let part_variations = flag_part("&include_variations=", &self.include_variations);
        out.append(part_variations.as_str());
        let part_page = page_part(&self.page);
        out.append(part_page.as_str());
        out
    }

    /// Search parameters carrying only the full-text query `q`, leaving
    /// every other parameter unset.
    pub fn with_q(q: &str) -> (r: Self)
        ensures
            r.q@ == q@,
            r.unique is None,
            r.order is None,
            r.dir is None,
            r.include_extras is None,
            r.include_multilingual is None,
            r.include_variations is None,
            r.page is None,
            r.spec_query() == "?q="@ + q@,
    {
        let r = SearchQueryParams {
            q: q.to_owned(),
            unique: None,
            order: None,
            dir: None,
            include_extras: None,
            include_multilingual: None,
            include_variations: None,
            page: None,
        };
        proof {
            assert(r.spec_query() =~= "?q="@ + q@);
        }
        r
    }
}

/// A finish a card can come in.
#[derive(Clone, Copy, Debug, PartialEq, Eq, Structural)]
pub enum CardFinish {
    Etched,
    Foil,
    Glossy,
    NonFoil,
}

/// The wire text of each `CardFinish` value.
pub open spec fn card_finish_str(k: CardFinish) -> Seq<char> {
    match k {
        CardFinish::Etched => "etched"@,
        CardFinish::Foil => "foil"@,
        CardFinish::Glossy => "glossy"@,
        CardFinish::NonFoil => "nonfoil"@,
    }
}

/// The `CardFinish` value a wire text names, if any.
pub open spec fn card_finish_of_str(s: Seq<char>) -> Option<CardFinish> {
    if s == "etched"@ {
        Some(CardFinish::Etched)
    } else if s == "foil"@ {
        Some(CardFinish::Foil)
    } else if s == "glossy"@ {
        Some(CardFinish::Glossy)
    } else if s == "nonfoil"@ {
        Some(CardFinish::NonFoil)
    } else {
        None
    }
}

/// The text that names a value reads back as that value.
pub proof fn lemma_card_finish_decode(k: CardFinish)
    ensures
        card_finish_of_str(card_finish_str(k)) == Some(k),
{
    reveal_strlit("etched");
    reveal_strlit("foil");
    reveal_strlit("glossy");
    reveal_strlit("nonfoil");
    assert("etched"@.len() == 6 && "etched"@[0] == 'e');
    assert("foil"@.len() == 4 && "foil"@[0] == 'f');
    assert("glossy"@.len() == 6 && "glossy"@[0] == 'g');
    assert("nonfoil"@.len() == 7 && "nonfoil"@[0] == 'n');
    match k {
        CardFinish::Etched => assert(card_finish_of_str(card_finish_str(k)) == Some(k)),
        CardFinish::Foil => assert(card_finish_of_str(card_finish_str(k)) == Some(k)),
        CardFinish::Glossy => assert(card_finish_of_str(card_finish_str(k)) == Some(k)),
        CardFinish::NonFoil => assert(card_finish_of_str(card_finish_str(k)) == Some(k)),
    }
}

/// Distinct values are named by distinct texts.
pub proof fn lemma_card_finish_str_injective(a: CardFinish, b: CardFinish)
    requires
        card_finish_str(a) == card_finish_str(b),
    ensures
        a == b,
{
    lemma_card_finish_decode(a);
    lemma_card_finish_decode(b);
}

impl CardFinish {
    /// The wire text for this value.
    pub fn as_str(&self) -> (r: &'static str)
        ensures
            r@ == card_finish_str(*self),
    {
        match self {
            CardFinish::Etched => "etched",
            CardFinish::Foil => "foil",
            CardFinish::Glossy => "glossy",
            CardFinish::NonFoil => "nonfoil",
        }
    }
}

impl ApiModel for CardFinish {
    open spec fn inv(&self) -> bool {
        true
    }

    open spec fn matches_tree(&self, t: JVal) -> bool {
        t == JVal::Str(card_finish_str(*self))
    }

    open spec fn tree_spec(&self) -> JVal {
        JVal::Str(card_finish_str(*self))
    }

    fn from_tree(t: &JsonValue) -> (r: Option<Self>) {
        match t {
            JsonValue::Str(s) => {
                if str_eq(s.as_str(), "etched") {
                    Some(CardFinish::Etched)
                } else if str_eq(s.as_str(), "foil") {
                    Some(CardFinish::Foil)
                } else if str_eq(s.as_str(), "glossy") {
                    Some(CardFinish::Glossy)
                } else if str_eq(s.as_str(), "nonfoil") {
                    Some(CardFinish::NonFoil)
                } else {
                    None
                }
            },
            _ => None,
        }
    }

    fn to_tree(&self) -> (t: JsonValue) {
        JsonValue::Str(self.as_str().to_owned())
    }
}

/// A game a card print is available in.
#[derive(Clone, Copy, Debug, PartialEq, Eq, Structural)]
pub enum GameKind {
    Arena,
    Mtgo,
    Paper,
}

/// The wire text of each `GameKind` value.
pub open spec fn game_kind_str(k: GameKind) -> Seq<char> {
    match k {
        GameKind::Arena => "arena"@,
        GameKind::Mtgo => "mtgo"@,
        GameKind::Paper => "paper"@,
    }
}

/// The `GameKind` value a wire text names, if any.
pub open spec fn game_kind_of_str(s: Seq<char>) -> Option<GameKind> {
    if s == "arena"@ {
        Some(GameKind::Arena)
    } else if s == "mtgo"@ {
        Some(GameKind::Mtgo)
    } else if s == "paper"@ {
        Some(GameKind::Paper)
    } else {
        None
    }
}

/// The text that names a value reads back as that value.
pub proof fn lemma_game_kind_decode(k: GameKind)
    ensures
        game_kind_of_str(game_kind_str(k)) == Some(k),
{
    reveal_strlit("arena");
    reveal_strlit("mtgo");
    reveal_strlit("paper");
    assert("arena"@.len() == 5 && "arena"@[0] == 'a');
    assert("mtgo"@.len() == 4 && "mtgo"@[0] == 'm');
    assert("paper"@.len() == 5 && "paper"@[0] == 'p');
    match k {
        GameKind::Arena => assert(game_kind_of_str(game_kind_str(k)) == Some(k)),
        GameKind::Mtgo => assert(game_kind_of_str(game_kind_str(k)) == Some(k)),
        GameKind::Paper => assert(game_kind_of_str(game_kind_str(k)) == Some(k)),
    }
}

/// Distinct values are named by distinct texts.
pub proof fn lemma_game_kind_str_injective(a: GameKind, b: GameKind)
    requires
        game_kind_str(a) == game_kind_str(b),
    ensures
        a == b,
{
    lemma_game_kind_decode(a);
    lemma_game_kind_decode(b);
}

impl GameKind {
    /// The wire text for this value.
    pub fn as_str(&self) -> (r: &'static str)
        ensures
            r@ == game_kind_str(*self),
    {
        match self {
            GameKind::Arena => "arena",
            GameKind::Mtgo => "mtgo",
            GameKind::Paper => "paper",
        }
    }
}

impl ApiModel for GameKind {
    open spec fn inv(&self) -> bool {
        true
    }

    open spec fn matches_tree(&self, t: JVal) -> bool {
        t == JVal::Str(game_kind_str(*self))
    }

    open spec fn tree_spec(&self) -> JVal {
        JVal::Str(game_kind_str(*self))
    }

    fn from_tree(t: &JsonValue) -> (r: Option<Self>) {
        match t {
            JsonValue::Str(s) => {
                if str_eq(s.as_str(), "arena") {
                    Some(GameKind::Arena)
                } else if str_eq(s.as_str(), "mtgo") {
                    Some(GameKind::Mtgo)
                } else if str_eq(s.as_str(), "paper") {
                    Some(GameKind::Paper)
                } else {
                    None
                }
            },
            _ => None,
        }
    }

    fn to_tree(&self) -> (t: JsonValue) {
        JsonValue::Str(self.as_str().to_owned())
    }
}

/// The state of a card's imagery.
#[derive(Clone, Copy, Debug, PartialEq, Eq, Structural)]
pub enum ImageStatus {
    HighresScan,
    Lowres,
    Missing,
    Placeholder,
}

/// The wire text of each `ImageStatus` value.
pub open spec fn image_status_str(k: ImageStatus) -> Seq<char> {
    match k {
        ImageStatus::HighresScan => "highres_scan"@,
        ImageStatus::Lowres => "lowres"@,
        ImageStatus::Missing => "missing"@,
        ImageStatus::Placeholder => "placeholder"@,
    }
}

/// The `ImageStatus` value a wire text names, if any.
pub open spec fn image_status_of_str(s: Seq<char>) -> Option<ImageStatus> {
    if s == "highres_scan"@ {
        Some(ImageStatus::HighresScan)
    } else if s == "lowres"@ {
        Some(ImageStatus::Lowres)
    } else if s == "missing"@ {
        Some(ImageStatus::Missing)
    } else if s == "placeholder"@ {
        Some(ImageStatus::Placeholder)
    } else {
        None
    }
}

/// The text that names a value reads back as that value.
pub proof fn lemma_image_status_decode(k: ImageStatus)
    ensures
        image_status_of_str(image_status_str(k)) == Some(k),
{
    reveal_strlit("highres_scan");
    reveal_strlit("lowres");
    reveal_strlit("missing");
    reveal_strlit("placeholder");
    assert("highres_scan"@.len() == 12 && "highres_scan"@[0] == 'h');
    assert("lowres"@.len() == 6 && "lowres"@[0] == 'l');
    assert("missing"@.len() == 7 && "missing"@[0] == 'm');
    assert("placeholder"@.len() == 11 && "placeholder"@[0] == 'p');
    match k {
        ImageStatus::HighresScan => assert(image_status_of_str(image_status_str(k)) == Some(k)),
        ImageStatus::Lowres => assert(image_status_of_str(image_status_str(k)) == Some(k)),
        ImageStatus::Missing => assert(image_status_of_str(image_status_str(k)) == Some(k)),
        ImageStatus::Placeholder => assert(image_status_of_str(image_status_str(k)) == Some(k)),
    }
}

/// Distinct values are named by distinct texts.
pub proof fn lemma_image_status_str_injective(a: ImageStatus, b: ImageStatus)
    requires
        image_status_str(a) == image_status_str(b),
    ensures
        a == b,
{
    lemma_image_status_decode(a);
    lemma_image_status_decode(b);
}

impl ImageStatus {
    /// The wire text for this value.
    pub fn as_str(&self) -> (r: &'static str)
        ensures
            r@ == image_status_str(*self),
    {
        match self {
            ImageStatus::HighresScan => "highres_scan",
            ImageStatus::Lowres => "lowres",
            ImageStatus::Missing => "missing",
            ImageStatus::Placeholder => "placeholder",
        }
    }
}

impl ApiModel for ImageStatus {
    open spec fn inv(&self) -> bool {
        true
    }

    open spec fn matches_tree(&self, t: JVal) -> bool {
        t == JVal::Str(image_status_str(*self))
    }

    open spec fn tree_spec(&self) -> JVal {
        JVal::Str(image_status_str(*self))
    }

    fn from_tree(t: &JsonValue) -> (r: Option<Self>) {
        match t {
            JsonValue::Str(s) => {
                if str_eq(s.as_str(), "highres_scan") {
                    Some(ImageStatus::HighresScan)
                } else if str_eq(s.as_str(), "lowres") {
                    Some(ImageStatus::Lowres)
                } else if str_eq(s.as_str(), "missing") {
                    Some(ImageStatus::Missing)
                } else if str_eq(s.as_str(), "placeholder") {
                    Some(ImageStatus::Placeholder)
                } else {
                    None
                }
            },
            _ => None,
        }
    }

    fn to_tree(&self) -> (t: JsonValue) {
        JsonValue::Str(self.as_str().to_owned())
    }
}

/// The print layout of a card.
#[derive(Clone, Copy, Debug, PartialEq, Eq, Structural)]
pub enum Layout {
    Adventure,
    ArtSeries,
    Augment,
    Class,
    DoubleFacedToken,
    Emblem,
    Flip,
    Host,
    Leveler,
    Meld,
    ModalDfc,
    Normal,
    Planar,
    ReversibleCard,
    Saga,
    Scheme,
    Split,
    Token,
    Transform,
    Vanguard,
}

/// The wire text of each `Layout` value.
pub open spec fn layout_str(k: Layout) -> Seq<char> {
    match k {
        Layout::Adventure => "adventure"@,
        Layout::ArtSeries => "art_series"@,
        Layout::Augment => "augment"@,
        Layout::Class => "class"@,
        Layout::DoubleFacedToken => "double_faced_token"@,
        Layout::Emblem => "emblem"@,
        Layout::Flip => "flip"@,
        Layout::Host => "host"@,
        Layout::Leveler => "leveler"@,
        Layout::Meld => "meld"@,
        Layout::ModalDfc => "modal_dfc"@,
        Layout::Normal => "normal"@,
        Layout::Planar => "planar"@,
        Layout::ReversibleCard => "reversible_card"@,
        Layout::Saga => "saga"@,
        Layout::Scheme => "scheme"@,
        Layout::Split => "split"@,
        Layout::Token => "token"@,
        Layout::Transform => "transform"@,
        Layout::Vanguard => "vanguard"@,
    }
}

/// The `Layout` value a wire text names, if any.
pub open spec fn layout_of_str(s: Seq<char>) -> Option<Layout> {
    if s == "adventure"@ {
        Some(Layout::Adventure)
    } else if s == "art_series"@ {
        Some(Layout::ArtSeries)
    } else if s == "augment"@ {
        Some(Layout::Augment)
    } else if s == "class"@ {
        Some(Layout::Class)
    } else if s == "double_faced_token"@ {
        Some(Layout::DoubleFacedToken)
    } else if s == "emblem"@ {
        Some(Layout::Emblem)
    } else if s == "flip"@ {
        Some(Layout::Flip)
    } else if s == "host"@ {
        Some(Layout::Host)
    } else if s == "leveler"@ {
        Some(Layout::Leveler)
    } else if s == "meld"@ {
        Some(Layout::Meld)
    } else if s == "modal_dfc"@ {
        Some(Layout::ModalDfc)
    } else if s == "normal"@ {
        Some(Layout::Normal)
    } else if s == "planar"@ {
        Some(Layout::Planar)
    } else if s == "reversible_card"@ {
        Some(Layout::ReversibleCard)
    } else if s == "saga"@ {
        Some(Layout::Saga)
    } else if s == "scheme"@ {
        Some(Layout::Scheme)
    } else if s == "split"@ {
        Some(Layout::Split)
    } else if s == "token"@ {
        Some(Layout::Token)
    } else if s == "transform"@ {
        Some(Layout::Transform)
    } else if s == "vanguard"@ {
        Some(Layout::Vanguard)
    } else {
        None
    }
}

/// The text that names a value reads back as that value.
pub proof fn lemma_layout_decode(k: Layout)
    ensures
        layout_of_str(layout_str(k)) == Some(k),
{
    reveal_strlit("adventure");
    reveal_strlit("art_series");
    reveal_strlit("augment");
    reveal_strlit("class");
    reveal_strlit("double_faced_token");
    reveal_strlit("emblem");
    reveal_strlit("flip");
    reveal_strlit("host");
    reveal_strlit("leveler");
    reveal_strlit("meld");
    reveal_strlit("modal_dfc");
    reveal_strlit("normal");
    reveal_strlit("planar");
    reveal_strlit("reversible_card");
    reveal_strlit("saga");
    reveal_strlit("scheme");
    reveal_strlit("split");
    reveal_strlit("token");
    reveal_strlit("transform");
    reveal_strlit("vanguard");
    assert("adventure"@.len() == 9 && "adventure"@[0] == 'a');
    assert("art_series"@.len() == 10 && "art_series"@[0] == 'a');
    assert("augment"@.len() == 7 && "augment"@[0] == 'a');
    assert("class"@.len() == 5 && "class"@[0] == 'c');
    assert("double_faced_token"@.len() == 18 && "double_faced_token"@[0] == 'd');
    assert("emblem"@.len() == 6 && "emblem"@[0] == 'e');
    assert("flip"@.len() == 4 && "flip"@[0] == 'f');
    assert("host"@.len() == 4 && "host"@[0] == 'h');
    assert("leveler"@.len() == 7 && "leveler"@[0] == 'l');
    assert("meld"@.len() == 4 && "meld"@[0] == 'm');
    assert("modal_dfc"@.len() == 9 && "modal_dfc"@[0] == 'm');
    assert("normal"@.len() == 6 && "normal"@[0] == 'n');
    assert("planar"@.len() == 6 && "planar"@[0] == 'p');
    assert("reversible_card"@.len() == 15 && "reversible_card"@[0] == 'r');
    assert("saga"@.len() == 4 && "saga"@[0] == 's');
    assert("scheme"@.len() == 6 && "scheme"@[0] == 's');
    assert("split"@.len() == 5 && "split"@[0] == 's');
    assert("token"@.len() == 5 && "token"@[0] == 't');
    assert("transform"@.len() == 9 && "transform"@[0] == 't');
    assert("vanguard"@.len() == 8 && "vanguard"@[0] == 'v');
    match k {
        Layout::Adventure => assert(layout_of_str(layout_str(k)) == Some(k)),
        Layout::ArtSeries => assert(layout_of_str(layout_str(k)) == Some(k)),
        Layout::Augment => assert(layout_of_str(layout_str(k)) == Some(k)),
        Layout::Class => assert(layout_of_str(layout_str(k)) == Some(k)),
        Layout::DoubleFacedToken => assert(layout_of_str(layout_str(k)) == Some(k)),
        Layout::Emblem => assert(layout_of_str(layout_str(k)) == Some(k)),
        Layout::Flip => assert(layout_of_str(layout_str(k)) == Some(k)),
        Layout::Host => assert(layout_of_str(layout_str(k)) == Some(k)),
        Layout::Leveler => assert(layout_of_str(layout_str(k)) == Some(k)),
        Layout::Meld => assert(layout_of_str(layout_str(k)) == Some(k)),
        Layout::ModalDfc => assert(layout_of_str(layout_str(k)) == Some(k)),
        Layout::Normal => assert(layout_of_str(layout_str(k)) == Some(k)),
        Layout::Planar => assert(layout_of_str(layout_str(k)) == Some(k)),
        Layout::ReversibleCard => assert(layout_of_str(layout_str(k)) == Some(k)),
        Layout::Saga => assert(layout_of_str(layout_str(k)) == Some(k)),
        Layout::Scheme => assert(layout_of_str(layout_str(k)) == Some(k)),
        Layout::Split => assert(layout_of_str(layout_str(k)) == Some(k)),
        Layout::Token => assert(layout_of_str(layout_str(k)) == Some(k)),
        Layout::Transform => assert(layout_of_str(layout_str(k)) == Some(k)),
        Layout::Vanguard => assert(layout_of_str(layout_str(k)) == Some(k)),
    }
}

/// Distinct values are named by distinct texts.
pub proof fn lemma_layout_str_injective(a: Layout, b: Layout)
    requires
        layout_str(a) == layout_str(b),
    ensures
        a == b,
{
    lemma_layout_decode(a);
    lemma_layout_decode(b);
}

impl Layout {
    /// The wire text for this value.
    pub fn as_str(&self) -> (r: &'static str)
        ensures
            r@ == layout_str(*self),
    {
        match self {
            Layout::Adventure => "adventure",
            Layout::ArtSeries => "art_series",
            Layout::Augment => "augment",
            Layout::Class => "class",
            Layout::DoubleFacedToken => "double_faced_token",
            Layout::Emblem => "emblem",
            Layout::Flip => "flip",
            Layout::Host => "host",
            Layout::Leveler => "leveler",
            Layout::Meld => "meld",
            Layout::ModalDfc => "modal_dfc",
            Layout::Normal => "normal",
            Layout::Planar => "planar",
            Layout::ReversibleCard => "reversible_card",
            Layout::Saga => "saga",
            Layout::Scheme => "scheme",
            Layout::Split => "split",
            Layout::Token => "token",
            Layout::Transform => "transform",
            Layout::Vanguard => "vanguard",
        }
    }
}

impl ApiModel for Layout {
    open spec fn inv(&self) -> bool {
        true
    }

    open spec fn matches_tree(&self, t: JVal) -> bool {
        t == JVal::Str(layout_str(*self))
    }

    open spec fn tree_spec(&self) -> JVal {
        JVal::Str(layout_str(*self))
    }

    fn from_tree(t: &JsonValue) -> (r: Option<Self>) {
        match t {
            JsonValue::Str(s) => {
                if str_eq(s.as_str(), "adventure") {
                    Some(Layout::Adventure)
                } else if str_eq(s.as_str(), "art_series") {
                    Some(Layout::ArtSeries)
                } else if str_eq(s.as_str(), "augment") {
                    Some(Layout::Augment)
                } else if str_eq(s.as_str(), "class") {
                    Some(Layout::Class)
                } else if str_eq(s.as_str(), "double_faced_token") {
                    Some(Layout::DoubleFacedToken)
                } else if str_eq(s.as_str(), "emblem") {
                    Some(Layout::Emblem)
                } else if str_eq(s.as_str(), "flip") {
                    Some(Layout::Flip)
                } else if str_eq(s.as_str(), "host") {
                    Some(Layout::Host)
                } else if str_eq(s.as_str(), "leveler") {
                    Some(Layout::Leveler)
                } else if str_eq(s.as_str(), "meld") {
                    Some(Layout::Meld)
                } else if str_eq(s.as_str(), "modal_dfc") {
                    Some(Layout::ModalDfc)
                } else if str_eq(s.as_str(), "normal") {
                    Some(Layout::Normal)
                } else if str_eq(s.as_str(), "planar") {
                    Some(Layout::Planar)
                } else if str_eq(s.as_str(), "reversible_card") {
                    Some(Layout::ReversibleCard)
                } else if str_eq(s.as_str(), "saga") {
                    Some(Layout::Saga)
                } else if str_eq(s.as_str(), "scheme") {
                    Some(Layout::Scheme)
                } else if str_eq(s.as_str(), "split") {
                    Some(Layout::Split)
                } else if str_eq(s.as_str(), "token") {
                    Some(Layout::Token)
                } else if str_eq(s.as_str(), "transform") {
                    Some(Layout::Transform)
                } else if str_eq(s.as_str(), "vanguard") {
                    Some(Layout::Vanguard)
                } else {
                    None
                }
            },
            _ => None,
        }
    }

    fn to_tree(&self) -> (t: JsonValue) {
        JsonValue::Str(self.as_str().to_owned())
    }
}

/// The rarity of a card print.
#[derive(Clone, Copy, Debug, PartialEq, Eq, Structural)]
pub enum Rarity {
    Bonus,
    Common,
    Mythic,
    Rare,
    Special,
    Uncommon,
}

/// The wire text of each `Rarity` value.
pub open spec fn rarity_str(k: Rarity) -> Seq<char> {
    match k {
        Rarity::Bonus => "bonus"@,
        Rarity::Common => "common"@,
        Rarity::Mythic => "mythic"@,
        Rarity::Rare => "rare"@,
        Rarity::Special => "special"@,
        Rarity::Uncommon => "uncommon"@,
    }
}

/// The `Rarity` value a wire text names, if any.
pub open spec fn rarity_of_str(s: Seq<char>) -> Option<Rarity> {
    if s == "bonus"@ {
        Some(Rarity::Bonus)
    } else if s == "common"@ {
        Some(Rarity::Common)
    } else if s == "mythic"@ {
        Some(Rarity::Mythic)
    } else if s == "rare"@ {
        Some(Rarity::Rare)
    } else if s == "special"@ {
        Some(Rarity::Special)
    } else if s == "uncommon"@ {
        Some(Rarity::Uncommon)
    } else {
        None
    }
}

/// The text that names a value reads back as that value.
pub proof fn lemma_rarity_decode(k: Rarity)
    ensures
        rarity_of_str(rarity_str(k)) == Some(k),
{
    reveal_strlit("bonus");
    reveal_strlit("common");
    reveal_strlit("mythic");
    reveal_strlit("rare");
    reveal_strlit("special");
    reveal_strlit("uncommon");
    assert("bonus"@.len() == 5 && "bonus"@[0] == 'b');
    assert("common"@.len() == 6 && "common"@[0] == 'c');
    assert("mythic"@.len() == 6 && "mythic"@[0] == 'm');
    assert("rare"@.len() == 4 && "rare"@[0] == 'r');
    assert("special"@.len() == 7 && "special"@[0] == 's');
    assert("uncommon"@.len() == 8 && "uncommon"@[0] == 'u');
    match k {
        Rarity::Bonus => assert(rarity_of_str(rarity_str(k)) == Some(k)),
        Rarity::Common => assert(rarity_of_str(rarity_str(k)) == Some(k)),
        Rarity::Mythic => assert(rarity_of_str(rarity_str(k)) == Some(k)),
        Rarity::Rare => assert(rarity_of_str(rarity_str(k)) == Some(k)),
        Rarity::Special => assert(rarity_of_str(rarity_str(k)) == Some(k)),
        Rarity::Uncommon => assert(rarity_of_str(rarity_str(k)) == Some(k)),
    }
}

/// Distinct values are named by distinct texts.
pub proof fn lemma_rarity_str_injective(a: Rarity, b: Rarity)
    requires
        rarity_str(a) == rarity_str(b),
    ensures
        a == b,
{
    lemma_rarity_decode(a);
    lemma_rarity_decode(b);
}

impl Rarity {
    /// The wire text for this value.
    pub fn as_str(&self) -> (r: &'static str)
        ensures
            r@ == rarity_str(*self),
    {
        match self {
            Rarity::Bonus => "bonus",
            Rarity::Common => "common",
            Rarity::Mythic => "mythic",
            Rarity::Rare => "rare",
            Rarity::Special => "special",
            Rarity::Uncommon => "uncommon",
        }
    }
}

impl ApiModel for Rarity {
    open spec fn inv(&self) -> bool {
        true
    }

    open spec fn matches_tree(&self, t: JVal) -> bool {
        t == JVal::Str(rarity_str(*self))
    }

    open spec fn tree_spec(&self) -> JVal {
        JVal::Str(rarity_str(*self))
    }

    fn from_tree(t: &JsonValue) -> (r: Option<Self>) {
        match t {
            JsonValue::Str(s) => {
                if str_eq(s.as_str(), "bonus") {
                    Some(Rarity::Bonus)
                } else if str_eq(s.as_str(), "common") {
                    Some(Rarity::Common)
                } else if str_eq(s.as_str(), "mythic") {
                    Some(Rarity::Mythic)
                } else if str_eq(s.as_str(), "rare") {
                    Some(Rarity::Rare)
                } else if str_eq(s.as_str(), "special") {
                    Some(Rarity::Special)
                } else if str_eq(s.as_str(), "uncommon") {
                    Some(Rarity::Uncommon)
                } else {
                    None
                }
            },
            _ => None,
        }
    }

    fn to_tree(&self) -> (t: JsonValue) {
        JsonValue::Str(self.as_str().to_owned())
    }
}

/// Whether a card is legal in one format.
#[derive(Clone, Copy, Debug, PartialEq, Eq, Structural)]
pub enum Legality {
    Banned,
    Legal,
    NotLegal,
    Restricted,
}

/// The wire text of each `Legality` value.
pub open spec fn legality_str(k: Legality) -> Seq<char> {
    match k {
        Legality::Banned => "banned"@,
        Legality::Legal => "legal"@,
        Legality::NotLegal => "not_legal"@,
        Legality::Restricted => "restricted"@,
    }
}

/// The `Legality` value a wire text names, if any.
pub open spec fn legality_of_str(s: Seq<char>) -> Option<Legality> {
    if s == "banned"@ {
        Some(Legality::Banned)
    } else if s == "legal"@ {
        Some(Legality::Legal)
    } else if s == "not_legal"@ {
        Some(Legality::NotLegal)
    } else if s == "restricted"@ {
        Some(Legality::Restricted)
    } else {
        None
    }
}

/// The text that names a value reads back as that value.
pub proof fn lemma_legality_decode(k: Legality)
    ensures
        legality_of_str(legality_str(k)) == Some(k),
{
    reveal_strlit("banned");
    reveal_strlit("legal");
    reveal_strlit("not_legal");
    reveal_strlit("restricted");
    assert("banned"@.len() == 6 && "banned"@[0] == 'b');
    assert("legal"@.len() == 5 && "legal"@[0] == 'l');
    assert("not_legal"@.len() == 9 && "not_legal"@[0] == 'n');
    assert("restricted"@.len() == 10 && "restricted"@[0] == 'r');
    match k {
        Legality::Banned => assert(legality_of_str(legality_str(k)) == Some(k)),
        Legality::Legal => assert(legality_of_str(legality_str(k)) == Some(k)),
        Legality::NotLegal => assert(legality_of_str(legality_str(k)) == Some(k)),
        Legality::Restricted => assert(legality_of_str(legality_str(k)) == Some(k)),
    }
}

/// Distinct values are named by distinct texts.
pub proof fn lemma_legality_str_injective(a: Legality, b: Legality)
    requires
        legality_str(a) == legality_str(b),
    ensures
        a == b,
{
    lemma_legality_decode(a);
    lemma_legality_decode(b);
}

impl Legality {
    /// The wire text for this value.
    pub fn as_str(&self) -> (r: &'static str)
        ensures
            r@ == legality_str(*self),
    {
        match self {
            Legality::Banned => "banned",
            Legality::Legal => "legal",
            Legality::NotLegal => "not_legal",
            Legality::Restricted => "restricted",
        }
    }
}

impl ApiModel for Legality {
    open spec fn inv(&self) -> bool {
        true
    }

    open spec fn matches_tree(&self, t: JVal) -> bool {
        t == JVal::Str(legality_str(*self))
    }

    open spec fn tree_spec(&self) -> JVal {
        JVal::Str(legality_str(*self))
    }

    fn from_tree(t: &JsonValue) -> (r: Option<Self>) {
        match t {
            JsonValue::Str(s) => {
                if str_eq(s.as_str(), "banned") {
                    Some(Legality::Banned)
                } else if str_eq(s.as_str(), "legal") {
                    Some(Legality::Legal)
                } else if str_eq(s.as_str(), "not_legal") {
                    Some(Legality::NotLegal)
                } else if str_eq(s.as_str(), "restricted") {
                    Some(Legality::Restricted)
                } else {
                    None
                }
            },
            _ => None,
        }
    }

    fn to_tree(&self) -> (t: JsonValue) {
        JsonValue::Str(self.as_str().to_owned())
    }
}

/// Container for image URLs.
#[derive(Debug)]
pub struct ImageUris {
    pub art_crop: UrlText,
    pub border_crop: UrlText,
    pub large: UrlText,
    pub normal: UrlText,
    pub png: UrlText,
    pub small: UrlText,
}

/// The members of the tree an ImageUris encodes to, in wire order.
pub open spec fn image_uris_model_pairs(m: ImageUris) -> Seq<(Seq<char>, JVal)> {
    seq![
        ("art_crop"@, m.art_crop.tree_spec()),
        ("border_crop"@, m.border_crop.tree_spec()),
        ("large"@, m.large.tree_spec()),
        ("normal"@, m.normal.tree_spec()),
        ("png"@, m.png.tree_spec()),
        ("small"@, m.small.tree_spec()),
    ]
}

impl ApiModel for ImageUris {
    open spec fn inv(&self) -> bool {
        &&& self.art_crop.inv()
        &&& self.border_crop.inv()
        &&& self.large.inv()
        &&& self.normal.inv()
        &&& self.png.inv()
        &&& self.small.inv()
    }

    open spec fn matches_tree(&self, t: JVal) -> bool {
        &&& t matches JVal::Obj(ps)
        &&& field_like(ps, "art_crop"@, self.art_crop)
        &&& field_like(ps, "border_crop"@, self.border_crop)
        &&& field_like(ps, "large"@, self.large)
        &&& field_like(ps, "normal"@, self.normal)
        &&& field_like(ps, "png"@, self.png)
        &&& field_like(ps, "small"@, self.small)
    }

    open spec fn tree_spec(&self) -> JVal {
        JVal::Obj(image_uris_model_pairs(*self))
    }

    fn from_tree(t: &JsonValue) -> (r: Option<Self>) {
        match t {
            JsonValue::Obj(ps) => {
                proof {
                    assert(t@ == JVal::Obj(jpairs_of(ps@)));
                }
                let art_crop = match read_field::<UrlText>(ps, "art_crop") {
                    Some(x) => x,
                    None => {
                        return None;
                    },
                };
                let border_crop = match read_field::<UrlText>(ps, "border_crop") {
                    Some(x) => x,
                    None => {
                        return None;
                    },
                };
                let large = match read_field::<UrlText>(ps, "large") {
                    Some(x) => x,
                    None => {
                        return None;
                    },
                };
                let normal = match read_field::<UrlText>(ps, "normal") {
                    Some(x) => x,
                    None => {
                        return None;
                    },
                };
                let png = match read_field::<UrlText>(ps, "png") {
                    Some(x) => x,
                    None => {
                        return None;
                    },
                };
                let small = match read_field::<UrlText>(ps, "small") {
                    Some(x) => x,
                    None => {
                        return None;
                    },
                };
                Some(ImageUris { art_crop, border_crop, large, normal, png, small })
            },
            _ => None,
        }
    }

    fn to_tree(&self) -> (t: JsonValue) {
        let mut ps: Vec<(String, JsonValue)> = Vec::new();
        ps.push(("art_crop".to_owned(), self.art_crop.to_tree()));
        ps.push(("border_crop".to_owned(), self.border_crop.to_tree()));
        ps.push(("large".to_owned(), self.large.to_tree()));
        ps.push(("normal".to_owned(), self.normal.to_tree()));
        ps.push(("png".to_owned(), self.png.to_tree()));
        ps.push(("small".to_owned(), self.small.to_tree()));
        let r = JsonValue::Obj(ps);
        proof {
            assert(jpairs_of(ps@) =~= image_uris_model_pairs(*self));
        }
        r
    }
}

/// Law: the canonical tree of a valid ImageUris carries exactly
/// that value, so decoding what it encodes to yields its data back.
pub proof fn lemma_image_uris_model_round_trip(m: ImageUris)
    ensures
        m.inv() ==> m.matches_tree(m.tree_spec()),
{
    if m.inv() {
        reveal_strlit("art_crop");
        reveal_strlit("border_crop");
        reveal_strlit("large");
        reveal_strlit("normal");
        reveal_strlit("png");
        reveal_strlit("small");
        assert("art_crop"@.len() == 8 && "art_crop"@[0] == 'a');
        assert("border_crop"@.len() == 11 && "border_crop"@[0] == 'b');
        assert("large"@.len() == 5 && "large"@[0] == 'l');
        assert("normal"@.len() == 6 && "normal"@[0] == 'n');
        assert("png"@.len() == 3 && "png"@[0] == 'p');
        assert("small"@.len() == 5 && "small"@[0] == 's');
        let ps = image_uris_model_pairs(m);
        assert(ps[0].0 == "art_crop"@);
        assert(ps[1].0 == "border_crop"@);
        assert(ps[2].0 == "large"@);
        assert(ps[3].0 == "normal"@);
        assert(ps[4].0 == "png"@);
        assert(ps[5].0 == "small"@);
        lemma_jobj_get_at(ps, "art_crop"@, 0);
        lemma_jobj_get_at(ps, "border_crop"@, 1);
        lemma_jobj_get_at(ps, "large"@, 2);
        lemma_jobj_get_at(ps, "normal"@, 3);
        lemma_jobj_get_at(ps, "png"@, 4);
        lemma_jobj_get_at(ps, "small"@, 5);
    }
}

impl ImageUris {
    /// Two values carry the same data: every member reads back equal.
    pub open spec fn same_data(&self, other: &ImageUris) -> bool {
        &&& self.art_crop.0@ == other.art_crop.0@
        &&& self.border_crop.0@ == other.border_crop.0@
        &&& self.large.0@ == other.large.0@
        &&& self.normal.0@ == other.normal.0@
        &&& self.png.0@ == other.png.0@
        &&& self.small.0@ == other.small.0@
    }
}

/// Law: a tree determines the data it carries; two values matching one
/// tree carry the same data.
pub proof fn lemma_image_uris_model_decode_functional(a: ImageUris, b: ImageUris, t: JVal)
    ensures
        a.matches_tree(t) && b.matches_tree(t) ==> a.same_data(&b),
{
    if a.matches_tree(t) && b.matches_tree(t) {
        let ps = t->Obj_0;
    }
}

/// Container for card legalities.
#[derive(Debug)]
pub struct Legalities {
    pub alchemy: Legality,
    pub brawl: Legality,
    pub commander: Legality,
    pub duel: Legality,
    pub explorer: Legality,
    pub future: Legality,
    pub gladiator: Legality,
    pub historic: Legality,
    pub historicbrawl: Legality,
    pub legacy: Legality,
    pub modern: Legality,
    pub oldschool: Legality,
    pub pauper: Legality,
    pub paupercommander: Legality,
    pub penny: Legality,
    pub pioneer: Legality,
    pub premodern: Legality,
    pub standard: Legality,
    pub vintage: Legality,
}

/// The members of the tree a Legalities encodes to, in wire order.
pub open spec fn legalities_model_pairs(m: Legalities) -> Seq<(Seq<char>, JVal)> {
    seq![
        ("alchemy"@, m.alchemy.tree_spec()),
        ("brawl"@, m.brawl.tree_spec()),
        ("commander"@, m.commander.tree_spec()),
        ("duel"@, m.duel.tree_spec()),
        ("explorer"@, m.explorer.tree_spec()),
        ("future"@, m.future.tree_spec()),
        ("gladiator"@, m.gladiator.tree_spec()),
        ("historic"@, m.historic.tree_spec()),
        ("historicbrawl"@, m.historicbrawl.tree_spec()),
        ("legacy"@, m.legacy.tree_spec()),
        ("modern"@, m.modern.tree_spec()),
        ("oldschool"@, m.oldschool.tree_spec()),
        ("pauper"@, m.pauper.tree_spec()),
        ("paupercommander"@, m.paupercommander.tree_spec()),
        ("penny"@, m.penny.tree_spec()),
        ("pioneer"@, m.pioneer.tree_spec()),
        ("premodern"@, m.premodern.tree_spec()),
        ("standard"@, m.standard.tree_spec()),
        ("vintage"@, m.vintage.tree_spec()),
    ]
}

impl ApiModel for Legalities {
    open spec fn inv(&self) -> bool {
        true
    }

    open spec fn matches_tree(&self, t: JVal) -> bool {
        &&& t matches JVal::Obj(ps)
        &&& field_like(ps, "alchemy"@, self.alchemy)
        &&& field_like(ps, "brawl"@, self.brawl)
        &&& field_like(ps, "commander"@, self.commander)
        &&& field_like(ps, "duel"@, self.duel)
        &&& field_like(ps, "explorer"@, self.explorer)
        &&& field_like(ps, "future"@, self.future)
        &&& field_like(ps, "gladiator"@, self.gladiator)
        &&& field_like(ps, "historic"@, self.historic)
        &&& field_like(ps, "historicbrawl"@, self.historicbrawl)
        &&& field_like(ps, "legacy"@, self.legacy)
        &&& field_like(ps, "modern"@, self.modern)
        &&& field_like(ps, "oldschool"@, self.oldschool)
        &&& field_like(ps, "pauper"@, self.pauper)
        &&& field_like(ps, "paupercommander"@, self.paupercommander)
        &&& field_like(ps, "penny"@, self.penny)
        &&& field_like(ps, "pioneer"@, self.pioneer)
        &&& field_like(ps, "premodern"@, self.premodern)
        &&& field_like(ps, "standard"@, self.standard)
        &&& field_like(ps, "vintage"@, self.vintage)
    }

    open spec fn tree_spec(&self) -> JVal {
        JVal::Obj(legalities_model_pairs(*self))
    }

    fn from_tree(t: &JsonValue) -> (r: Option<Self>) {
        match t {
            JsonValue::Obj(ps) => {
                proof {
                    assert(t@ == JVal::Obj(jpairs_of(ps@)));
                }
                let alchemy = match read_field::<Legality>(ps, "alchemy") {
                    Some(x) => x,
                    None => {
                        return None;
                    },
                };
                let brawl = match read_field::<Legality>(ps, "brawl") {
                    Some(x) => x,
                    None => {
                        return None;
                    },
                };
                let commander = match read_field::<Legality>(ps, "commander") {
                    Some(x) => x,
                    None => {
                        return None;
                    },
                };
                let duel = match read_field::<Legality>(ps, "duel") {
                    Some(x) => x,
                    None => {
                        return None;
                    },
                };
                let explorer = match read_field::<Legality>(ps, "explorer") {
                    Some(x) => x,
                    None => {
                        return None;
                    },
                };
                let future = match read_field::<Legality>(ps, "future") {
                    Some(x) => x,
                    None => {
                        return None;
                    },
                };
                let gladiator = match read_field::<Legality>(ps, "gladiator") {
                    Some(x) => x,
                    None => {
                        return None;
                    },
                };
                let historic = match read_field::<Legality>(ps, "historic") {
                    Some(x) => x,
                    None => {
                        return None;
                    },
                };
                let historicbrawl = match read_field::<Legality>(ps, "historicbrawl") {
                    Some(x) => x,
                    None => {
                        return None;
                    },
                };
                let legacy = match read_field::<Legality>(ps, "legacy") {
                    Some(x) => x,
                    None => {
                        return None;
                    },
                };
                let modern = match read_field::<Legality>(ps, "modern") {
                    Some(x) => x,
                    None => {
                        return None;
                    },
                };
                let oldschool = match read_field::<Legality>(ps, "oldschool") {
                    Some(x) => x,
                    None => {
                        return None;
                    },
                };
                let pauper = match read_field::<Legality>(ps, "pauper") {
                    Some(x) => x,
                    None => {
                        return None;
                    },
                };
                let paupercommander = match read_field::<Legality>(ps, "paupercommander") {
                    Some(x) => x,
                    None => {
                        return None;
                    },
                };
                let penny = match read_field::<Legality>(ps, "penny") {
                    Some(x) => x,
                    None => {
                        return None;
                    },
                };
                let pioneer = match read_field::<Legality>(ps, "pioneer") {
                    Some(x) => x,
                    None => {
                        return None;
                    },
                };
                let premodern = match read_field::<Legality>(ps, "premodern") {
                    Some(x) => x,
                    None => {
                        return None;
                    },
                };
                let standard = match read_field::<Legality>(ps, "standard") {
                    Some(x) => x,
                    None => {
                        return None;
                    },
                };
                let vintage = match read_field::<Legality>(ps, "vintage") {
                    Some(x) => x,
                    None => {
                        return None;
                    },
                };
                Some(Legalities { alchemy, brawl, commander, duel, explorer, future, gladiator, historic, historicbrawl, legacy, modern, oldschool, pauper, paupercommander, penny, pioneer, premodern, standard, vintage })
            },
            _ => None,
        }
    }

    fn to_tree(&self) -> (t: JsonValue) {
        let mut ps: Vec<(String, JsonValue)> = Vec::new();
        ps.push(("alchemy".to_owned(), self.alchemy.to_tree()));
        ps.push(("brawl".to_owned(), self.brawl.to_tree()));
        ps.push(("commander".to_owned(), self.commander.to_tree()));
        ps.push(("duel".to_owned(), self.duel.to_tree()));
        ps.push(("explorer".to_owned(), self.explorer.to_tree()));
        ps.push(("future".to_owned(), self.future.to_tree()));
        ps.push(("gladiator".to_owned(), self.gladiator.to_tree()));
        ps.push(("historic".to_owned(), self.historic.to_tree()));
        ps.push(("historicbrawl".to_owned(), self.historicbrawl.to_tree()));
        ps.push(("legacy".to_owned(), self.legacy.to_tree()));
        ps.push(("modern".to_owned(), self.modern.to_tree()));
        ps.push(("oldschool".to_owned(), self.oldschool.to_tree()));
        ps.push(("pauper".to_owned(), self.pauper.to_tree()));
        ps.push(("paupercommander".to_owned(), self.paupercommander.to_tree()));
        ps.push(("penny".to_owned(), self.penny.to_tree()));
        ps.push(("pioneer".to_owned(), self.pioneer.to_tree()));
        ps.push(("premodern".to_owned(), self.premodern.to_tree()));
        ps.push(("standard".to_owned(), self.standard.to_tree()));
        ps.push(("vintage".to_owned(), self.vintage.to_tree()));
        let r = JsonValue::Obj(ps);
        proof {
            assert(jpairs_of(ps@) =~= legalities_model_pairs(*self));
        }
        r
    }
}

/// Law: the canonical tree of a valid Legalities carries exactly
/// that value, so decoding what it encodes to yields its data back.
pub proof fn lemma_legalities_model_round_trip(m: Legalities)
    ensures
        m.inv() ==> m.matches_tree(m.tree_spec()),
{
    if m.inv() {
        reveal_strlit("alchemy");
        reveal_strlit("brawl");
        reveal_strlit("commander");
        reveal_strlit("duel");
        reveal_strlit("explorer");
        reveal_strlit("future");
        reveal_strlit("gladiator");
        reveal_strlit("historic");
        reveal_strlit("historicbrawl");
        reveal_strlit("legacy");
        reveal_strlit("modern");
        reveal_strlit("oldschool");
        reveal_strlit("pauper");
        reveal_strlit("paupercommander");
        reveal_strlit("penny");
        reveal_strlit("pioneer");
        reveal_strlit("premodern");
        reveal_strlit("standard");
        reveal_strlit("vintage");
        assert("alchemy"@.len() == 7 && "alchemy"@[0] == 'a');
        assert("brawl"@.len() == 5 && "brawl"@[0] == 'b');
        assert("commander"@.len() == 9 && "commander"@[0] == 'c');
        assert("duel"@.len() == 4 && "duel"@[0] == 'd');
        assert("explorer"@.len() == 8 && "explorer"@[0] == 'e');
        assert("future"@.len() == 6 && "future"@[0] == 'f');
        assert("gladiator"@.len() == 9 && "gladiator"@[0] == 'g');
        assert("historic"@.len() == 8 && "historic"@[0] == 'h');
        assert("historicbrawl"@.len() == 13 && "historicbrawl"@[0] == 'h');
        assert("legacy"@.len() == 6 && "legacy"@[0] == 'l');
        assert("modern"@.len() == 6 && "modern"@[0] == 'm');
        assert("oldschool"@.len() == 9 && "oldschool"@[0] == 'o');
        assert("pauper"@.len() == 6 && "pauper"@[0] == 'p');
        assert("paupercommander"@.len() == 15 && "paupercommander"@[0] == 'p');
        assert("penny"@.len() == 5 && "penny"@[0] == 'p');
        assert("pioneer"@.len() == 7 && "pioneer"@[0] == 'p');
        assert("premodern"@.len() == 9 && "premodern"@[0] == 'p');
        assert("standard"@.len() == 8 && "standard"@[0] == 's');
        assert("vintage"@.len() == 7 && "vintage"@[0] == 'v');
        let ps = legalities_model_pairs(m);
        assert(ps[0].0 == "alchemy"@);
        assert(ps[1].0 == "brawl"@);
        assert(ps[2].0 == "commander"@);
        assert(ps[3].0 == "duel"@);
        assert(ps[4].0 == "explorer"@);
        assert(ps[5].0 == "future"@);
        assert(ps[6].0 == "gladiator"@);
        assert(ps[7].0 == "historic"@);
        assert(ps[8].0 == "historicbrawl"@);
        assert(ps[9].0 == "legacy"@);
        assert(ps[10].0 == "modern"@);
        assert(ps[11].0 == "oldschool"@);
        assert(ps[12].0 == "pauper"@);
        assert(ps[13].0 == "paupercommander"@);
        assert(ps[14].0 == "penny"@);
        assert(ps[15].0 == "pioneer"@);
        assert(ps[16].0 == "premodern"@);
        assert(ps[17].0 == "standard"@);
        assert(ps[18].0 == "vintage"@);
        lemma_jobj_get_at(ps, "alchemy"@, 0);
        lemma_jobj_get_at(ps, "brawl"@, 1);
        lemma_jobj_get_at(ps, "commander"@, 2);
        lemma_jobj_get_at(ps, "duel"@, 3);
        lemma_jobj_get_at(ps, "explorer"@, 4);
        lemma_jobj_get_at(ps, "future"@, 5);
        lemma_jobj_get_at(ps, "gladiator"@, 6);
        lemma_jobj_get_at(ps, "historic"@, 7);
        lemma_jobj_get_at(ps, "historicbrawl"@, 8);
        lemma_jobj_get_at(ps, "legacy"@, 9);
        lemma_jobj_get_at(ps, "modern"@, 10);
        lemma_jobj_get_at(ps, "oldschool"@, 11);
        lemma_jobj_get_at(ps, "pauper"@, 12);
        lemma_jobj_get_at(ps, "paupercommander"@, 13);
        lemma_jobj_get_at(ps, "penny"@, 14);
        lemma_jobj_get_at(ps, "pioneer"@, 15);
        lemma_jobj_get_at(ps, "premodern"@, 16);
        lemma_jobj_get_at(ps, "standard"@, 17);
        lemma_jobj_get_at(ps, "vintage"@, 18);
    }
}

impl Legalities {
    /// Two values carry the same data: every member reads back equal.
    pub open spec fn same_data(&self, other: &Legalities) -> bool {
        &&& self.alchemy == other.alchemy
        &&& self.brawl == other.brawl
        &&& self.commander == other.commander
        &&& self.duel == other.duel
        &&& self.explorer == other.explorer
        &&& self.future == other.future
        &&& self.gladiator == other.gladiator
        &&& self.historic == other.historic
        &&& self.historicbrawl == other.historicbrawl
        &&& self.legacy == other.legacy
        &&& self.modern == other.modern
        &&& self.oldschool == other.oldschool
        &&& self.pauper == other.pauper
        &&& self.paupercommander == other.paupercommander
        &&& self.penny == other.penny
        &&& self.pioneer == other.pioneer
        &&& self.premodern == other.premodern
        &&& self.standard == other.standard
        &&& self.vintage == other.vintage
    }
}

/// Law: a tree determines the data it carries; two values matching one
/// tree carry the same data.
pub proof fn lemma_legalities_model_decode_functional(a: Legalities, b: Legalities, t: JVal)
    ensures
        a.matches_tree(t) && b.matches_tree(t) ==> a.same_data(&b),
{
    if a.matches_tree(t) && b.matches_tree(t) {
        let ps = t->Obj_0;
        lemma_legality_str_injective(a.alchemy, b.alchemy);
        lemma_legality_str_injective(a.brawl, b.brawl);
        lemma_legality_str_injective(a.commander, b.commander);
        lemma_legality_str_injective(a.duel, b.duel);
        lemma_legality_str_injective(a.explorer, b.explorer);
        lemma_legality_str_injective(a.future, b.future);
        lemma_legality_str_injective(a.gladiator, b.gladiator);
        lemma_legality_str_injective(a.historic, b.historic);
        lemma_legality_str_injective(a.historicbrawl, b.historicbrawl);
        lemma_legality_str_injective(a.legacy, b.legacy);
        lemma_legality_str_injective(a.modern, b.modern);
        lemma_legality_str_injective(a.oldschool, b.oldschool);
        lemma_legality_str_injective(a.pauper, b.pauper);
        lemma_legality_str_injective(a.paupercommander, b.paupercommander);
        lemma_legality_str_injective(a.penny, b.penny);
        lemma_legality_str_injective(a.pioneer, b.pioneer);
        lemma_legality_str_injective(a.premodern, b.premodern);
        lemma_legality_str_injective(a.standard, b.standard);
        lemma_legality_str_injective(a.vintage, b.vintage);
    }
}

/// Container for card prices, as decimal texts.
#[derive(Debug)]
pub struct Prices {
    pub eur: Option<String>,
    pub eur_foil: Option<String>,
    pub tix: Option<String>,
    pub usd: Option<String>,
    pub usd_etched: Option<String>,
    pub usd_foil: Option<String>,
}

/// The members of the tree a Prices encodes to, in wire order.
pub open spec fn prices_model_pairs(m: Prices) -> Seq<(Seq<char>, JVal)> {
    seq![
        ("eur"@, opt_tree(m.eur)),
        ("eur_foil"@, opt_tree(m.eur_foil)),
        ("tix"@, opt_tree(m.tix)),
        ("usd"@, opt_tree(m.usd)),
        ("usd_etched"@, opt_tree(m.usd_etched)),
        ("usd_foil"@, opt_tree(m.usd_foil)),
    ]
}

impl ApiModel for Prices {
    open spec fn inv(&self) -> bool {
        true
    }

    open spec fn matches_tree(&self, t: JVal) -> bool {
        &&& t matches JVal::Obj(ps)
        &&& opt_field_like(ps, "eur"@, self.eur)
        &&& opt_field_like(ps, "eur_foil"@, self.eur_foil)
        &&& opt_field_like(ps, "tix"@, self.tix)
        &&& opt_field_like(ps, "usd"@, self.usd)
        &&& opt_field_like(ps, "usd_etched"@, self.usd_etched)
        &&& opt_field_like(ps, "usd_foil"@, self.usd_foil)
    }

    open spec fn tree_spec(&self) -> JVal {
        JVal::Obj(prices_model_pairs(*self))
    }

    fn from_tree(t: &JsonValue) -> (r: Option<Self>) {
        match t {
            JsonValue::Obj(ps) => {
                proof {
                    assert(t@ == JVal::Obj(jpairs_of(ps@)));
                }
                let eur = match read_opt::<String>(ps, "eur") {
                    Some(x) => x,
                    None => {
                        return None;
                    },
                };
                let eur_foil = match read_opt::<String>(ps, "eur_foil") {
                    Some(x) => x,
                    None => {
                        return None;
                    },
                };
                let tix = match read_opt::<String>(ps, "tix") {
                    Some(x) => x,
                    None => {
                        return None;
                    },
                };
                let usd = match read_opt::<String>(ps, "usd") {
                    Some(x) => x,
                    None => {
                        return None;
                    },
                };
                let usd_etched = match read_opt::<String>(ps, "usd_etched") {
                    Some(x) => x,
                    None => {
                        return None;
                    },
                };
                let usd_foil = match read_opt::<String>(ps, "usd_foil") {
                    Some(x) => x,
                    None => {
                        return None;
                    },
                };
                Some(Prices { eur, eur_foil, tix, usd, usd_etched, usd_foil })
            },
            _ => None,
        }
    }

    fn to_tree(&self) -> (t: JsonValue) {
        let mut ps: Vec<(String, JsonValue)> = Vec::new();
        ps.push(("eur".to_owned(), opt_to_tree(&self.eur)));
        ps.push(("eur_foil".to_owned(), opt_to_tree(&self.eur_foil)));
        ps.push(("tix".to_owned(), opt_to_tree(&self.tix)));
        ps.push(("usd".to_owned(), opt_to_tree(&self.usd)));
        ps.push(("usd_etched".to_owned(), opt_to_tree(&self.usd_etched)));
        ps.push(("usd_foil".to_owned(), opt_to_tree(&self.usd_foil)));
        let r = JsonValue::Obj(ps);
        proof {
            assert(jpairs_of(ps@) =~= prices_model_pairs(*self));
        }
        r
    }
}

/// Law: the canonical tree of a valid Prices carries exactly
/// that value, so decoding what it encodes to yields its data back.
pub proof fn lemma_prices_model_round_trip(m: Prices)
    ensures
        m.inv() ==> m.matches_tree(m.tree_spec()),
{
    if m.inv() {
        reveal_strlit("eur");
        reveal_strlit("eur_foil");
        reveal_strlit("tix");
        reveal_strlit("usd");
        reveal_strlit("usd_etched");
        reveal_strlit("usd_foil");
        assert("eur"@.len() == 3 && "eur"@[0] == 'e');
        assert("eur_foil"@.len() == 8 && "eur_foil"@[0] == 'e');
        assert("tix"@.len() == 3 && "tix"@[0] == 't');
        assert("usd"@.len() == 3 && "usd"@[0] == 'u');
        assert("usd_etched"@.len() == 10 && "usd_etched"@[0] == 'u');
        assert("usd_foil"@.len() == 8 && "usd_foil"@[0] == 'u');
        let ps = prices_model_pairs(m);
        assert(ps[0].0 == "eur"@);
        assert(ps[1].0 == "eur_foil"@);
        assert(ps[2].0 == "tix"@);
        assert(ps[3].0 == "usd"@);
        assert(ps[4].0 == "usd_etched"@);
        assert(ps[5].0 == "usd_foil"@);
        lemma_jobj_get_at(ps, "eur"@, 0);
        lemma_jobj_get_at(ps, "eur_foil"@, 1);
        lemma_jobj_get_at(ps, "tix"@, 2);
        lemma_jobj_get_at(ps, "usd"@, 3);
        lemma_jobj_get_at(ps, "usd_etched"@, 4);
        lemma_jobj_get_at(ps, "usd_foil"@, 5);
    }
}

impl Prices {
    /// Two values carry the same data: every member reads back equal.
    pub open spec fn same_data(&self, other: &Prices) -> bool {
        &&& match (self.eur, other.eur) { (Some(va), Some(vb)) => va@ == vb@, (None, None) => true, _ => false }
        &&& match (self.eur_foil, other.eur_foil) { (Some(va), Some(vb)) => va@ == vb@, (None, None) => true, _ => false }
        &&& match (self.tix, other.tix) { (Some(va), Some(vb)) => va@ == vb@, (None, None) => true, _ => false }
        &&& match (self.usd, other.usd) { (Some(va), Some(vb)) => va@ == vb@, (None, None) => true, _ => false }
        &&& match (self.usd_etched, other.usd_etched) { (Some(va), Some(vb)) => va@ == vb@, (None, None) => true, _ => false }
        &&& match (self.usd_foil, other.usd_foil) { (Some(va), Some(vb)) => va@ == vb@, (None, None) => true, _ => false }
    }
}

/// Law: a tree determines the data it carries; two values matching one
/// tree carry the same data.
pub proof fn lemma_prices_model_decode_functional(a: Prices, b: Prices, t: JVal)
    ensures
        a.matches_tree(t) && b.matches_tree(t) ==> a.same_data(&b),
{
    if a.matches_tree(t) && b.matches_tree(t) {
        let ps = t->Obj_0;
    }
}

/// Container for card purchase URLs.
#[derive(Debug)]
pub struct PurchaseUris {
    pub cardhoarder: UrlText,
    pub cardmarket: UrlText,
    pub tcgplayer: UrlText,
}

/// The members of the tree a PurchaseUris encodes to, in wire order.
pub open spec fn purchase_uris_model_pairs(m: PurchaseUris) -> Seq<(Seq<char>, JVal)> {
    seq![
        ("cardhoarder"@, m.cardhoarder.tree_spec()),
        ("cardmarket"@, m.cardmarket.tree_spec()),
        ("tcgplayer"@, m.tcgplayer.tree_spec()),
    ]
}

impl ApiModel for PurchaseUris {
    open spec fn inv(&self) -> bool {
        &&& self.cardhoarder.inv()
        &&& self.cardmarket.inv()
        &&& self.tcgplayer.inv()
    }

    open spec fn matches_tree(&self, t: JVal) -> bool {
        &&& t matches JVal::Obj(ps)
        &&& field_like(ps, "cardhoarder"@, self.cardhoarder)
        &&& field_like(ps, "cardmarket"@, self.cardmarket)
        &&& field_like(ps, "tcgplayer"@, self.tcgplayer)
    }

    open spec fn tree_spec(&self) -> JVal {
        JVal::Obj(purchase_uris_model_pairs(*self))
    }

    fn from_tree(t: &JsonValue) -> (r: Option<Self>) {
        match t {
            JsonValue::Obj(ps) => {
                proof {
                    assert(t@ == JVal::Obj(jpairs_of(ps@)));
                }
                let cardhoarder = match read_field::<UrlText>(ps, "cardhoarder") {
                    Some(x) => x,
                    None => {
                        return None;
                    },
                };
                let cardmarket = match read_field::<UrlText>(ps, "cardmarket") {
                    Some(x) => x,
                    None => {
                        return None;
                    },
                };
                let tcgplayer = match read_field::<UrlText>(ps, "tcgplayer") {
                    Some(x) => x,
                    None => {
                        return None;
                    },
                };
                Some(PurchaseUris { cardhoarder, cardmarket, tcgplayer })
            },
            _ => None,
        }
    }

    fn to_tree(&self) -> (t: JsonValue) {
        let mut ps: Vec<(String, JsonValue)> = Vec::new();
        ps.push(("cardhoarder".to_owned(), self.cardhoarder.to_tree()));
        ps.push(("cardmarket".to_owned(), self.cardmarket.to_tree()));
        ps.push(("tcgplayer".to_owned(), self.tcgplayer.to_tree()));
        let r = JsonValue::Obj(ps);
        proof {
            assert(jpairs_of(ps@) =~= purchase_uris_model_pairs(*self));
        }
        r
    }
}

/// Law: the canonical tree of a valid PurchaseUris carries exactly
/// that value, so decoding what it encodes to yields its data back.
pub proof fn lemma_purchase_uris_model_round_trip(m: PurchaseUris)
    ensures
        m.inv() ==> m.matches_tree(m.tree_spec()),
{
    if m.inv() {
        reveal_strlit("cardhoarder");
        reveal_strlit("cardmarket");
        reveal_strlit("tcgplayer");
        assert("cardhoarder"@.len() == 11 && "cardhoarder"@[0] == 'c');
        assert("cardmarket"@.len() == 10 && "cardmarket"@[0] == 'c');
        assert("tcgplayer"@.len() == 9 && "tcgplayer"@[0] == 't');
        let ps = purchase_uris_model_pairs(m);
        assert(ps[0].0 == "cardhoarder"@);
        assert(ps[1].0 == "cardmarket"@);
        assert(ps[2].0 == "tcgplayer"@);
        lemma_jobj_get_at(ps, "cardhoarder"@, 0);
        lemma_jobj_get_at(ps, "cardmarket"@, 1);
        lemma_jobj_get_at(ps, "tcgplayer"@, 2);
    }
}

impl PurchaseUris {
    /// Two values carry the same data: every member reads back equal.
    pub open spec fn same_data(&self, other: &PurchaseUris) -> bool {
        &&& self.cardhoarder.0@ == other.cardhoarder.0@
        &&& self.cardmarket.0@ == other.cardmarket.0@
        &&& self.tcgplayer.0@ == other.tcgplayer.0@
    }
}

/// Law: a tree determines the data it carries; two values matching one
/// tree carry the same data.
pub proof fn lemma_purchase_uris_model_decode_functional(a: PurchaseUris, b: PurchaseUris, t: JVal)
    ensures
        a.matches_tree(t) && b.matches_tree(t) ==> a.same_data(&b),
{
    if a.matches_tree(t) && b.matches_tree(t) {
        let ps = t->Obj_0;
    }
}

/// Container for other card related URLs.
#[derive(Debug)]
pub struct RelatedUris {
    pub edhrec: Option<UrlText>,
    pub gatherer: Option<UrlText>,
    pub tcgplayer_infinite_articles: Option<UrlText>,
    pub tcgplayer_infinite_decks: Option<UrlText>,
}

/// The members of the tree a RelatedUris encodes to, in wire order.
pub open spec fn related_uris_model_pairs(m: RelatedUris) -> Seq<(Seq<char>, JVal)> {
    seq![
        ("edhrec"@, opt_tree(m.edhrec)),
        ("gatherer"@, opt_tree(m.gatherer)),
        ("tcgplayer_infinite_articles"@, opt_tree(m.tcgplayer_infinite_articles)),
        ("tcgplayer_infinite_decks"@, opt_tree(m.tcgplayer_infinite_decks)),
    ]
}

impl ApiModel for RelatedUris {
    open spec fn inv(&self) -> bool {
        &&& opt_inv(self.edhrec)
        &&& opt_inv(self.gatherer)
        &&& opt_inv(self.tcgplayer_infinite_articles)
        &&& opt_inv(self.tcgplayer_infinite_decks)
    }

    open spec fn matches_tree(&self, t: JVal) -> bool {
        &&& t matches JVal::Obj(ps)
        &&& opt_field_like(ps, "edhrec"@, self.edhrec)
        &&& opt_field_like(ps, "gatherer"@, self.gatherer)
        &&& opt_field_like(ps, "tcgplayer_infinite_articles"@, self.tcgplayer_infinite_articles)
        &&& opt_field_like(ps, "tcgplayer_infinite_decks"@, self.tcgplayer_infinite_decks)
    }

    open spec fn tree_spec(&self) -> JVal {
        JVal::Obj(related_uris_model_pairs(*self))
    }

    fn from_tree(t: &JsonValue) -> (r: Option<Self>) {
        match t {
            JsonValue::Obj(ps) => {
                proof {
                    assert(t@ == JVal::Obj(jpairs_of(ps@)));
                }
                let edhrec = match read_opt::<UrlText>(ps, "edhrec") {
                    Some(x) => x,
                    None => {
                        return None;
                    },
                };
                let gatherer = match read_opt::<UrlText>(ps, "gatherer") {
                    Some(x) => x,
                    None => {
                        return None;
                    },
                };
                let tcgplayer_infinite_articles = match read_opt::<UrlText>(ps, "tcgplayer_infinite_articles") {
                    Some(x) => x,
                    None => {
                        return None;
                    },
                };
                let tcgplayer_infinite_decks = match read_opt::<UrlText>(ps, "tcgplayer_infinite_decks") {
                    Some(x) => x,
                    None => {
                        return None;
                    },
                };
                Some(RelatedUris { edhrec, gatherer, tcgplayer_infinite_articles, tcgplayer_infinite_decks })
            },
            _ => None,
        }
    }

    fn to_tree(&self) -> (t: JsonValue) {
        let mut ps: Vec<(String, JsonValue)> = Vec::new();
        ps.push(("edhrec".to_owned(), opt_to_tree(&self.edhrec)));
        ps.push(("gatherer".to_owned(), opt_to_tree(&self.gatherer)));
        ps.push(("tcgplayer_infinite_articles".to_owned(), opt_to_tree(&self.tcgplayer_infinite_articles)));
        ps.push(("tcgplayer_infinite_decks".to_owned(), opt_to_tree(&self.tcgplayer_infinite_decks)));
        let r = JsonValue::Obj(ps);
        proof {
            assert(jpairs_of(ps@) =~= related_uris_model_pairs(*self));
        }
        r
    }
}

/// Law: the canonical tree of a valid RelatedUris carries exactly
/// that value, so decoding what it encodes to yields its data back.
pub proof fn lemma_related_uris_model_round_trip(m: RelatedUris)
    ensures
        m.inv() ==> m.matches_tree(m.tree_spec()),
{
    if m.inv() {
        reveal_strlit("edhrec");
        reveal_strlit("gatherer");
        reveal_strlit("tcgplayer_infinite_articles");
        reveal_strlit("tcgplayer_infinite_decks");
        assert("edhrec"@.len() == 6 && "edhrec"@[0] == 'e');
        assert("gatherer"@.len() == 8 && "gatherer"@[0] == 'g');
        assert("tcgplayer_infinite_articles"@.len() == 27 && "tcgplayer_infinite_articles"@[0] == 't');
        assert("tcgplayer_infinite_decks"@.len() == 24 && "tcgplayer_infinite_decks"@[0] == 't');
        let ps = related_uris_model_pairs(m);
        assert(ps[0].0 == "edhrec"@);
        assert(ps[1].0 == "gatherer"@);
        assert(ps[2].0 == "tcgplayer_infinite_articles"@);
        assert(ps[3].0 == "tcgplayer_infinite_decks"@);
        lemma_jobj_get_at(ps, "edhrec"@, 0);
        lemma_jobj_get_at(ps, "gatherer"@, 1);
        lemma_jobj_get_at(ps, "tcgplayer_infinite_articles"@, 2);
        lemma_jobj_get_at(ps, "tcgplayer_infinite_decks"@, 3);
    }
}

impl RelatedUris {
    /// Two values carry the same data: every member reads back equal.
    pub open spec fn same_data(&self, other: &RelatedUris) -> bool {
        &&& match (self.edhrec, other.edhrec) { (Some(va), Some(vb)) => va.0@ == vb.0@, (None, None) => true, _ => false }
        &&& match (self.gatherer, other.gatherer) { (Some(va), Some(vb)) => va.0@ == vb.0@, (None, None) => true, _ => false }
        &&& match (self.tcgplayer_infinite_articles, other.tcgplayer_infinite_articles) { (Some(va), Some(vb)) => va.0@ == vb.0@, (None, None) => true, _ => false }
        &&& match (self.tcgplayer_infinite_decks, other.tcgplayer_infinite_decks) { (Some(va), Some(vb)) => va.0@ == vb.0@, (None, None) => true, _ => false }
    }
}

/// Law: a tree determines the data it carries; two values matching one
/// tree carry the same data.
pub proof fn lemma_related_uris_model_decode_functional(a: RelatedUris, b: RelatedUris, t: JVal)
    ensures
        a.matches_tree(t) && b.matches_tree(t) ==> a.same_data(&b),
{
    if a.matches_tree(t) && b.matches_tree(t) {
        let ps = t->Obj_0;
    }
}

/// A card related to another card.
#[derive(Debug)]
pub struct RelatedCard {
    pub component: String,
    pub id: UuidText,
    pub kind: ResourceKind,
    pub name: String,
    pub type_line: String,
    pub uri: UrlText,
}

/// The members of the tree a RelatedCard encodes to, in wire order.
pub open spec fn related_card_pairs(m: RelatedCard) -> Seq<(Seq<char>, JVal)> {
    seq![
        ("component"@, m.component.tree_spec()),
        ("id"@, m.id.tree_spec()),
        ("object"@, m.kind.tree_spec()),
        ("name"@, m.name.tree_spec()),
        ("type_line"@, m.type_line.tree_spec()),
        ("uri"@, m.uri.tree_spec()),
    ]
}

impl ApiModel for RelatedCard {
    open spec fn inv(&self) -> bool {
        &&& self.id.inv()
        &&& self.uri.inv()
    }

    open spec fn matches_tree(&self, t: JVal) -> bool {
        &&& t matches JVal::Obj(ps)
        &&& field_like(ps, "component"@, self.component)
        &&& field_like(ps, "id"@, self.id)
        &&& field_like(ps, "object"@, self.kind)
        &&& field_like(ps, "name"@, self.name)
        &&& field_like(ps, "type_line"@, self.type_line)
        &&& field_like(ps, "uri"@, self.uri)
    }

    open spec fn tree_spec(&self) -> JVal {
        JVal::Obj(related_card_pairs(*self))
    }

    fn from_tree(t: &JsonValue) -> (r: Option<Self>) {
        match t {
            JsonValue::Obj(ps) => {
                proof {
                    assert(t@ == JVal::Obj(jpairs_of(ps@)));
                }
                let component = match read_field::<String>(ps, "component") {
                    Some(x) => x,
                    None => {
                        return None;
                    },
                };
                let id = match read_field::<UuidText>(ps, "id") {
                    Some(x) => x,
                    None => {
                        return None;
                    },
                };
                let kind = match read_field::<ResourceKind>(ps, "object") {
                    Some(x) => x,
                    None => {
                        return None;
                    },
                };
                let name = match read_field::<String>(ps, "name") {
                    Some(x) => x,
                    None => {
                        return None;
                    },
                };
                let type_line = match read_field::<String>(ps, "type_line") {
                    Some(x) => x,
                    None => {
                        return None;
                    },
                };
                let uri = match read_field::<UrlText>(ps, "uri") {
                    Some(x) => x,
                    None => {
                        return None;
                    },
                };
                Some(RelatedCard { component, id, kind, name, type_line, uri })
            },
            _ => None,
        }
    }

    fn to_tree(&self) -> (t: JsonValue) {
        let mut ps: Vec<(String, JsonValue)> = Vec::new();
        ps.push(("component".to_owned(), self.component.to_tree()));
        ps.push(("id".to_owned(), self.id.to_tree()));
        ps.push(("object".to_owned(), self.kind.to_tree()));
        ps.push(("name".to_owned(), self.name.to_tree()));
        ps.push(("type_line".to_owned(), self.type_line.to_tree()));
        ps.push(("uri".to_owned(), self.uri.to_tree()));
        let r = JsonValue::Obj(ps);
        proof {
            assert(jpairs_of(ps@) =~= related_card_pairs(*self));
        }
        r
    }
}

/// Law: the canonical tree of a valid RelatedCard carries exactly
/// that value, so decoding what it encodes to yields its data back.
pub proof fn lemma_related_card_round_trip(m: RelatedCard)
    ensures
        m.inv() ==> m.matches_tree(m.tree_spec()),
{
    if m.inv() {
        reveal_strlit("component");
        reveal_strlit("id");
        reveal_strlit("object");
        reveal_strlit("name");
        reveal_strlit("type_line");
        reveal_strlit("uri");
        assert("component"@.len() == 9 && "component"@[0] == 'c');
        assert("id"@.len() == 2 && "id"@[0] == 'i');
        assert("object"@.len() == 6 && "object"@[0] == 'o');
        assert("name"@.len() == 4 && "name"@[0] == 'n');
        assert("type_line"@.len() == 9 && "type_line"@[0] == 't');
        assert("uri"@.len() == 3 && "uri"@[0] == 'u');
        let ps = related_card_pairs(m);
        assert(ps[0].0 == "component"@);
        assert(ps[1].0 == "id"@);
        assert(ps[2].0 == "object"@);
        assert(ps[3].0 == "name"@);
        assert(ps[4].0 == "type_line"@);
        assert(ps[5].0 == "uri"@);
        lemma_jobj_get_at(ps, "component"@, 0);
        lemma_jobj_get_at(ps, "id"@, 1);
        lemma_jobj_get_at(ps, "object"@, 2);
        lemma_jobj_get_at(ps, "name"@, 3);
        lemma_jobj_get_at(ps, "type_line"@, 4);
        lemma_jobj_get_at(ps, "uri"@, 5);
    }
}

impl RelatedCard {
    /// Two values carry the same data: every member reads back equal.
    pub open spec fn same_data(&self, other: &RelatedCard) -> bool {
        &&& self.component@ == other.component@
        &&& self.id.0@ == other.id.0@
        &&& self.kind == other.kind
        &&& self.name@ == other.name@
        &&& self.type_line@ == other.type_line@
        &&& self.uri.0@ == other.uri.0@
    }
}

/// Law: a tree determines the data it carries; two values matching one
/// tree carry the same data.
pub proof fn lemma_related_card_decode_functional(a: RelatedCard, b: RelatedCard, t: JVal)
    ensures
        a.matches_tree(t) && b.matches_tree(t) ==> a.same_data(&b),
{
    if a.matches_tree(t) && b.matches_tree(t) {
        let ps = t->Obj_0;
        lemma_kind_str_injective(a.kind, b.kind);
    }
}

/// A struct representing the face of a card.
#[derive(Debug)]
pub struct CardFace {
    pub artist: Option<String>,
    pub artist_id: Option<UuidText>,
    pub cmc: Option<NumberText>,
    pub color_indicator: Option<Vec<ColorSymbol>>,
    pub colors: Option<Vec<ColorSymbol>>,
    pub flavor_name: Option<String>,
    pub flavor_text: Option<String>,
    pub illustration_id: Option<UuidText>,
    pub image_uris: Option<ImageUris>,
    pub kind: ResourceKind,
    pub layout: Option<Layout>,
    pub loyalty: Option<String>,
    pub mana_cost: String,
    pub name: String,
    pub oracle_id: Option<UuidText>,
    pub oracle_text: Option<String>,
    pub power: Option<String>,
    pub printed_name: Option<String>,
    pub printed_text: Option<String>,
    pub printed_type_line: Option<String>,
    pub toughness: Option<String>,
    pub type_line: Option<String>,
    pub watermark: Option<String>,
}

/// The members of the tree a CardFace encodes to, in wire order.
pub open spec fn card_face_pairs(m: CardFace) -> Seq<(Seq<char>, JVal)> {
    seq![
        ("artist"@, opt_tree(m.artist)),
        ("artist_id"@, opt_tree(m.artist_id)),
        ("cmc"@, opt_tree(m.cmc)),
        ("color_indicator"@, opt_tree(m.color_indicator)),
        ("colors"@, opt_tree(m.colors)),
        ("flavor_name"@, opt_tree(m.flavor_name)),
        ("flavor_text"@, opt_tree(m.flavor_text)),
        ("illustration_id"@, opt_tree(m.illustration_id)),
        ("image_uris"@, opt_tree(m.image_uris)),
        ("object"@, m.kind.tree_spec()),
        ("layout"@, opt_tree(m.layout)),
        ("loyalty"@, opt_tree(m.loyalty)),
        ("mana_cost"@, m.mana_cost.tree_spec()),
        ("name"@, m.name.tree_spec()),
        ("oracle_id"@, opt_tree(m.oracle_id)),
        ("oracle_text"@, opt_tree(m.oracle_text)),
        ("power"@, opt_tree(m.power)),
        ("printed_name"@, opt_tree(m.printed_name)),
        ("printed_text"@, opt_tree(m.printed_text)),
        ("printed_type_line"@, opt_tree(m.printed_type_line)),
        ("toughness"@, opt_tree(m.toughness)),
        ("type_line"@, opt_tree(m.type_line)),
        ("watermark"@, opt_tree(m.watermark)),
    ]
}

impl ApiModel for CardFace {
    open spec fn inv(&self) -> bool {
        &&& opt_inv(self.artist_id)
        &&& opt_inv(self.illustration_id)
        &&& opt_inv(self.image_uris)
        &&& opt_inv(self.oracle_id)
    }

    open spec fn matches_tree(&self, t: JVal) -> bool {
        &&& t matches JVal::Obj(ps)
        &&& opt_field_like(ps, "artist"@, self.artist)
        &&& opt_field_like(ps, "artist_id"@, self.artist_id)
        &&& opt_field_like(ps, "cmc"@, self.cmc)
        &&& opt_field_like(ps, "color_indicator"@, self.color_indicator)
        &&& opt_field_like(ps, "colors"@, self.colors)
        &&& opt_field_like(ps, "flavor_name"@, self.flavor_name)
        &&& opt_field_like(ps, "flavor_text"@, self.flavor_text)
        &&& opt_field_like(ps, "illustration_id"@, self.illustration_id)
        &&& opt_field_like(ps, "image_uris"@, self.image_uris)
        &&& field_like(ps, "object"@, self.kind)
        &&& opt_field_like(ps, "layout"@, self.layout)
        &&& opt_field_like(ps, "loyalty"@, self.loyalty)
        &&& field_like(ps, "mana_cost"@, self.mana_cost)
        &&& field_like(ps, "name"@, self.name)
        &&& opt_field_like(ps, "oracle_id"@, self.oracle_id)
        &&& opt_field_like(ps, "oracle_text"@, self.oracle_text)
        &&& opt_field_like(ps, "power"@, self.power)
        &&& opt_field_like(ps, "printed_name"@, self.printed_name)
        &&& opt_field_like(ps, "printed_text"@, self.printed_text)
        &&& opt_field_like(ps, "printed_type_line"@, self.printed_type_line)
        &&& opt_field_like(ps, "toughness"@, self.toughness)
        &&& opt_field_like(ps, "type_line"@, self.type_line)
        &&& opt_field_like(ps, "watermark"@, self.watermark)
    }

    open spec fn tree_spec(&self) -> JVal {
        JVal::Obj(card_face_pairs(*self))
    }

    fn from_tree(t: &JsonValue) -> (r: Option<Self>) {
        match t {
            JsonValue::Obj(ps) => {
                proof {
                    assert(t@ == JVal::Obj(jpairs_of(ps@)));
                }
                let artist = match read_opt::<String>(ps, "artist") {
                    Some(x) => x,
                    None => {
                        return None;
                    },
                };
                let artist_id = match read_opt::<UuidText>(ps, "artist_id") {
                    Some(x) => x,
                    None => {
                        return None;
                    },
                };
                let cmc = match read_opt::<NumberText>(ps, "cmc") {
                    Some(x) => x,
                    None => {
                        return None;
                    },
                };
                let color_indicator = match read_opt::<Vec<ColorSymbol>>(ps, "color_indicator") {
                    Some(x) => x,
                    None => {
                        return None;
                    },
                };
                let colors = match read_opt::<Vec<ColorSymbol>>(ps, "colors") {
                    Some(x) => x,
                    None => {
                        return None;
                    },
                };
                let flavor_name = match read_opt::<String>(ps, "flavor_name") {
                    Some(x) => x,
                    None => {
                        return None;
                    },
                };
                let flavor_text = match read_opt::<String>(ps, "flavor_text") {
                    Some(x) => x,
                    None => {
                        return None;
                    },
                };
                let illustration_id = match read_opt::<UuidText>(ps, "illustration_id") {
                    Some(x) => x,
                    None => {
                        return None;
                    },
                };
                let image_uris = match read_opt::<ImageUris>(ps, "image_uris") {
                    Some(x) => x,
                    None => {
                        return None;
                    },
                };
                let kind = match read_field::<ResourceKind>(ps, "object") {
                    Some(x) => x,
                    None => {
                        return None;
                    },
                };
                let layout = match read_opt::<Layout>(ps, "layout") {
                    Some(x) => x,
                    None => {
                        return None;
                    },
                };
                let loyalty = match read_opt::<String>(ps, "loyalty") {
                    Some(x) => x,
                    None => {
                        return None;
                    },
                };
                let mana_cost = match read_field::<String>(ps, "mana_cost") {
                    Some(x) => x,
                    None => {
                        return None;
                    },
                };
                let name = match read_field::<String>(ps, "name") {
                    Some(x) => x,
                    None => {
                        return None;
                    },
                };
                let oracle_id = match read_opt::<UuidText>(ps, "oracle_id") {
                    Some(x) => x,
                    None => {
                        return None;
                    },
                };
                let oracle_text = match read_opt::<String>(ps, "oracle_text") {
                    Some(x) => x,
                    None => {
                        return None;
                    },
                };
                let power = match read_opt::<String>(ps, "power") {
                    Some(x) => x,
                    None => {
                        return None;
                    },
                };
                let printed_name = match read_opt::<String>(ps, "printed_name") {
                    Some(x) => x,
                    None => {
                        return None;
                    },
                };
                let printed_text = match read_opt::<String>(ps, "printed_text") {
                    Some(x) => x,
                    None => {
                        return None;
                    },
                };
                let printed_type_line = match read_opt::<String>(ps, "printed_type_line") {
                    Some(x) => x,
                    None => {
                        return None;
                    },
                };
                let toughness = match read_opt::<String>(ps, "toughness") {
                    Some(x) => x,
                    None => {
                        return None;
                    },
                };
                let type_line = match read_opt::<String>(ps, "type_line") {
                    Some(x) => x,
                    None => {
                        return None;
                    },
                };
                let watermark = match read_opt::<String>(ps, "watermark") {
                    Some(x) => x,
                    None => {
                        return None;
                    },
                };
                Some(CardFace { artist, artist_id, cmc, color_indicator, colors, flavor_name, flavor_text, illustration_id, image_uris, kind, layout, loyalty, mana_cost, name, oracle_id, oracle_text, power, printed_name, printed_text, printed_type_line, toughness, type_line, watermark })
            },
            _ => None,
        }
    }

    fn to_tree(&self) -> (t: JsonValue) {
        let mut ps: Vec<(String, JsonValue)> = Vec::new();
        ps.push(("artist".to_owned(), opt_to_tree(&self.artist)));
        ps.push(("artist_id".to_owned(), opt_to_tree(&self.artist_id)));
        ps.push(("cmc".to_owned(), opt_to_tree(&self.cmc)));
        ps.push(("color_indicator".to_owned(), opt_to_tree(&self.color_indicator)));
        ps.push(("colors".to_owned(), opt_to_tree(&self.colors)));
        ps.push(("flavor_name".to_owned(), opt_to_tree(&self.flavor_name)));
        ps.push(("flavor_text".to_owned(), opt_to_tree(&self.flavor_text)));
        ps.push(("illustration_id".to_owned(), opt_to_tree(&self.illustration_id)));
        ps.push(("image_uris".to_owned(), opt_to_tree(&self.image_uris)));
        ps.push(("object".to_owned(), self.kind.to_tree()));
        ps.push(("layout".to_owned(), opt_to_tree(&self.layout)));
        ps.push(("loyalty".to_owned(), opt_to_tree(&self.loyalty)));
        ps.push(("mana_cost".to_owned(), self.mana_cost.to_tree()));
        ps.push(("name".to_owned(), self.name.to_tree()));
        ps.push(("oracle_id".to_owned(), opt_to_tree(&self.oracle_id)));
        ps.push(("oracle_text".to_owned(), opt_to_tree(&self.oracle_text)));
        ps.push(("power".to_owned(), opt_to_tree(&self.power)));
        ps.push(("printed_name".to_owned(), opt_to_tree(&self.printed_name)));
        ps.push(("printed_text".to_owned(), opt_to_tree(&self.printed_text)));
        ps.push(("printed_type_line".to_owned(), opt_to_tree(&self.printed_type_line)));
        ps.push(("toughness".to_owned(), opt_to_tree(&self.toughness)));
        ps.push(("type_line".to_owned(), opt_to_tree(&self.type_line)));
        ps.push(("watermark".to_owned(), opt_to_tree(&self.watermark)));
        let r = JsonValue::Obj(ps);
        proof {
            assert(jpairs_of(ps@) =~= card_face_pairs(*self));
        }
        r
    }
}

/// Law: the canonical tree of a valid CardFace carries exactly
/// that value, so decoding what it encodes to yields its data back.
pub proof fn lemma_card_face_round_trip(m: CardFace)
    ensures
        m.inv() ==> m.matches_tree(m.tree_spec()),
{
    if m.inv() {
        reveal_strlit("artist");
        reveal_strlit("artist_id");
        reveal_strlit("cmc");
        reveal_strlit("color_indicator");
        reveal_strlit("colors");
        reveal_strlit("flavor_name");
        reveal_strlit("flavor_text");
        reveal_strlit("illustration_id");
        reveal_strlit("image_uris");
        reveal_strlit("object");
        reveal_strlit("layout");
        reveal_strlit("loyalty");
        reveal_strlit("mana_cost");
        reveal_strlit("name");
        reveal_strlit("oracle_id");
        reveal_strlit("oracle_text");
        reveal_strlit("power");
        reveal_strlit("printed_name");
        reveal_strlit("printed_text");
        reveal_strlit("printed_type_line");
        reveal_strlit("toughness");
        reveal_strlit("type_line");
        reveal_strlit("watermark");
        assert("artist"@.len() == 6 && "artist"@[0] == 'a');
        assert("artist_id"@.len() == 9 && "artist_id"@[0] == 'a');
        assert("cmc"@.len() == 3 && "cmc"@[0] == 'c');
        assert("color_indicator"@.len() == 15 && "color_indicator"@[0] == 'c');
        assert("colors"@.len() == 6 && "colors"@[0] == 'c');
        assert("flavor_name"@.len() == 11 && "flavor_name"@[0] == 'f' && "flavor_name"@[7] == 'n');
        assert("flavor_text"@.len() == 11 && "flavor_text"@[0] == 'f' && "flavor_text"@[7] == 't');
        assert("illustration_id"@.len() == 15 && "illustration_id"@[0] == 'i');
        assert("image_uris"@.len() == 10 && "image_uris"@[0] == 'i');
        assert("object"@.len() == 6 && "object"@[0] == 'o');
        assert("layout"@.len() == 6 && "layout"@[0] == 'l');
        assert("loyalty"@.len() == 7 && "loyalty"@[0] == 'l');
        assert("mana_cost"@.len() == 9 && "mana_cost"@[0] == 'm');
        assert("name"@.len() == 4 && "name"@[0] == 'n');
        assert("oracle_id"@.len() == 9 && "oracle_id"@[0] == 'o');
        assert("oracle_text"@.len() == 11 && "oracle_text"@[0] == 'o');
        assert("power"@.len() == 5 && "power"@[0] == 'p');
        assert("printed_name"@.len() == 12 && "printed_name"@[0] == 'p' && "printed_name"@[8] == 'n');
        assert("printed_text"@.len() == 12 && "printed_text"@[0] == 'p' && "printed_text"@[8] == 't');
        assert("printed_type_line"@.len() == 17 && "printed_type_line"@[0] == 'p');
        assert("toughness"@.len() == 9 && "toughness"@[0] == 't' && "toughness"@[1] == 'o');
        assert("type_line"@.len() == 9 && "type_line"@[0] == 't' && "type_line"@[1] == 'y');
        assert("watermark"@.len() == 9 && "watermark"@[0] == 'w');
        let ps = card_face_pairs(m);
        assert(ps[0].0 == "artist"@);
        assert(ps[1].0 == "artist_id"@);
        assert(ps[2].0 == "cmc"@);
        assert(ps[3].0 == "color_indicator"@);
        assert(ps[4].0 == "colors"@);
        assert(ps[5].0 == "flavor_name"@);
        assert(ps[6].0 == "flavor_text"@);
        assert(ps[7].0 == "illustration_id"@);
        assert(ps[8].0 == "image_uris"@);
        assert(ps[9].0 == "object"@);
        assert(ps[10].0 == "layout"@);
        assert(ps[11].0 == "loyalty"@);
        assert(ps[12].0 == "mana_cost"@);
        assert(ps[13].0 == "name"@);
        assert(ps[14].0 == "oracle_id"@);
        assert(ps[15].0 == "oracle_text"@);
        assert(ps[16].0 == "power"@);
        assert(ps[17].0 == "printed_name"@);
        assert(ps[18].0 == "printed_text"@);
        assert(ps[19].0 == "printed_type_line"@);
        assert(ps[20].0 == "toughness"@);
        assert(ps[21].0 == "type_line"@);
        assert(ps[22].0 == "watermark"@);
        lemma_jobj_get_at(ps, "artist"@, 0);
        lemma_jobj_get_at(ps, "artist_id"@, 1);
        lemma_jobj_get_at(ps, "cmc"@, 2);
        lemma_jobj_get_at(ps, "color_indicator"@, 3);
        lemma_jobj_get_at(ps, "colors"@, 4);
        lemma_jobj_get_at(ps, "flavor_name"@, 5);
        lemma_jobj_get_at(ps, "flavor_text"@, 6);
        lemma_jobj_get_at(ps, "illustration_id"@, 7);
        lemma_jobj_get_at(ps, "image_uris"@, 8);
        lemma_jobj_get_at(ps, "object"@, 9);
        lemma_jobj_get_at(ps, "layout"@, 10);
        lemma_jobj_get_at(ps, "loyalty"@, 11);
        lemma_jobj_get_at(ps, "mana_cost"@, 12);
        lemma_jobj_get_at(ps, "name"@, 13);
        lemma_jobj_get_at(ps, "oracle_id"@, 14);
        lemma_jobj_get_at(ps, "oracle_text"@, 15);
        lemma_jobj_get_at(ps, "power"@, 16);
        lemma_jobj_get_at(ps, "printed_name"@, 17);
        lemma_jobj_get_at(ps, "printed_text"@, 18);
        lemma_jobj_get_at(ps, "printed_type_line"@, 19);
        lemma_jobj_get_at(ps, "toughness"@, 20);
        lemma_jobj_get_at(ps, "type_line"@, 21);
        lemma_jobj_get_at(ps, "watermark"@, 22);
        match m.color_indicator {
            Some(x) => {
                let tv = x@.map_values(|x: ColorSymbol| x.tree_spec());
                assert forall|i2: int| 0 <= i2 < tv.len() implies (#[trigger] x@[i2]).matches_tree(tv[i2]) by {
                    assert(x@[i2].inv());
                    assert(tv[i2] == x@[i2].tree_spec());
                }
                assert(x.matches_tree(x.tree_spec()));
            },
            None => {},
        }
        match m.colors {
            Some(x) => {
                let tv = x@.map_values(|x: ColorSymbol| x.tree_spec());
                assert forall|i2: int| 0 <= i2 < tv.len() implies (#[trigger] x@[i2]).matches_tree(tv[i2]) by {
                    assert(x@[i2].inv());
                    assert(tv[i2] == x@[i2].tree_spec());
                }
                assert(x.matches_tree(x.tree_spec()));
            },
            None => {},
        }
        match m.image_uris {
            Some(x) => {
                lemma_image_uris_model_round_trip(x);
                assert(x.matches_tree(x.tree_spec()));
            },
            None => {},
        }
    }
}

impl CardFace {
    /// Two values carry the same data: every member reads back equal.
    pub open spec fn same_data(&self, other: &CardFace) -> bool {
        &&& match (self.artist, other.artist) { (Some(va), Some(vb)) => va@ == vb@, (None, None) => true, _ => false }
        &&& match (self.artist_id, other.artist_id) { (Some(va), Some(vb)) => va.0@ == vb.0@, (None, None) => true, _ => false }
        &&& match (self.cmc, other.cmc) { (Some(va), Some(vb)) => va.0@ == vb.0@, (None, None) => true, _ => false }
        &&& match (self.color_indicator, other.color_indicator) { (Some(va), Some(vb)) => va@ == vb@, (None, None) => true, _ => false }
        &&& match (self.colors, other.colors) { (Some(va), Some(vb)) => va@ == vb@, (None, None) => true, _ => false }
        &&& match (self.flavor_name, other.flavor_name) { (Some(va), Some(vb)) => va@ == vb@, (None, None) => true, _ => false }
        &&& match (self.flavor_text, other.flavor_text) { (Some(va), Some(vb)) => va@ == vb@, (None, None) => true, _ => false }
        &&& match (self.illustration_id, other.illustration_id) { (Some(va), Some(vb)) => va.0@ == vb.0@, (None, None) => true, _ => false }
        &&& match (self.image_uris, other.image_uris) { (Some(va), Some(vb)) => va.same_data(&vb), (None, None) => true, _ => false }
        &&& self.kind == other.kind
        &&& match (self.layout, other.layout) { (Some(va), Some(vb)) => va == vb, (None, None) => true, _ => false }
        &&& match (self.loyalty, other.loyalty) { (Some(va), Some(vb)) => va@ == vb@, (None, None) => true, _ => false }
        &&& self.mana_cost@ == other.mana_cost@
        &&& self.name@ == other.name@
        &&& match (self.oracle_id, other.oracle_id) { (Some(va), Some(vb)) => va.0@ == vb.0@, (None, None) => true, _ => false }
        &&& match (self.oracle_text, other.oracle_text) { (Some(va), Some(vb)) => va@ == vb@, (None, None) => true, _ => false }
        &&& match (self.power, other.power) { (Some(va), Some(vb)) => va@ == vb@, (None, None) => true, _ => false }
        &&& match (self.printed_name, other.printed_name) { (Some(va), Some(vb)) => va@ == vb@, (None, None) => true, _ => false }
        &&& match (self.printed_text, other.printed_text) { (Some(va), Some(vb)) => va@ == vb@, (None, None) => true, _ => false }
        &&& match (self.printed_type_line, other.printed_type_line) { (Some(va), Some(vb)) => va@ == vb@, (None, None) => true, _ => false }
        &&& match (self.toughness, other.toughness) { (Some(va), Some(vb)) => va@ == vb@, (None, None) => true, _ => false }
        &&& match (self.type_line, other.type_line) { (Some(va), Some(vb)) => va@ == vb@, (None, None) => true, _ => false }
        &&& match (self.watermark, other.watermark) { (Some(va), Some(vb)) => va@ == vb@, (None, None) => true, _ => false }
    }
}

/// Law: a tree determines the data it carries; two values matching one
/// tree carry the same data.
pub proof fn lemma_card_face_decode_functional(a: CardFace, b: CardFace, t: JVal)
    ensures
        a.matches_tree(t) && b.matches_tree(t) ==> a.same_data(&b),
{
    if a.matches_tree(t) && b.matches_tree(t) {
        let ps = t->Obj_0;
        match (a.color_indicator, b.color_indicator) {
            (Some(va), Some(vb)) => {
                match jobj_get(ps, "color_indicator"@) {
                    Some(JVal::Arr(av)) => {
                        assert forall|i2: int| 0 <= i2 < av.len() implies va@[i2] == vb@[i2] by {
                            assert(va@[i2].matches_tree(av[i2]));
                            assert(vb@[i2].matches_tree(av[i2]));
                            lemma_color_symbol_str_injective(va@[i2], vb@[i2]);
                        }
                        assert(va@ =~= vb@);
                    },
                    _ => {},
                }
            },
            _ => {},
        }
        match (a.colors, b.colors) {
            (Some(va), Some(vb)) => {
                match jobj_get(ps, "colors"@) {
                    Some(JVal::Arr(av)) => {
                        assert forall|i2: int| 0 <= i2 < av.len() implies va@[i2] == vb@[i2] by {
                            assert(va@[i2].matches_tree(av[i2]));
                            assert(vb@[i2].matches_tree(av[i2]));
                            lemma_color_symbol_str_injective(va@[i2], vb@[i2]);
                        }
                        assert(va@ =~= vb@);
                    },
                    _ => {},
                }
            },
            _ => {},
        }
        match (a.image_uris, b.image_uris) {
            (Some(va), Some(vb)) => {
                match jobj_get(ps, "image_uris"@) {
                    Some(v) => lemma_image_uris_model_decode_functional(va, vb, v),
                    None => {},
                }
            },
            _ => {},
        }
        lemma_kind_str_injective(a.kind, b.kind);
        match (a.layout, b.layout) {
            (Some(va), Some(vb)) => {
                lemma_layout_str_injective(va, vb);
            },
            _ => {},
        }
    }
}

/// Basic struct representing a card.
#[derive(Debug)]
pub struct Card {
    pub all_parts: Option<Vec<RelatedCard>>,
    pub arena_id: Option<i32>,
    pub artist: Option<String>,
    pub artist_ids: Vec<UuidText>,
    pub booster: bool,
    pub border_color: String,
    pub card_back_id: Option<UuidText>,
    pub card_faces: Option<Vec<CardFace>>,
    pub cardmarket_id: Option<i32>,
    pub cmc: NumberText,
    pub collector_number: String,
    pub color_identity: Vec<ColorSymbol>,
    pub color_indicator: Option<Vec<ColorSymbol>>,
    pub colors: Option<Vec<ColorSymbol>>,
    pub content_warning: Option<bool>,
    pub digital: bool,
    pub edhrec_rank: Option<i64>,
    pub finishes: Vec<CardFinish>,
    pub flavor_name: Option<String>,
    pub flavor_text: Option<String>,
    pub foil: bool,
    pub frame: String,
    pub full_art: bool,
    pub games: Vec<GameKind>,
    pub hand_modifier: Option<String>,
    pub highres_image: bool,
    pub id: UuidText,
    pub illustration_id: Option<UuidText>,
    pub image_status: ImageStatus,
    pub image_uris: Option<ImageUris>,
    pub keywords: Vec<String>,
    pub kind: ResourceKind,
    pub lang: String,
    pub layout: Layout,
    pub legalities: Legalities,
    pub life_modifier: Option<String>,
    pub loyalty: Option<String>,
    pub mana_cost: Option<String>,
    pub mtgo_id: Option<i32>,
    pub mtgo_foil_id: Option<i32>,
    pub multiverse_ids: Option<Vec<i32>>,
    pub name: String,
    pub nonfoil: bool,
    pub oracle_id: UuidText,
    pub oracle_text: Option<String>,
    pub oversized: bool,
    pub penny_rank: Option<i64>,
    pub power: Option<String>,
    pub prices: Prices,
    pub printed_name: Option<String>,
    pub printed_text: Option<String>,
    pub printed_type_line: Option<String>,
    pub prints_search_uri: UrlText,
    pub produced_mana: Option<Vec<ColorSymbol>>,
    pub promo: bool,
    pub promo_types: Option<Vec<String>>,
    pub purchase_uris: Option<PurchaseUris>,
    pub rarity: Rarity,
    pub related_uris: Option<RelatedUris>,
    pub released_at: DateText,
    pub reprint: bool,
    pub reserved: bool,
    pub rulings_uri: UrlText,
    pub scryfall_set_uri: UrlText,
    pub scryfall_uri: UrlText,
    pub security_stamp: Option<String>,
    pub set: String,
    pub set_id: String,
    pub set_name: String,
    pub set_search_uri: UrlText,
    pub set_type: String,
    pub set_uri: UrlText,
    pub story_spotlight: bool,
    pub tcgplayer_id: Option<i32>,
    pub tcgplayer_etched_id: Option<i32>,
    pub textless: bool,
    pub toughness: Option<String>,
    pub type_line: String,
    pub uri: UrlText,
    pub variation: bool,
    pub variation_of: Option<UuidText>,
}

/// The members of the tree a Card encodes to, in wire order.
pub open spec fn card_pairs(m: Card) -> Seq<(Seq<char>, JVal)> {
    seq![
        ("all_parts"@, opt_tree(m.all_parts)),
        ("arena_id"@, opt_tree(m.arena_id)),
        ("artist"@, opt_tree(m.artist)),
        ("artist_ids"@, m.artist_ids.tree_spec()),
        ("booster"@, m.booster.tree_spec()),
        ("border_color"@, m.border_color.tree_spec()),
        ("card_back_id"@, opt_tree(m.card_back_id)),
        ("card_faces"@, opt_tree(m.card_faces)),
        ("cardmarket_id"@, opt_tree(m.cardmarket_id)),
        ("cmc"@, m.cmc.tree_spec()),
        ("collector_number"@, m.collector_number.tree_spec()),
        ("color_identity"@, m.color_identity.tree_spec()),
        ("color_indicator"@, opt_tree(m.color_indicator)),
        ("colors"@, opt_tree(m.colors)),
        ("content_warning"@, opt_tree(m.content_warning)),
        ("digital"@, m.digital.tree_spec()),
        ("edhrec_rank"@, opt_tree(m.edhrec_rank)),
        ("finishes"@, m.finishes.tree_spec()),
        ("flavor_name"@, opt_tree(m.flavor_name)),
        ("flavor_text"@, opt_tree(m.flavor_text)),
        ("foil"@, m.foil.tree_spec()),
        ("frame"@, m.frame.tree_spec()),
        ("full_art"@, m.full_art.tree_spec()),
        ("games"@, m.games.tree_spec()),
        ("hand_modifier"@, opt_tree(m.hand_modifier)),
        ("highres_image"@, m.highres_image.tree_spec()),
        ("id"@, m.id.tree_spec()),
        ("illustration_id"@, opt_tree(m.illustration_id)),
        ("image_status"@, m.image_status.tree_spec()),
        ("image_uris"@, opt_tree(m.image_uris)),
        ("keywords"@, m.keywords.tree_spec()),
        ("object"@, m.kind.tree_spec()),
        ("lang"@, m.lang.tree_spec()),
        ("layout"@, m.layout.tree_spec()),
        ("legalities"@, m.legalities.tree_spec()),
        ("life_modifier"@, opt_tree(m.life_modifier)),
        ("loyalty"@, opt_tree(m.loyalty)),
        ("mana_cost"@, opt_tree(m.mana_cost)),
        ("mtgo_id"@, opt_tree(m.mtgo_id)),
        ("mtgo_foil_id"@, opt_tree(m.mtgo_foil_id)),
        ("multiverse_ids"@, opt_tree(m.multiverse_ids)),
        ("name"@, m.name.tree_spec()),
        ("nonfoil"@, m.nonfoil.tree_spec()),
        ("oracle_id"@, m.oracle_id.tree_spec()),
        ("oracle_text"@, opt_tree(m.oracle_text)),
        ("oversized"@, m.oversized.tree_spec()),
        ("penny_rank"@, opt_tree(m.penny_rank)),
        ("power"@, opt_tree(m.power)),
        ("prices"@, m.prices.tree_spec()),
        ("printed_name"@, opt_tree(m.printed_name)),
        ("printed_text"@, opt_tree(m.printed_text)),
        ("printed_type_line"@, opt_tree(m.printed_type_line)),
        ("prints_search_uri"@, m.prints_search_uri.tree_spec()),
        ("produced_mana"@, opt_tree(m.produced_mana)),
        ("promo"@, m.promo.tree_spec()),
        ("promo_types"@, opt_tree(m.promo_types)),
        ("purchase_uris"@, opt_tree(m.purchase_uris)),
        ("rarity"@, m.rarity.tree_spec()),
        ("related_uris"@, opt_tree(m.related_uris)),
        ("released_at"@, m.released_at.tree_spec()),
        ("reprint"@, m.reprint.tree_spec()),
        ("reserved"@, m.reserved.tree_spec()),
        ("rulings_uri"@, m.rulings_uri.tree_spec()),
        ("scryfall_set_uri"@, m.scryfall_set_uri.tree_spec()),
        ("scryfall_uri"@, m.scryfall_uri.tree_spec()),
        ("security_stamp"@, opt_tree(m.security_stamp)),
        ("set"@, m.set.tree_spec()),
        ("set_id"@, m.set_id.tree_spec()),
        ("set_name"@, m.set_name.tree_spec()),
        ("set_search_uri"@, m.set_search_uri.tree_spec()),
        ("set_type"@, m.set_type.tree_spec()),
        ("set_uri"@, m.set_uri.tree_spec()),
        ("story_spotlight"@, m.story_spotlight.tree_spec()),
        ("tcgplayer_id"@, opt_tree(m.tcgplayer_id)),
        ("tcgplayer_etched_id"@, opt_tree(m.tcgplayer_etched_id)),
        ("textless"@, m.textless.tree_spec()),
        ("toughness"@, opt_tree(m.toughness)),
        ("type_line"@, m.type_line.tree_spec()),
        ("uri"@, m.uri.tree_spec()),
        ("variation"@, m.variation.tree_spec()),
        ("variation_of"@, opt_tree(m.variation_of)),
    ]
}

impl ApiModel for Card {
    open spec fn inv(&self) -> bool {
        &&& opt_inv(self.all_parts)
        &&& self.artist_ids.inv()
        &&& opt_inv(self.card_back_id)
        &&& opt_inv(self.card_faces)
        &&& self.id.inv()
        &&& opt_inv(self.illustration_id)
        &&& opt_inv(self.image_uris)
        &&& self.legalities.inv()
        &&& self.oracle_id.inv()
        &&& self.prices.inv()
        &&& self.prints_search_uri.inv()
        &&& opt_inv(self.purchase_uris)
        &&& opt_inv(self.related_uris)
        &&& self.released_at.inv()
        &&& self.rulings_uri.inv()
        &&& self.scryfall_set_uri.inv()
        &&& self.scryfall_uri.inv()
        &&& self.set_search_uri.inv()
        &&& self.set_uri.inv()
        &&& self.uri.inv()
        &&& opt_inv(self.variation_of)
    }

    open spec fn matches_tree(&self, t: JVal) -> bool {
        &&& t matches JVal::Obj(ps)
        &&& opt_field_like(ps, "all_parts"@, self.all_parts)
        &&& opt_field_like(ps, "arena_id"@, self.arena_id)
        &&& opt_field_like(ps, "artist"@, self.artist)
        &&& field_like(ps, "artist_ids"@, self.artist_ids)
        &&& field_like(ps, "booster"@, self.booster)
        &&& field_like(ps, "border_color"@, self.border_color)
        &&& opt_field_like(ps, "card_back_id"@, self.card_back_id)
        &&& opt_field_like(ps, "card_faces"@, self.card_faces)
        &&& opt_field_like(ps, "cardmarket_id"@, self.cardmarket_id)
        &&& field_like(ps, "cmc"@, self.cmc)
        &&& field_like(ps, "collector_number"@, self.collector_number)
        &&& field_like(ps, "color_identity"@, self.color_identity)
        &&& opt_field_like(ps, "color_indicator"@, self.color_indicator)
        &&& opt_field_like(ps, "colors"@, self.colors)
        &&& opt_field_like(ps, "content_warning"@, self.content_warning)
        &&& field_like(ps, "digital"@, self.digital)
        &&& opt_field_like(ps, "edhrec_rank"@, self.edhrec_rank)
        &&& field_like(ps, "finishes"@, self.finishes)
        &&& opt_field_like(ps, "flavor_name"@, self.flavor_name)
        &&& opt_field_like(ps, "flavor_text"@, self.flavor_text)
        &&& field_like(ps, "foil"@, self.foil)
        &&& field_like(ps, "frame"@, self.frame)
        &&& field_like(ps, "full_art"@, self.full_art)
        &&& field_like(ps, "games"@, self.games)
        &&& opt_field_like(ps, "hand_modifier"@, self.hand_modifier)
        &&& field_like(ps, "highres_image"@, self.highres_image)
        &&& field_like(ps, "id"@, self.id)
        &&& opt_field_like(ps, "illustration_id"@, self.illustration_id)
        &&& field_like(ps, "image_status"@, self.image_status)
        &&& opt_field_like(ps, "image_uris"@, self.image_uris)
        &&& field_like(ps, "keywords"@, self.keywords)
        &&& field_like(ps, "object"@, self.kind)
        &&& field_like(ps, "lang"@, self.lang)
        &&& field_like(ps, "layout"@, self.layout)
        &&& field_like(ps, "legalities"@, self.legalities)
        &&& opt_field_like(ps, "life_modifier"@, self.life_modifier)
        &&& opt_field_like(ps, "loyalty"@, self.loyalty)
        &&& opt_field_like(ps, "mana_cost"@, self.mana_cost)
        &&& opt_field_like(ps, "mtgo_id"@, self.mtgo_id)
        &&& opt_field_like(ps, "mtgo_foil_id"@, self.mtgo_foil_id)
        &&& opt_field_like(ps, "multiverse_ids"@, self.multiverse_ids)
        &&& field_like(ps, "name"@, self.name)
        &&& field_like(ps, "nonfoil"@, self.nonfoil)
        &&& field_like(ps, "oracle_id"@, self.oracle_id)
        &&& opt_field_like(ps, "oracle_text"@, self.oracle_text)
        &&& field_like(ps, "oversized"@, self.oversized)
        &&& opt_field_like(ps, "penny_rank"@, self.penny_rank)
        &&& opt_field_like(ps, "power"@, self.power)
        &&& field_like(ps, "prices"@, self.prices)
        &&& opt_field_like(ps, "printed_name"@, self.printed_name)
        &&& opt_field_like(ps, "printed_text"@, self.printed_text)
        &&& opt_field_like(ps, "printed_type_line"@, self.printed_type_line)
        &&& field_like(ps, "prints_search_uri"@, self.prints_search_uri)
        &&& opt_field_like(ps, "produced_mana"@, self.produced_mana)
        &&& field_like(ps, "promo"@, self.promo)
        &&& opt_field_like(ps, "promo_types"@, self.promo_types)
        &&& opt_field_like(ps, "purchase_uris"@, self.purchase_uris)
        &&& field_like(ps, "rarity"@, self.rarity)
        &&& opt_field_like(ps, "related_uris"@, self.related_uris)
        &&& field_like(ps, "released_at"@, self.released_at)
        &&& field_like(ps, "reprint"@, self.reprint)
        &&& field_like(ps, "reserved"@, self.reserved)
        &&& field_like(ps, "rulings_uri"@, self.rulings_uri)
        &&& field_like(ps, "scryfall_set_uri"@, self.scryfall_set_uri)
        &&& field_like(ps, "scryfall_uri"@, self.scryfall_uri)
        &&& opt_field_like(ps, "security_stamp"@, self.security_stamp)
        &&& field_like(ps, "set"@, self.set)
        &&& field_like(ps, "set_id"@, self.set_id)
        &&& field_like(ps, "set_name"@, self.set_name)
        &&& field_like(ps, "set_search_uri"@, self.set_search_uri)
        &&& field_like(ps, "set_type"@, self.set_type)
        &&& field_like(ps, "set_uri"@, self.set_uri)
        &&& field_like(ps, "story_spotlight"@, self.story_spotlight)
        &&& opt_field_like(ps, "tcgplayer_id"@, self.tcgplayer_id)
        &&& opt_field_like(ps, "tcgplayer_etched_id"@, self.tcgplayer_etched_id)
        &&& field_like(ps, "textless"@, self.textless)
        &&& opt_field_like(ps, "toughness"@, self.toughness)
        &&& field_like(ps, "type_line"@, self.type_line)
        &&& field_like(ps, "uri"@, self.uri)
        &&& field_like(ps, "variation"@, self.variation)
        &&& opt_field_like(ps, "variation_of"@, self.variation_of)
    }

    open spec fn tree_spec(&self) -> JVal {
        JVal::Obj(card_pairs(*self))
    }

    #[verifier::rlimit(100)]
    fn from_tree(t: &JsonValue) -> (r: Option<Self>) {
        match t {
            JsonValue::Obj(ps) => {
                proof {
                    assert(t@ == JVal::Obj(jpairs_of(ps@)));
                }
                let all_parts = match read_opt::<Vec<RelatedCard>>(ps, "all_parts") {
                    Some(x) => x,
                    None => {
                        return None;
                    },
                };
                let arena_id = match read_opt::<i32>(ps, "arena_id") {
                    Some(x) => x,
                    None => {
                        return None;
                    },
                };
                let artist = match read_opt::<String>(ps, "artist") {
                    Some(x) => x,
                    None => {
                        return None;
                    },
                };
                let artist_ids = match read_field::<Vec<UuidText>>(ps, "artist_ids") {
                    Some(x) => x,
                    None => {
                        return None;
                    },
                };
                let booster = match read_field::<bool>(ps, "booster") {
                    Some(x) => x,
                    None => {
                        return None;
                    },
                };
                let border_color = match read_field::<String>(ps, "border_color") {
                    Some(x) => x,
                    None => {
                        return None;
                    },
                };
                let card_back_id = match read_opt::<UuidText>(ps, "card_back_id") {
                    Some(x) => x,
                    None => {
                        return None;
                    },
                };
                let card_faces = match read_opt::<Vec<CardFace>>(ps, "card_faces") {
                    Some(x) => x,
                    None => {
                        return None;
                    },
                };
                let cardmarket_id = match read_opt::<i32>(ps, "cardmarket_id") {
                    Some(x) => x,
                    None => {
                        return None;
                    },
                };
                let cmc = match read_field::<NumberText>(ps, "cmc") {
                    Some(x) => x,
                    None => {
                        return None;
                    },
                };
                let collector_number = match read_field::<String>(ps, "collector_number") {
                    Some(x) => x,
                    None => {
                        return None;
                    },
                };
                let color_identity = match read_field::<Vec<ColorSymbol>>(ps, "color_identity") {
                    Some(x) => x,
                    None => {
                        return None;
                    },
                };
                let color_indicator = match read_opt::<Vec<ColorSymbol>>(ps, "color_indicator") {
                    Some(x) => x,
                    None => {
                        return None;
                    },
                };
                let colors = match read_opt::<Vec<ColorSymbol>>(ps, "colors") {
                    Some(x) => x,
                    None => {
                        return None;
                    },
                };
                let content_warning = match read_opt::<bool>(ps, "content_warning") {
                    Some(x) => x,
                    None => {
                        return None;
                    },
                };
                let digital = match read_field::<bool>(ps, "digital") {
                    Some(x) => x,
                    None => {
                        return None;
                    },
                };
                let edhrec_rank = match read_opt::<i64>(ps, "edhrec_rank") {
                    Some(x) => x,
                    None => {
                        return None;
                    },
                };
                let finishes = match read_field::<Vec<CardFinish>>(ps, "finishes") {
                    Some(x) => x,
                    None => {
                        return None;
                    },
                };
                let flavor_name = match read_opt::<String>(ps, "flavor_name") {
                    Some(x) => x,
                    None => {
                        return None;
                    },
                };
                let flavor_text = match read_opt::<String>(ps, "flavor_text") {
                    Some(x) => x,
                    None => {
                        return None;
                    },
                };
                let foil = match read_field::<bool>(ps, "foil") {
                    Some(x) => x,
                    None => {
                        return None;
                    },
                };
                let frame = match read_field::<String>(ps, "frame") {
                    Some(x) => x,
                    None => {
                        return None;
                    },
                };
                let full_art = match read_field::<bool>(ps, "full_art") {
                    Some(x) => x,
                    None => {
                        return None;
                    },
                };
                let games = match read_field::<Vec<GameKind>>(ps, "games") {
                    Some(x) => x,
                    None => {
                        return None;
                    },
                };
                let hand_modifier = match read_opt::<String>(ps, "hand_modifier") {
                    Some(x) => x,
                    None => {
                        return None;
                    },
                };
                let highres_image = match read_field::<bool>(ps, "highres_image") {
                    Some(x) => x,
                    None => {
                        return None;
                    },
                };
                let id = match read_field::<UuidText>(ps, "id") {
                    Some(x) => x,
                    None => {
                        return None;
                    },
                };
                let illustration_id = match read_opt::<UuidText>(ps, "illustration_id") {
                    Some(x) => x,
                    None => {
                        return None;
                    },
                };
                let image_status = match read_field::<ImageStatus>(ps, "image_status") {
                    Some(x) => x,
                    None => {
                        return None;
                    },
                };
                let image_uris = match read_opt::<ImageUris>(ps, "image_uris") {
                    Some(x) => x,
                    None => {
                        return None;
                    },
                };
                let keywords = match read_field::<Vec<String>>(ps, "keywords") {
                    Some(x) => x,
                    None => {
                        return None;
                    },
                };
                let kind = match read_field::<ResourceKind>(ps, "object") {
                    Some(x) => x,
                    None => {
                        return None;
                    },
                };
                let lang = match read_field::<String>(ps, "lang") {
                    Some(x) => x,
                    None => {
                        return None;
                    },
                };
                let layout = match read_field::<Layout>(ps, "layout") {
                    Some(x) => x,
                    None => {
                        return None;
                    },
                };
                let legalities = match read_field::<Legalities>(ps, "legalities") {
                    Some(x) => x,
                    None => {
                        return None;
                    },
                };
                let life_modifier = match read_opt::<String>(ps, "life_modifier") {
                    Some(x) => x,
                    None => {
                        return None;
                    },
                };
                let loyalty = match read_opt::<String>(ps, "loyalty") {
                    Some(x) => x,
                    None => {
                        return None;
                    },
                };
                let mana_cost = match read_opt::<String>(ps, "mana_cost") {
                    Some(x) => x,
                    None => {
                        return None;
                    },
                };
                let mtgo_id = match read_opt::<i32>(ps, "mtgo_id") {
                    Some(x) => x,
                    None => {
                        return None;
                    },
                };
                let mtgo_foil_id = match read_opt::<i32>(ps, "mtgo_foil_id") {
                    Some(x) => x,
                    None => {
                        return None;
                    },
                };
                let multiverse_ids = match read_opt::<Vec<i32>>(ps, "multiverse_ids") {
                    Some(x) => x,
                    None => {
                        return None;
                    },
                };
                let name = match read_field::<String>(ps, "name") {
                    Some(x) => x,
                    None => {
                        return None;
                    },
                };
                let nonfoil = match read_field::<bool>(ps, "nonfoil") {
                    Some(x) => x,
                    None => {
                        return None;
                    },
                };
                let oracle_id = match read_field::<UuidText>(ps, "oracle_id") {
                    Some(x) => x,
                    None => {
                        return None;
                    },
                };
                let oracle_text = match read_opt::<String>(ps, "oracle_text") {
                    Some(x) => x,
                    None => {
                        return None;
                    },
                };
                let oversized = match read_field::<bool>(ps, "oversized") {
                    Some(x) => x,
                    None => {
                        return None;
                    },
                };
                let penny_rank = match read_opt::<i64>(ps, "penny_rank") {
                    Some(x) => x,
                    None => {
                        return None;
                    },
                };
                let power = match read_opt::<String>(ps, "power") {
                    Some(x) => x,
                    None => {
                        return None;
                    },
                };
                let prices = match read_field::<Prices>(ps, "prices") {
                    Some(x) => x,
                    None => {
                        return None;
                    },
                };
                let printed_name = match read_opt::<String>(ps, "printed_name") {
                    Some(x) => x,
                    None => {
                        return None;
                    },
                };
                let printed_text = match read_opt::<String>(ps, "printed_text") {
                    Some(x) => x,
                    None => {
                        return None;
                    },
                };
                let printed_type_line = match read_opt::<String>(ps, "printed_type_line") {
                    Some(x) => x,
                    None => {
                        return None;
                    },
                };
                let prints_search_uri = match read_field::<UrlText>(ps, "prints_search_uri") {
                    Some(x) => x,
                    None => {
                        return None;
                    },
                };
                let produced_mana = match read_opt::<Vec<ColorSymbol>>(ps, "produced_mana") {
                    Some(x) => x,
                    None => {
                        return None;
                    },
                };
                let promo = match read_field::<bool>(ps, "promo") {
                    Some(x) => x,
                    None => {
                        return None;
                    },
                };
                let promo_types = match read_opt::<Vec<String>>(ps, "promo_types") {
                    Some(x) => x,
                    None => {
                        return None;
                    },
                };
                let purchase_uris = match read_opt::<PurchaseUris>(ps, "purchase_uris") {
                    Some(x) => x,
                    None => {
                        return None;
                    },
                };
                let rarity = match read_field::<Rarity>(ps, "rarity") {
                    Some(x) => x,
                    None => {
                        return None;
                    },
                };
                let related_uris = match read_opt::<RelatedUris>(ps, "related_uris") {
                    Some(x) => x,
                    None => {
                        return None;
                    },
                };
                let released_at = match read_field::<DateText>(ps, "released_at") {
                    Some(x) => x,
                    None => {
                        return None;
                    },
                };
                let reprint = match read_field::<bool>(ps, "reprint") {
                    Some(x) => x,
                    None => {
                        return None;
                    },
                };
                let reserved = match read_field::<bool>(ps, "reserved") {
                    Some(x) => x,
                    None => {
                        return None;
                    },
                };
                let rulings_uri = match read_field::<UrlText>(ps, "rulings_uri") {
                    Some(x) => x,
                    None => {
                        return None;
                    },
                };
                let scryfall_set_uri = match read_field::<UrlText>(ps, "scryfall_set_uri") {
                    Some(x) => x,
                    None => {
                        return None;
                    },
                };
                let scryfall_uri = match read_field::<UrlText>(ps, "scryfall_uri") {
                    Some(x) => x,
                    None => {
                        return None;
                    },
                };
                let security_stamp = match read_opt::<String>(ps, "security_stamp") {
                    Some(x) => x,
                    None => {
                        return None;
                    },
                };
                let set = match read_field::<String>(ps, "set") {
                    Some(x) => x,
                    None => {
                        return None;
                    },
                };
                let set_id = match read_field::<String>(ps, "set_id") {
                    Some(x) => x,
                    None => {
                        return None;
                    },
                };
                let set_name = match read_field::<String>(ps, "set_name") {
                    Some(x) => x,
                    None => {
                        return None;
                    },
                };
                let set_search_uri = match read_field::<UrlText>(ps, "set_search_uri") {
                    Some(x) => x,
                    None => {
                        return None;
                    },
                };
                let set_type = match read_field::<String>(ps, "set_type") {
                    Some(x) => x,
                    None => {
                        return None;
                    },
                };
                let set_uri = match read_field::<UrlText>(ps, "set_uri") {
                    Some(x) => x,
                    None => {
                        return None;
                    },
                };
                let story_spotlight = match read_field::<bool>(ps, "story_spotlight") {
                    Some(x) => x,
                    None => {
                        return None;
                    },
                };
                let tcgplayer_id = match read_opt::<i32>(ps, "tcgplayer_id") {
                    Some(x) => x,
                    None => {
                        return None;
                    },
                };
                let tcgplayer_etched_id = match read_opt::<i32>(ps, "tcgplayer_etched_id") {
                    Some(x) => x,
                    None => {
                        return None;
                    },
                };
                let textless = match read_field::<bool>(ps, "textless") {
                    Some(x) => x,
                    None => {
                        return None;
                    },
                };
                let toughness = match read_opt::<String>(ps, "toughness") {
                    Some(x) => x,
                    None => {
                        return None;
                    },
                };
                let type_line = match read_field::<String>(ps, "type_line") {
                    Some(x) => x,
                    None => {
                        return None;
                    },
                };
                let uri = match read_field::<UrlText>(ps, "uri") {
                    Some(x) => x,
                    None => {
                        return None;
                    },
                };
                let variation = match read_field::<bool>(ps, "variation") {
                    Some(x) => x,
                    None => {
                        return None;
                    },
                };
                let variation_of = match read_opt::<UuidText>(ps, "variation_of") {
                    Some(x) => x,
                    None => {
                        return None;
                    },
                };
                Some(Card { all_parts, arena_id, artist, artist_ids, booster, border_color, card_back_id, card_faces, cardmarket_id, cmc, collector_number, color_identity, color_indicator, colors, content_warning, digital, edhrec_rank, finishes, flavor_name, flavor_text, foil, frame, full_art, games, hand_modifier, highres_image, id, illustration_id, image_status, image_uris, keywords, kind, lang, layout, legalities, life_modifier, loyalty, mana_cost, mtgo_id, mtgo_foil_id, multiverse_ids, name, nonfoil, oracle_id, oracle_text, oversized, penny_rank, power, prices, printed_name, printed_text, printed_type_line, prints_search_uri, produced_mana, promo, promo_types, purchase_uris, rarity, related_uris, released_at, reprint, reserved, rulings_uri, scryfall_set_uri, scryfall_uri, security_stamp, set, set_id, set_name, set_search_uri, set_type, set_uri, story_spotlight, tcgplayer_id, tcgplayer_etched_id, textless, toughness, type_line, uri, variation, variation_of })
            },
            _ => None,
        }
    }

    #[verifier::rlimit(100)]
    fn to_tree(&self) -> (t: JsonValue) {
        let mut ps: Vec<(String, JsonValue)> = Vec::new();
        ps.push(("all_parts".to_owned(), opt_to_tree(&self.all_parts)));
        ps.push(("arena_id".to_owned(), opt_to_tree(&self.arena_id)));
        ps.push(("artist".to_owned(), opt_to_tree(&self.artist)));
        ps.push(("artist_ids".to_owned(), self.artist_ids.to_tree()));
        ps.push(("booster".to_owned(), self.booster.to_tree()));
        ps.push(("border_color".to_owned(), self.border_color.to_tree()));
        ps.push(("card_back_id".to_owned(), opt_to_tree(&self.card_back_id)));
        ps.push(("card_faces".to_owned(), opt_to_tree(&self.card_faces)));
        ps.push(("cardmarket_id".to_owned(), opt_to_tree(&self.cardmarket_id)));
        ps.push(("cmc".to_owned(), self.cmc.to_tree()));
        ps.push(("collector_number".to_owned(), self.collector_number.to_tree()));
        ps.push(("color_identity".to_owned(), self.color_identity.to_tree()));
        ps.push(("color_indicator".to_owned(), opt_to_tree(&self.color_indicator)));
        ps.push(("colors".to_owned(), opt_to_tree(&self.colors)));
        ps.push(("content_warning".to_owned(), opt_to_tree(&self.content_warning)));
        ps.push(("digital".to_owned(), self.digital.to_tree()));
        ps.push(("edhrec_rank".to_owned(), opt_to_tree(&self.edhrec_rank)));
        ps.push(("finishes".to_owned(), self.finishes.to_tree()));
        ps.push(("flavor_name".to_owned(), opt_to_tree(&self.flavor_name)));
        ps.push(("flavor_text".to_owned(), opt_to_tree(&self.flavor_text)));
        ps.push(("foil".to_owned(), self.foil.to_tree()));
        ps.push(("frame".to_owned(), self.frame.to_tree()));
        ps.push(("full_art".to_owned(), self.full_art.to_tree()));
        ps.push(("games".to_owned(), self.games.to_tree()));
        ps.push(("hand_modifier".to_owned(), opt_to_tree(&self.hand_modifier)));
        ps.push(("highres_image".to_owned(), self.highres_image.to_tree()));
        ps.push(("id".to_owned(), self.id.to_tree()));
        ps.push(("illustration_id".to_owned(), opt_to_tree(&self.illustration_id)));
        ps.push(("image_status".to_owned(), self.image_status.to_tree()));
        ps.push(("image_uris".to_owned(), opt_to_tree(&self.image_uris)));
        ps.push(("keywords".to_owned(), self.keywords.to_tree()));
        ps.push(("object".to_owned(), self.kind.to_tree()));
        ps.push(("lang".to_owned(), self.lang.to_tree()));
        ps.push(("layout".to_owned(), self.layout.to_tree()));
        ps.push(("legalities".to_owned(), self.legalities.to_tree()));
        ps.push(("life_modifier".to_owned(), opt_to_tree(&self.life_modifier)));
        ps.push(("loyalty".to_owned(), opt_to_tree(&self.loyalty)));
        ps.push(("mana_cost".to_owned(), opt_to_tree(&self.mana_cost)));
        ps.push(("mtgo_id".to_owned(), opt_to_tree(&self.mtgo_id)));
        ps.push(("mtgo_foil_id".to_owned(), opt_to_tree(&self.mtgo_foil_id)));
        ps.push(("multiverse_ids".to_owned(), opt_to_tree(&self.multiverse_ids)));
        ps.push(("name".to_owned(), self.name.to_tree()));
        ps.push(("nonfoil".to_owned(), self.nonfoil.to_tree()));
        ps.push(("oracle_id".to_owned(), self.oracle_id.to_tree()));
        ps.push(("oracle_text".to_owned(), opt_to_tree(&self.oracle_text)));
        ps.push(("oversized".to_owned(), self.oversized.to_tree()));
        ps.push(("penny_rank".to_owned(), opt_to_tree(&self.penny_rank)));
        ps.push(("power".to_owned(), opt_to_tree(&self.power)));
        ps.push(("prices".to_owned(), self.prices.to_tree()));
        ps.push(("printed_name".to_owned(), opt_to_tree(&self.printed_name)));
        ps.push(("printed_text".to_owned(), opt_to_tree(&self.printed_text)));
        ps.push(("printed_type_line".to_owned(), opt_to_tree(&self.printed_type_line)));
        ps.push(("prints_search_uri".to_owned(), self.prints_search_uri.to_tree()));
        ps.push(("produced_mana".to_owned(), opt_to_tree(&self.produced_mana)));
        ps.push(("promo".to_owned(), self.promo.to_tree()));
        ps.push(("promo_types".to_owned(), opt_to_tree(&self.promo_types)));
        ps.push(("purchase_uris".to_owned(), opt_to_tree(&self.purchase_uris)));
        ps.push(("rarity".to_owned(), self.rarity.to_tree()));
        ps.push(("related_uris".to_owned(), opt_to_tree(&self.related_uris)));
        ps.push(("released_at".to_owned(), self.released_at.to_tree()));
        ps.push(("reprint".to_owned(), self.reprint.to_tree()));
        ps.push(("reserved".to_owned(), self.reserved.to_tree()));
        ps.push(("rulings_uri".to_owned(), self.rulings_uri.to_tree()));
        ps.push(("scryfall_set_uri".to_owned(), self.scryfall_set_uri.to_tree()));
        ps.push(("scryfall_uri".to_owned(), self.scryfall_uri.to_tree()));
        ps.push(("security_stamp".to_owned(), opt_to_tree(&self.security_stamp)));
        ps.push(("set".to_owned(), self.set.to_tree()));
        ps.push(("set_id".to_owned(), self.set_id.to_tree()));
        ps.push(("set_name".to_owned(), self.set_name.to_tree()));
        ps.push(("set_search_uri".to_owned(), self.set_search_uri.to_tree()));
        ps.push(("set_type".to_owned(), self.set_type.to_tree()));
        ps.push(("set_uri".to_owned(), self.set_uri.to_tree()));
        ps.push(("story_spotlight".to_owned(), self.story_spotlight.to_tree()));
        ps.push(("tcgplayer_id".to_owned(), opt_to_tree(&self.tcgplayer_id)));
        ps.push(("tcgplayer_etched_id".to_owned(), opt_to_tree(&self.tcgplayer_etched_id)));
        ps.push(("textless".to_owned(), self.textless.to_tree()));
        ps.push(("toughness".to_owned(), opt_to_tree(&self.toughness)));
        ps.push(("type_line".to_owned(), self.type_line.to_tree()));
        ps.push(("uri".to_owned(), self.uri.to_tree()));
        ps.push(("variation".to_owned(), self.variation.to_tree()));
        ps.push(("variation_of".to_owned(), opt_to_tree(&self.variation_of)));
        let r = JsonValue::Obj(ps);
        proof {
            assert(jpairs_of(ps@) =~= card_pairs(*self));
        }
        r
    }
}

#[verifier::rlimit(100)]
proof fn lemma_card_found_0(m: Card)
    ensures
        jobj_get(card_pairs(m), "all_parts"@) == Some(card_pairs(m)[0].1),
        jobj_get(card_pairs(m), "arena_id"@) == Some(card_pairs(m)[1].1),
        jobj_get(card_pairs(m), "artist"@) == Some(card_pairs(m)[2].1),
        jobj_get(card_pairs(m), "artist_ids"@) == Some(card_pairs(m)[3].1),
        jobj_get(card_pairs(m), "booster"@) == Some(card_pairs(m)[4].1),
        jobj_get(card_pairs(m), "border_color"@) == Some(card_pairs(m)[5].1),
        jobj_get(card_pairs(m), "card_back_id"@) == Some(card_pairs(m)[6].1),
        jobj_get(card_pairs(m), "card_faces"@) == Some(card_pairs(m)[7].1),
        jobj_get(card_pairs(m), "cardmarket_id"@) == Some(card_pairs(m)[8].1),
        jobj_get(card_pairs(m), "cmc"@) == Some(card_pairs(m)[9].1),
        jobj_get(card_pairs(m), "collector_number"@) == Some(card_pairs(m)[10].1),
        jobj_get(card_pairs(m), "color_identity"@) == Some(card_pairs(m)[11].1),
        jobj_get(card_pairs(m), "color_indicator"@) == Some(card_pairs(m)[12].1),
        jobj_get(card_pairs(m), "colors"@) == Some(card_pairs(m)[13].1),
{
    reveal_strlit("all_parts");
    reveal_strlit("arena_id");
    reveal_strlit("artist");
    reveal_strlit("artist_ids");
    reveal_strlit("booster");
    reveal_strlit("border_color");
    reveal_strlit("card_back_id");
    reveal_strlit("card_faces");
    reveal_strlit("cardmarket_id");
    reveal_strlit("cmc");
    reveal_strlit("collector_number");
    reveal_strlit("color_identity");
    reveal_strlit("color_indicator");
    reveal_strlit("colors");
    assert("all_parts"@.len() == 9 && "all_parts"@[0] == 'a');
    assert("arena_id"@.len() == 8 && "arena_id"@[0] == 'a');
    assert("artist"@.len() == 6 && "artist"@[0] == 'a');
    assert("artist_ids"@.len() == 10 && "artist_ids"@[0] == 'a');
    assert("booster"@.len() == 7 && "booster"@[0] == 'b');
    assert("border_color"@.len() == 12 && "border_color"@[0] == 'b');
    assert("card_back_id"@.len() == 12 && "card_back_id"@[0] == 'c');
    assert("card_faces"@.len() == 10 && "card_faces"@[0] == 'c');
    assert("cardmarket_id"@.len() == 13 && "cardmarket_id"@[0] == 'c');
    assert("cmc"@.len() == 3 && "cmc"@[0] == 'c');
    assert("collector_number"@.len() == 16 && "collector_number"@[0] == 'c');
    assert("color_identity"@.len() == 14 && "color_identity"@[0] == 'c');
    assert("color_indicator"@.len() == 15 && "color_indicator"@[0] == 'c');
    assert("colors"@.len() == 6 && "colors"@[0] == 'c');
    let ps = card_pairs(m);
    assert(ps[0].0 == "all_parts"@);
    assert(ps[1].0 == "arena_id"@);
    assert(ps[2].0 == "artist"@);
    assert(ps[3].0 == "artist_ids"@);
    assert(ps[4].0 == "booster"@);
    assert(ps[5].0 == "border_color"@);
    assert(ps[6].0 == "card_back_id"@);
    assert(ps[7].0 == "card_faces"@);
    assert(ps[8].0 == "cardmarket_id"@);
    assert(ps[9].0 == "cmc"@);
    assert(ps[10].0 == "collector_number"@);
    assert(ps[11].0 == "color_identity"@);
    assert(ps[12].0 == "color_indicator"@);
    assert(ps[13].0 == "colors"@);
    lemma_jobj_get_at(ps, "all_parts"@, 0);
    lemma_jobj_get_at(ps, "arena_id"@, 1);
    lemma_jobj_get_at(ps, "artist"@, 2);
    lemma_jobj_get_at(ps, "artist_ids"@, 3);
    lemma_jobj_get_at(ps, "booster"@, 4);
    lemma_jobj_get_at(ps, "border_color"@, 5);
    lemma_jobj_get_at(ps, "card_back_id"@, 6);
    lemma_jobj_get_at(ps, "card_faces"@, 7);
    lemma_jobj_get_at(ps, "cardmarket_id"@, 8);
    lemma_jobj_get_at(ps, "cmc"@, 9);
    lemma_jobj_get_at(ps, "collector_number"@, 10);
    lemma_jobj_get_at(ps, "color_identity"@, 11);
    lemma_jobj_get_at(ps, "color_indicator"@, 12);
    lemma_jobj_get_at(ps, "colors"@, 13);
}

#[verifier::rlimit(100)]
proof fn lemma_card_found_1(m: Card)
    ensures
        jobj_get(card_pairs(m), "content_warning"@) == Some(card_pairs(m)[14].1),
        jobj_get(card_pairs(m), "digital"@) == Some(card_pairs(m)[15].1),
        jobj_get(card_pairs(m), "edhrec_rank"@) == Some(card_pairs(m)[16].1),
        jobj_get(card_pairs(m), "finishes"@) == Some(card_pairs(m)[17].1),
        jobj_get(card_pairs(m), "flavor_name"@) == Some(card_pairs(m)[18].1),
        jobj_get(card_pairs(m), "flavor_text"@) == Some(card_pairs(m)[19].1),
        jobj_get(card_pairs(m), "foil"@) == Some(card_pairs(m)[20].1),
        jobj_get(card_pairs(m), "frame"@) == Some(card_pairs(m)[21].1),
        jobj_get(card_pairs(m), "full_art"@) == Some(card_pairs(m)[22].1),
        jobj_get(card_pairs(m), "games"@) == Some(card_pairs(m)[23].1),
        jobj_get(card_pairs(m), "hand_modifier"@) == Some(card_pairs(m)[24].1),
        jobj_get(card_pairs(m), "highres_image"@) == Some(card_pairs(m)[25].1),
        jobj_get(card_pairs(m), "id"@) == Some(card_pairs(m)[26].1),
        jobj_get(card_pairs(m), "illustration_id"@) == Some(card_pairs(m)[27].1),
{
    reveal_strlit("all_parts");
    reveal_strlit("arena_id");
    reveal_strlit("artist");
    reveal_strlit("artist_ids");
    reveal_strlit("booster");
    reveal_strlit("border_color");
    reveal_strlit("card_back_id");
    reveal_strlit("card_faces");
    reveal_strlit("cardmarket_id");
    reveal_strlit("cmc");
    reveal_strlit("collector_number");
    reveal_strlit("color_identity");
    reveal_strlit("color_indicator");
    reveal_strlit("colors");
    reveal_strlit("content_warning");
    reveal_strlit("digital");
    reveal_strlit("edhrec_rank");
    reveal_strlit("finishes");
    reveal_strlit("flavor_name");
    reveal_strlit("flavor_text");
    reveal_strlit("foil");
    reveal_strlit("frame");
    reveal_strlit("full_art");
    reveal_strlit("games");
    reveal_strlit("hand_modifier");
    reveal_strlit("highres_image");
    reveal_strlit("id");
    reveal_strlit("illustration_id");
    assert("all_parts"@.len() == 9 && "all_parts"@[0] == 'a');
    assert("arena_id"@.len() == 8 && "arena_id"@[0] == 'a');
    assert("artist"@.len() == 6 && "artist"@[0] == 'a');
    assert("artist_ids"@.len() == 10 && "artist_ids"@[0] == 'a');
    assert("booster"@.len() == 7 && "booster"@[0] == 'b');
    assert("border_color"@.len() == 12 && "border_color"@[0] == 'b');
    assert("card_back_id"@.len() == 12 && "card_back_id"@[0] == 'c');
    assert("card_faces"@.len() == 10 && "card_faces"@[0] == 'c');
    assert("cardmarket_id"@.len() == 13 && "cardmarket_id"@[0] == 'c');
    assert("cmc"@.len() == 3 && "cmc"@[0] == 'c');
    assert("collector_number"@.len() == 16 && "collector_number"@[0] == 'c');
    assert("color_identity"@.len() == 14 && "color_identity"@[0] == 'c');
    assert("color_indicator"@.len() == 15 && "color_indicator"@[0] == 'c' && "color_indicator"@[2] == 'l');
    assert("colors"@.len() == 6 && "colors"@[0] == 'c');
    assert("content_warning"@.len() == 15 && "content_warning"@[0] == 'c' && "content_warning"@[2] == 'n');
    assert("digital"@.len() == 7 && "digital"@[0] == 'd');
    assert("edhrec_rank"@.len() == 11 && "edhrec_rank"@[0] == 'e');
    assert("finishes"@.len() == 8 && "finishes"@[0] == 'f' && "finishes"@[1] == 'i');
    assert("flavor_name"@.len() == 11 && "flavor_name"@[0] == 'f' && "flavor_name"@[7] == 'n');
    assert("flavor_text"@.len() == 11 && "flavor_text"@[0] == 'f' && "flavor_text"@[7] == 't');
    assert("foil"@.len() == 4 && "foil"@[0] == 'f');
    assert("frame"@.len() == 5 && "frame"@[0] == 'f');
    assert("full_art"@.len() == 8 && "full_art"@[0] == 'f' && "full_art"@[1] == 'u');
    assert("games"@.len() == 5 && "games"@[0] == 'g');
    assert("hand_modifier"@.len() == 13 && "hand_modifier"@[0] == 'h' && "hand_modifier"@[1] == 'a');
    assert("highres_image"@.len() == 13 && "highres_image"@[0] == 'h' && "highres_image"@[1] == 'i');
    assert("id"@.len() == 2 && "id"@[0] == 'i');
    assert("illustration_id"@.len() == 15 && "illustration_id"@[0] == 'i');
    let ps = card_pairs(m);
    assert(ps[0].0 == "all_parts"@);
    assert(ps[1].0 == "arena_id"@);
    assert(ps[2].0 == "artist"@);
    assert(ps[3].0 == "artist_ids"@);
    assert(ps[4].0 == "booster"@);
    assert(ps[5].0 == "border_color"@);
    assert(ps[6].0 == "card_back_id"@);
    assert(ps[7].0 == "card_faces"@);
    assert(ps[8].0 == "cardmarket_id"@);
    assert(ps[9].0 == "cmc"@);
    assert(ps[10].0 == "collector_number"@);
    assert(ps[11].0 == "color_identity"@);
    assert(ps[12].0 == "color_indicator"@);
    assert(ps[13].0 == "colors"@);
    assert(ps[14].0 == "content_warning"@);
    assert(ps[15].0 == "digital"@);
    assert(ps[16].0 == "edhrec_rank"@);
    assert(ps[17].0 == "finishes"@);
    assert(ps[18].0 == "flavor_name"@);
    assert(ps[19].0 == "flavor_text"@);
    assert(ps[20].0 == "foil"@);
    assert(ps[21].0 == "frame"@);
    assert(ps[22].0 == "full_art"@);
    assert(ps[23].0 == "games"@);
    assert(ps[24].0 == "hand_modifier"@);
    assert(ps[25].0 == "highres_image"@);
    assert(ps[26].0 == "id"@);
    assert(ps[27].0 == "illustration_id"@);
    lemma_jobj_get_at(ps, "content_warning"@, 14);
    lemma_jobj_get_at(ps, "digital"@, 15);
    lemma_jobj_get_at(ps, "edhrec_rank"@, 16);
    lemma_jobj_get_at(ps, "finishes"@, 17);
    lemma_jobj_get_at(ps, "flavor_name"@, 18);
    lemma_jobj_get_at(ps, "flavor_text"@, 19);
    lemma_jobj_get_at(ps, "foil"@, 20);
    lemma_jobj_get_at(ps, "frame"@, 21);
    lemma_jobj_get_at(ps, "full_art"@, 22);
    lemma_jobj_get_at(ps, "games"@, 23);
    lemma_jobj_get_at(ps, "hand_modifier"@, 24);
    lemma_jobj_get_at(ps, "highres_image"@, 25);
    lemma_jobj_get_at(ps, "id"@, 26);
    lemma_jobj_get_at(ps, "illustration_id"@, 27);
}

#[verifier::rlimit(100)]
proof fn lemma_card_found_2(m: Card)
    ensures
        jobj_get(card_pairs(m), "image_status"@) == Some(card_pairs(m)[28].1),
        jobj_get(card_pairs(m), "image_uris"@) == Some(card_pairs(m)[29].1),
        jobj_get(card_pairs(m), "keywords"@) == Some(card_pairs(m)[30].1),
        jobj_get(card_pairs(m), "object"@) == Some(card_pairs(m)[31].1),
        jobj_get(card_pairs(m), "lang"@) == Some(card_pairs(m)[32].1),
        jobj_get(card_pairs(m), "layout"@) == Some(card_pairs(m)[33].1),
        jobj_get(card_pairs(m), "legalities"@) == Some(card_pairs(m)[34].1),
        jobj_get(card_pairs(m), "life_modifier"@) == Some(card_pairs(m)[35].1),
        jobj_get(card_pairs(m), "loyalty"@) == Some(card_pairs(m)[36].1),
        jobj_get(card_pairs(m), "mana_cost"@) == Some(card_pairs(m)[37].1),
        jobj_get(card_pairs(m), "mtgo_id"@) == Some(card_pairs(m)[38].1),
        jobj_get(card_pairs(m), "mtgo_foil_id"@) == Some(card_pairs(m)[39].1),
        jobj_get(card_pairs(m), "multiverse_ids"@) == Some(card_pairs(m)[40].1),
        jobj_get(card_pairs(m), "name"@) == Some(card_pairs(m)[41].1),
{
    reveal_strlit("all_parts");
    reveal_strlit("arena_id");
    reveal_strlit("artist");
    reveal_strlit("artist_ids");
    reveal_strlit("booster");
    reveal_strlit("border_color");
    reveal_strlit("card_back_id");
    reveal_strlit("card_faces");
    reveal_strlit("cardmarket_id");
    reveal_strlit("cmc");
    reveal_strlit("collector_number");
    reveal_strlit("color_identity");
    reveal_strlit("color_indicator");
    reveal_strlit("colors");
    reveal_strlit("content_warning");
    reveal_strlit("digital");
    reveal_strlit("edhrec_rank");
    reveal_strlit("finishes");
    reveal_strlit("flavor_name");
    reveal_strlit("flavor_text");
    reveal_strlit("foil");
    reveal_strlit("frame");
    reveal_strlit("full_art");
    reveal_strlit("games");
    reveal_strlit("hand_modifier");
    reveal_strlit("highres_image");
    reveal_strlit("id");
    reveal_strlit("illustration_id");
    reveal_strlit("image_status");
    reveal_strlit("image_uris");
    reveal_strlit("keywords");
    reveal_strlit("object");
    reveal_strlit("lang");
    reveal_strlit("layout");
    reveal_strlit("legalities");
    reveal_strlit("life_modifier");
    reveal_strlit("loyalty");
    reveal_strlit("mana_cost");
    reveal_strlit("mtgo_id");
    reveal_strlit("mtgo_foil_id");
    reveal_strlit("multiverse_ids");
    reveal_strlit("name");
    assert("all_parts"@.len() == 9 && "all_parts"@[0] == 'a');
    assert("arena_id"@.len() == 8 && "arena_id"@[0] == 'a');
    assert("artist"@.len() == 6 && "artist"@[0] == 'a');
    assert("artist_ids"@.len() == 10 && "artist_ids"@[0] == 'a');
    assert("booster"@.len() == 7 && "booster"@[0] == 'b');
    assert("border_color"@.len() == 12 && "border_color"@[0] == 'b');
    assert("card_back_id"@.len() == 12 && "card_back_id"@[0] == 'c');
    assert("card_faces"@.len() == 10 && "card_faces"@[0] == 'c');
    assert("cardmarket_id"@.len() == 13 && "cardmarket_id"@[0] == 'c');
    assert("cmc"@.len() == 3 && "cmc"@[0] == 'c');
    assert("collector_number"@.len() == 16 && "collector_number"@[0] == 'c');
    assert("color_identity"@.len() == 14 && "color_identity"@[0] == 'c');
    assert("color_indicator"@.len() == 15 && "color_indicator"@[0] == 'c' && "color_indicator"@[2] == 'l');
    assert("colors"@.len() == 6 && "colors"@[0] == 'c');
    assert("content_warning"@.len() == 15 && "content_warning"@[0] == 'c' && "content_warning"@[2] == 'n');
    assert("digital"@.len() == 7 && "digital"@[0] == 'd');
    assert("edhrec_rank"@.len() == 11 && "edhrec_rank"@[0] == 'e');
    assert("finishes"@.len() == 8 && "finishes"@[0] == 'f' && "finishes"@[1] == 'i');
    assert("flavor_name"@.len() == 11 && "flavor_name"@[0] == 'f' && "flavor_name"@[7] == 'n');
    assert("flavor_text"@.len() == 11 && "flavor_text"@[0] == 'f' && "flavor_text"@[7] == 't');
    assert("foil"@.len() == 4 && "foil"@[0] == 'f');
    assert("frame"@.len() == 5 && "frame"@[0] == 'f');
    assert("full_art"@.len() == 8 && "full_art"@[0] == 'f' && "full_art"@[1] == 'u');
    assert("games"@.len() == 5 && "games"@[0] == 'g');
    assert("hand_modifier"@.len() == 13 && "hand_modifier"@[0] == 'h' && "hand_modifier"@[1] == 'a');
    assert("highres_image"@.len() == 13 && "highres_image"@[0] == 'h' && "highres_image"@[1] == 'i');
    assert("id"@.len() == 2 && "id"@[0] == 'i');
    assert("illustration_id"@.len() == 15 && "illustration_id"@[0] == 'i');
    assert("image_status"@.len() == 12 && "image_status"@[0] == 'i');
    assert("image_uris"@.len() == 10 && "image_uris"@[0] == 'i');
    assert("keywords"@.len() == 8 && "keywords"@[0] == 'k');
    assert("object"@.len() == 6 && "object"@[0] == 'o');
    assert("lang"@.len() == 4 && "lang"@[0] == 'l');
    assert("layout"@.len() == 6 && "layout"@[0] == 'l');
    assert("legalities"@.len() == 10 && "legalities"@[0] == 'l');
    assert("life_modifier"@.len() == 13 && "life_modifier"@[0] == 'l');
    assert("loyalty"@.len() == 7 && "loyalty"@[0] == 'l');
    assert("mana_cost"@.len() == 9 && "mana_cost"@[0] == 'm');
    assert("mtgo_id"@.len() == 7 && "mtgo_id"@[0] == 'm');
    assert("mtgo_foil_id"@.len() == 12 && "mtgo_foil_id"@[0] == 'm');
    assert("multiverse_ids"@.len() == 14 && "multiverse_ids"@[0] == 'm');
    assert("name"@.len() == 4 && "name"@[0] == 'n');
    let ps = card_pairs(m);
    assert(ps[0].0 == "all_parts"@);
    assert(ps[1].0 == "arena_id"@);
    assert(ps[2].0 == "artist"@);
    assert(ps[3].0 == "artist_ids"@);
    assert(ps[4].0 == "booster"@);
    assert(ps[5].0 == "border_color"@);
    assert(ps[6].0 == "card_back_id"@);
    assert(ps[7].0 == "card_faces"@);
    assert(ps[8].0 == "cardmarket_id"@);
    assert(ps[9].0 == "cmc"@);
    assert(ps[10].0 == "collector_number"@);
    assert(ps[11].0 == "color_identity"@);
    assert(ps[12].0 == "color_indicator"@);
    assert(ps[13].0 == "colors"@);
    assert(ps[14].0 == "content_warning"@);
    assert(ps[15].0 == "digital"@);
    assert(ps[16].0 == "edhrec_rank"@);
    assert(ps[17].0 == "finishes"@);
    assert(ps[18].0 == "flavor_name"@);
    assert(ps[19].0 == "flavor_text"@);
    assert(ps[20].0 == "foil"@);
    assert(ps[21].0 == "frame"@);
    assert(ps[22].0 == "full_art"@);
    assert(ps[23].0 == "games"@);
    assert(ps[24].0 == "hand_modifier"@);
    assert(ps[25].0 == "highres_image"@);
    assert(ps[26].0 == "id"@);
    assert(ps[27].0 == "illustration_id"@);
    assert(ps[28].0 == "image_status"@);
    assert(ps[29].0 == "image_uris"@);
    assert(ps[30].0 == "keywords"@);
    assert(ps[31].0 == "object"@);
    assert(ps[32].0 == "lang"@);
    assert(ps[33].0 == "layout"@);
    assert(ps[34].0 == "legalities"@);
    assert(ps[35].0 == "life_modifier"@);
    assert(ps[36].0 == "loyalty"@);
    assert(ps[37].0 == "mana_cost"@);
    assert(ps[38].0 == "mtgo_id"@);
    assert(ps[39].0 == "mtgo_foil_id"@);
    assert(ps[40].0 == "multiverse_ids"@);
    assert(ps[41].0 == "name"@);
    lemma_jobj_get_at(ps, "image_status"@, 28);
    lemma_jobj_get_at(ps, "image_uris"@, 29);
    lemma_jobj_get_at(ps, "keywords"@, 30);
    lemma_jobj_get_at(ps, "object"@, 31);
    lemma_jobj_get_at(ps, "lang"@, 32);
    lemma_jobj_get_at(ps, "layout"@, 33);
    lemma_jobj_get_at(ps, "legalities"@, 34);
    lemma_jobj_get_at(ps, "life_modifier"@, 35);
    lemma_jobj_get_at(ps, "loyalty"@, 36);
    lemma_jobj_get_at(ps, "mana_cost"@, 37);
    lemma_jobj_get_at(ps, "mtgo_id"@, 38);
    lemma_jobj_get_at(ps, "mtgo_foil_id"@, 39);
    lemma_jobj_get_at(ps, "multiverse_ids"@, 40);
    lemma_jobj_get_at(ps, "name"@, 41);
}

#[verifier::rlimit(100)]
proof fn lemma_card_found_3(m: Card)
    ensures
        jobj_get(card_pairs(m), "nonfoil"@) == Some(card_pairs(m)[42].1),
        jobj_get(card_pairs(m), "oracle_id"@) == Some(card_pairs(m)[43].1),
        jobj_get(card_pairs(m), "oracle_text"@) == Some(card_pairs(m)[44].1),
        jobj_get(card_pairs(m), "oversized"@) == Some(card_pairs(m)[45].1),
        jobj_get(card_pairs(m), "penny_rank"@) == Some(card_pairs(m)[46].1),
        jobj_get(card_pairs(m), "power"@) == Some(card_pairs(m)[47].1),
        jobj_get(card_pairs(m), "prices"@) == Some(card_pairs(m)[48].1),
        jobj_get(card_pairs(m), "printed_name"@) == Some(card_pairs(m)[49].1),
        jobj_get(card_pairs(m), "printed_text"@) == Some(card_pairs(m)[50].1),
        jobj_get(card_pairs(m), "printed_type_line"@) == Some(card_pairs(m)[51].1),
        jobj_get(card_pairs(m), "prints_search_uri"@) == Some(card_pairs(m)[52].1),
        jobj_get(card_pairs(m), "produced_mana"@) == Some(card_pairs(m)[53].1),
        jobj_get(card_pairs(m), "promo"@) == Some(card_pairs(m)[54].1),
        jobj_get(card_pairs(m), "promo_types"@) == Some(card_pairs(m)[55].1),
{
    reveal_strlit("all_parts");
    reveal_strlit("arena_id");
    reveal_strlit("artist");
    reveal_strlit("artist_ids");
    reveal_strlit("booster");
    reveal_strlit("border_color");
    reveal_strlit("card_back_id");
    reveal_strlit("card_faces");
    reveal_strlit("cardmarket_id");
    reveal_strlit("cmc");
    reveal_strlit("collector_number");
    reveal_strlit("color_identity");
    reveal_strlit("color_indicator");
    reveal_strlit("colors");
    reveal_strlit("content_warning");
    reveal_strlit("digital");
    reveal_strlit("edhrec_rank");
    reveal_strlit("finishes");
    reveal_strlit("flavor_name");
    reveal_strlit("flavor_text");
    reveal_strlit("foil");
    reveal_strlit("frame");
    reveal_strlit("full_art");
    reveal_strlit("games");
    reveal_strlit("hand_modifier");
    reveal_strlit("highres_image");
    reveal_strlit("id");
    reveal_strlit("illustration_id");
    reveal_strlit("image_status");
    reveal_strlit("image_uris");
    reveal_strlit("keywords");
    reveal_strlit("object");
    reveal_strlit("lang");
    reveal_strlit("layout");
    reveal_strlit("legalities");
    reveal_strlit("life_modifier");
    reveal_strlit("loyalty");
    reveal_strlit("mana_cost");
    reveal_strlit("mtgo_id");
    reveal_strlit("mtgo_foil_id");
    reveal_strlit("multiverse_ids");
    reveal_strlit("name");
    reveal_strlit("nonfoil");
    reveal_strlit("oracle_id");
    reveal_strlit("oracle_text");
    reveal_strlit("oversized");
    reveal_strlit("penny_rank");
    reveal_strlit("power");
    reveal_strlit("prices");
    reveal_strlit("printed_name");
    reveal_strlit("printed_text");
    reveal_strlit("printed_type_line");
    reveal_strlit("prints_search_uri");
    reveal_strlit("produced_mana");
    reveal_strlit("promo");
    reveal_strlit("promo_types");
    assert("all_parts"@.len() == 9 && "all_parts"@[0] == 'a');
    assert("arena_id"@.len() == 8 && "arena_id"@[0] == 'a');
    assert("artist"@.len() == 6 && "artist"@[0] == 'a');
    assert("artist_ids"@.len() == 10 && "artist_ids"@[0] == 'a');
    assert("booster"@.len() == 7 && "booster"@[0] == 'b');
    assert("border_color"@.len() == 12 && "border_color"@[0] == 'b');
    assert("card_back_id"@.len() == 12 && "card_back_id"@[0] == 'c');
    assert("card_faces"@.len() == 10 && "card_faces"@[0] == 'c');
    assert("cardmarket_id"@.len() == 13 && "cardmarket_id"@[0] == 'c');
    assert("cmc"@.len() == 3 && "cmc"@[0] == 'c');
    assert("collector_number"@.len() == 16 && "collector_number"@[0] == 'c');
    assert("color_identity"@.len() == 14 && "color_identity"@[0] == 'c');
    assert("color_indicator"@.len() == 15 && "color_indicator"@[0] == 'c' && "color_indicator"@[2] == 'l');
    assert("colors"@.len() == 6 && "colors"@[0] == 'c');
    assert("content_warning"@.len() == 15 && "content_warning"@[0] == 'c' && "content_warning"@[2] == 'n');
    assert("digital"@.len() == 7 && "digital"@[0] == 'd');
    assert("edhrec_rank"@.len() == 11 && "edhrec_rank"@[0] == 'e');
    assert("finishes"@.len() == 8 && "finishes"@[0] == 'f' && "finishes"@[1] == 'i');
    assert("flavor_name"@.len() == 11 && "flavor_name"@[0] == 'f' && "flavor_name"@[7] == 'n');
    assert("flavor_text"@.len() == 11 && "flavor_text"@[0] == 'f' && "flavor_text"@[7] == 't');
    assert("foil"@.len() == 4 && "foil"@[0] == 'f');
    assert("frame"@.len() == 5 && "frame"@[0] == 'f');
    assert("full_art"@.len() == 8 && "full_art"@[0] == 'f' && "full_art"@[1] == 'u');
    assert("games"@.len() == 5 && "games"@[0] == 'g');
    assert("hand_modifier"@.len() == 13 && "hand_modifier"@[0] == 'h' && "hand_modifier"@[1] == 'a');
    assert("highres_image"@.len() == 13 && "highres_image"@[0] == 'h' && "highres_image"@[1] == 'i');
    assert("id"@.len() == 2 && "id"@[0] == 'i');
    assert("illustration_id"@.len() == 15 && "illustration_id"@[0] == 'i');
    assert("image_status"@.len() == 12 && "image_status"@[0] == 'i');
    assert("image_uris"@.len() == 10 && "image_uris"@[0] == 'i');
    assert("keywords"@.len() == 8 && "keywords"@[0] == 'k');
    assert("object"@.len() == 6 && "object"@[0] == 'o');
    assert("lang"@.len() == 4 && "lang"@[0] == 'l');
    assert("layout"@.len() == 6 && "layout"@[0] == 'l');
    assert("legalities"@.len() == 10 && "legalities"@[0] == 'l');
    assert("life_modifier"@.len() == 13 && "life_modifier"@[0] == 'l');
    assert("loyalty"@.len() == 7 && "loyalty"@[0] == 'l');
    assert("mana_cost"@.len() == 9 && "mana_cost"@[0] == 'm');
    assert("mtgo_id"@.len() == 7 && "mtgo_id"@[0] == 'm');
    assert("mtgo_foil_id"@.len() == 12 && "mtgo_foil_id"@[0] == 'm');
    assert("multiverse_ids"@.len() == 14 && "multiverse_ids"@[0] == 'm');
    assert("name"@.len() == 4 && "name"@[0] == 'n');
    assert("nonfoil"@.len() == 7 && "nonfoil"@[0] == 'n');
    assert("oracle_id"@.len() == 9 && "oracle_id"@[0] == 'o' && "oracle_id"@[1] == 'r');
    assert("oracle_text"@.len() == 11 && "oracle_text"@[0] == 'o');
    assert("oversized"@.len() == 9 && "oversized"@[0] == 'o' && "oversized"@[1] == 'v');
    assert("penny_rank"@.len() == 10 && "penny_rank"@[0] == 'p');
    assert("power"@.len() == 5 && "power"@[0] == 'p' && "power"@[1] == 'o');
    assert("prices"@.len() == 6 && "prices"@[0] == 'p');
    assert("printed_name"@.len() == 12 && "printed_name"@[0] == 'p' && "printed_name"@[8] == 'n');
    assert("printed_text"@.len() == 12 && "printed_text"@[0] == 'p' && "printed_text"@[8] == 't');
    assert("printed_type_line"@.len() == 17 && "printed_type_line"@[0] == 'p' && "printed_type_line"@[5] == 'e');
    assert("prints_search_uri"@.len() == 17 && "prints_search_uri"@[0] == 'p' && "prints_search_uri"@[5] == 's');
    assert("produced_mana"@.len() == 13 && "produced_mana"@[0] == 'p');
    assert("promo"@.len() == 5 && "promo"@[0] == 'p' && "promo"@[1] == 'r');
    assert("promo_types"@.len() == 11 && "promo_types"@[0] == 'p');
    let ps = card_pairs(m);
    assert(ps[0].0 == "all_parts"@);
    assert(ps[1].0 == "arena_id"@);
    assert(ps[2].0 == "artist"@);
    assert(ps[3].0 == "artist_ids"@);
    assert(ps[4].0 == "booster"@);
    assert(ps[5].0 == "border_color"@);
    assert(ps[6].0 == "card_back_id"@);
    assert(ps[7].0 == "card_faces"@);
    assert(ps[8].0 == "cardmarket_id"@);
    assert(ps[9].0 == "cmc"@);
    assert(ps[10].0 == "collector_number"@);
    assert(ps[11].0 == "color_identity"@);
    assert(ps[12].0 == "color_indicator"@);
    assert(ps[13].0 == "colors"@);
    assert(ps[14].0 == "content_warning"@);
    assert(ps[15].0 == "digital"@);
    assert(ps[16].0 == "edhrec_rank"@);
    assert(ps[17].0 == "finishes"@);
    assert(ps[18].0 == "flavor_name"@);
    assert(ps[19].0 == "flavor_text"@);
    assert(ps[20].0 == "foil"@);
    assert(ps[21].0 == "frame"@);
    assert(ps[22].0 == "full_art"@);
    assert(ps[23].0 == "games"@);
    assert(ps[24].0 == "hand_modifier"@);
    assert(ps[25].0 == "highres_image"@);
    assert(ps[26].0 == "id"@);
    assert(ps[27].0 == "illustration_id"@);
    assert(ps[28].0 == "image_status"@);
    assert(ps[29].0 == "image_uris"@);
    assert(ps[30].0 == "keywords"@);
    assert(ps[31].0 == "object"@);
    assert(ps[32].0 == "lang"@);
    assert(ps[33].0 == "layout"@);
    assert(ps[34].0 == "legalities"@);
    assert(ps[35].0 == "life_modifier"@);
    assert(ps[36].0 == "loyalty"@);
    assert(ps[37].0 == "mana_cost"@);
    assert(ps[38].0 == "mtgo_id"@);
    assert(ps[39].0 == "mtgo_foil_id"@);
    assert(ps[40].0 == "multiverse_ids"@);
    assert(ps[41].0 == "name"@);
    assert(ps[42].0 == "nonfoil"@);
    assert(ps[43].0 == "oracle_id"@);
    assert(ps[44].0 == "oracle_text"@);
    assert(ps[45].0 == "oversized"@);
    assert(ps[46].0 == "penny_rank"@);
    assert(ps[47].0 == "power"@);
    assert(ps[48].0 == "prices"@);
    assert(ps[49].0 == "printed_name"@);
    assert(ps[50].0 == "printed_text"@);
    assert(ps[51].0 == "printed_type_line"@);
    assert(ps[52].0 == "prints_search_uri"@);
    assert(ps[53].0 == "produced_mana"@);
    assert(ps[54].0 == "promo"@);
    assert(ps[55].0 == "promo_types"@);
    lemma_jobj_get_at(ps, "nonfoil"@, 42);
    lemma_jobj_get_at(ps, "oracle_id"@, 43);
    lemma_jobj_get_at(ps, "oracle_text"@, 44);
    lemma_jobj_get_at(ps, "oversized"@, 45);
    lemma_jobj_get_at(ps, "penny_rank"@, 46);
    lemma_jobj_get_at(ps, "power"@, 47);
    lemma_jobj_get_at(ps, "prices"@, 48);
    lemma_jobj_get_at(ps, "printed_name"@, 49);
    lemma_jobj_get_at(ps, "printed_text"@, 50);
    lemma_jobj_get_at(ps, "printed_type_line"@, 51);
    lemma_jobj_get_at(ps, "prints_search_uri"@, 52);
    lemma_jobj_get_at(ps, "produced_mana"@, 53);
    lemma_jobj_get_at(ps, "promo"@, 54);
    lemma_jobj_get_at(ps, "promo_types"@, 55);
}

#[verifier::rlimit(100)]
proof fn lemma_card_found_4(m: Card)
    ensures
        jobj_get(card_pairs(m), "purchase_uris"@) == Some(card_pairs(m)[56].1),
        jobj_get(card_pairs(m), "rarity"@) == Some(card_pairs(m)[57].1),
        jobj_get(card_pairs(m), "related_uris"@) == Some(card_pairs(m)[58].1),
        jobj_get(card_pairs(m), "released_at"@) == Some(card_pairs(m)[59].1),
        jobj_get(card_pairs(m), "reprint"@) == Some(card_pairs(m)[60].1),
        jobj_get(card_pairs(m), "reserved"@) == Some(card_pairs(m)[61].1),
        jobj_get(card_pairs(m), "rulings_uri"@) == Some(card_pairs(m)[62].1),
        jobj_get(card_pairs(m), "scryfall_set_uri"@) == Some(card_pairs(m)[63].1),
        jobj_get(card_pairs(m), "scryfall_uri"@) == Some(card_pairs(m)[64].1),
        jobj_get(card_pairs(m), "security_stamp"@) == Some(card_pairs(m)[65].1),
        jobj_get(card_pairs(m), "set"@) == Some(card_pairs(m)[66].1),
        jobj_get(card_pairs(m), "set_id"@) == Some(card_pairs(m)[67].1),
        jobj_get(card_pairs(m), "set_name"@) == Some(card_pairs(m)[68].1),
        jobj_get(card_pairs(m), "set_search_uri"@) == Some(card_pairs(m)[69].1),
{
    reveal_strlit("all_parts");
    reveal_strlit("arena_id");
    reveal_strlit("artist");
    reveal_strlit("artist_ids");
    reveal_strlit("booster");
    reveal_strlit("border_color");
    reveal_strlit("card_back_id");
    reveal_strlit("card_faces");
    reveal_strlit("cardmarket_id");
    reveal_strlit("cmc");
    reveal_strlit("collector_number");
    reveal_strlit("color_identity");
    reveal_strlit("color_indicator");
    reveal_strlit("colors");
    reveal_strlit("content_warning");
    reveal_strlit("digital");
    reveal_strlit("edhrec_rank");
    reveal_strlit("finishes");
    reveal_strlit("flavor_name");
    reveal_strlit("flavor_text");
    reveal_strlit("foil");
    reveal_strlit("frame");
    reveal_strlit("full_art");
    reveal_strlit("games");
    reveal_strlit("hand_modifier");
    reveal_strlit("highres_image");
    reveal_strlit("id");
    reveal_strlit("illustration_id");
    reveal_strlit("image_status");
    reveal_strlit("image_uris");
    reveal_strlit("keywords");
    reveal_strlit("object");
    reveal_strlit("lang");
    reveal_strlit("layout");
    reveal_strlit("legalities");
    reveal_strlit("life_modifier");
    reveal_strlit("loyalty");
    reveal_strlit("mana_cost");
    reveal_strlit("mtgo_id");
    reveal_strlit("mtgo_foil_id");
    reveal_strlit("multiverse_ids");
    reveal_strlit("name");
    reveal_strlit("nonfoil");
    reveal_strlit("oracle_id");
    reveal_strlit("oracle_text");
    reveal_strlit("oversized");
    reveal_strlit("penny_rank");
    reveal_strlit("power");
    reveal_strlit("prices");
    reveal_strlit("printed_name");
    reveal_strlit("printed_text");
    reveal_strlit("printed_type_line");
    reveal_strlit("prints_search_uri");
    reveal_strlit("produced_mana");
    reveal_strlit("promo");
    reveal_strlit("promo_types");
    reveal_strlit("purchase_uris");
    reveal_strlit("rarity");
    reveal_strlit("related_uris");
    reveal_strlit("released_at");
    reveal_strlit("reprint");
    reveal_strlit("reserved");
    reveal_strlit("rulings_uri");
    reveal_strlit("scryfall_set_uri");
    reveal_strlit("scryfall_uri");
    reveal_strlit("security_stamp");
    reveal_strlit("set");
    reveal_strlit("set_id");
    reveal_strlit("set_name");
    reveal_strlit("set_search_uri");
    assert("all_parts"@.len() == 9 && "all_parts"@[0] == 'a');
    assert("arena_id"@.len() == 8 && "arena_id"@[0] == 'a');
    assert("artist"@.len() == 6 && "artist"@[0] == 'a');
    assert("artist_ids"@.len() == 10 && "artist_ids"@[0] == 'a');
    assert("booster"@.len() == 7 && "booster"@[0] == 'b');
    assert("border_color"@.len() == 12 && "border_color"@[0] == 'b');
    assert("card_back_id"@.len() == 12 && "card_back_id"@[0] == 'c');
    assert("card_faces"@.len() == 10 && "card_faces"@[0] == 'c');
    assert("cardmarket_id"@.len() == 13 && "cardmarket_id"@[0] == 'c');
    assert("cmc"@.len() == 3 && "cmc"@[0] == 'c');
    assert("collector_number"@.len() == 16 && "collector_number"@[0] == 'c');
    assert("color_identity"@.len() == 14 && "color_identity"@[0] == 'c');
    assert("color_indicator"@.len() == 15 && "color_indicator"@[0] == 'c' && "color_indicator"@[2] == 'l');
    assert("colors"@.len() == 6 && "colors"@[0] == 'c');
    assert("content_warning"@.len() == 15 && "content_warning"@[0] == 'c' && "content_warning"@[2] == 'n');
    assert("digital"@.len() == 7 && "digital"@[0] == 'd');
    assert("edhrec_rank"@.len() == 11 && "edhrec_rank"@[0] == 'e');
    assert("finishes"@.len() == 8 && "finishes"@[0] == 'f' && "finishes"@[1] == 'i');
    assert("flavor_name"@.len() == 11 && "flavor_name"@[0] == 'f' && "flavor_name"@[7] == 'n');
    assert("flavor_text"@.len() == 11 && "flavor_text"@[0] == 'f' && "flavor_text"@[7] == 't');
    assert("foil"@.len() == 4 && "foil"@[0] == 'f');
    assert("frame"@.len() == 5 && "frame"@[0] == 'f');
    assert("full_art"@.len() == 8 && "full_art"@[0] == 'f' && "full_art"@[1] == 'u');
    assert("games"@.len() == 5 && "games"@[0] == 'g');
    assert("hand_modifier"@.len() == 13 && "hand_modifier"@[0] == 'h' && "hand_modifier"@[1] == 'a');
    assert("highres_image"@.len() == 13 && "highres_image"@[0] == 'h' && "highres_image"@[1] == 'i');
    assert("id"@.len() == 2 && "id"@[0] == 'i');
    assert("illustration_id"@.len() == 15 && "illustration_id"@[0] == 'i');
    assert("image_status"@.len() == 12 && "image_status"@[0] == 'i');
    assert("image_uris"@.len() == 10 && "image_uris"@[0] == 'i');
    assert("keywords"@.len() == 8 && "keywords"@[0] == 'k');
    assert("object"@.len() == 6 && "object"@[0] == 'o');
    assert("lang"@.len() == 4 && "lang"@[0] == 'l');
    assert("layout"@.len() == 6 && "layout"@[0] == 'l');
    assert("legalities"@.len() == 10 && "legalities"@[0] == 'l');
    assert("life_modifier"@.len() == 13 && "life_modifier"@[0] == 'l');
    assert("loyalty"@.len() == 7 && "loyalty"@[0] == 'l');
    assert("mana_cost"@.len() == 9 && "mana_cost"@[0] == 'm');
    assert("mtgo_id"@.len() == 7 && "mtgo_id"@[0] == 'm');
    assert("mtgo_foil_id"@.len() == 12 && "mtgo_foil_id"@[0] == 'm');
    assert("multiverse_ids"@.len() == 14 && "multiverse_ids"@[0] == 'm');
    assert("name"@.len() == 4 && "name"@[0] == 'n');
    assert("nonfoil"@.len() == 7 && "nonfoil"@[0] == 'n');
    assert("oracle_id"@.len() == 9 && "oracle_id"@[0] == 'o' && "oracle_id"@[1] == 'r');
    assert("oracle_text"@.len() == 11 && "oracle_text"@[0] == 'o');
    assert("oversized"@.len() == 9 && "oversized"@[0] == 'o' && "oversized"@[1] == 'v');
    assert("penny_rank"@.len() == 10 && "penny_rank"@[0] == 'p');
    assert("power"@.len() == 5 && "power"@[0] == 'p' && "power"@[1] == 'o');
    assert("prices"@.len() == 6 && "prices"@[0] == 'p');
    assert("printed_name"@.len() == 12 && "printed_name"@[0] == 'p' && "printed_name"@[8] == 'n');
    assert("printed_text"@.len() == 12 && "printed_text"@[0] == 'p' && "printed_text"@[8] == 't');
    assert("printed_type_line"@.len() == 17 && "printed_type_line"@[0] == 'p' && "printed_type_line"@[5] == 'e');
    assert("prints_search_uri"@.len() == 17 && "prints_search_uri"@[0] == 'p' && "prints_search_uri"@[5] == 's');
    assert("produced_mana"@.len() == 13 && "produced_mana"@[0] == 'p' && "produced_mana"@[1] == 'r');
    assert("promo"@.len() == 5 && "promo"@[0] == 'p' && "promo"@[1] == 'r');
    assert("promo_types"@.len() == 11 && "promo_types"@[0] == 'p');
    assert("purchase_uris"@.len() == 13 && "purchase_uris"@[0] == 'p' && "purchase_uris"@[1] == 'u');
    assert("rarity"@.len() == 6 && "rarity"@[0] == 'r');
    assert("related_uris"@.len() == 12 && "related_uris"@[0] == 'r');
    assert("released_at"@.len() == 11 && "released_at"@[0] == 'r' && "released_at"@[1] == 'e');
    assert("reprint"@.len() == 7 && "reprint"@[0] == 'r');
    assert("reserved"@.len() == 8 && "reserved"@[0] == 'r');
    assert("rulings_uri"@.len() == 11 && "rulings_uri"@[0] == 'r' && "rulings_uri"@[1] == 'u');
    assert("scryfall_set_uri"@.len() == 16 && "scryfall_set_uri"@[0] == 's');
    assert("scryfall_uri"@.len() == 12 && "scryfall_uri"@[0] == 's');
    assert("security_stamp"@.len() == 14 && "security_stamp"@[0] == 's' && "security_stamp"@[2] == 'c');
    assert("set"@.len() == 3 && "set"@[0] == 's');
    assert("set_id"@.len() == 6 && "set_id"@[0] == 's');
    assert("set_name"@.len() == 8 && "set_name"@[0] == 's');
    assert("set_search_uri"@.len() == 14 && "set_search_uri"@[0] == 's' && "set_search_uri"@[2] == 't');
    let ps = card_pairs(m);
    assert(ps[0].0 == "all_parts"@);
    assert(ps[1].0 == "arena_id"@);
    assert(ps[2].0 == "artist"@);
    assert(ps[3].0 == "artist_ids"@);
    assert(ps[4].0 == "booster"@);
    assert(ps[5].0 == "border_color"@);
    assert(ps[6].0 == "card_back_id"@);
    assert(ps[7].0 == "card_faces"@);
    assert(ps[8].0 == "cardmarket_id"@);
    assert(ps[9].0 == "cmc"@);
    assert(ps[10].0 == "collector_number"@);
    assert(ps[11].0 == "color_identity"@);
    assert(ps[12].0 == "color_indicator"@);
    assert(ps[13].0 == "colors"@);
    assert(ps[14].0 == "content_warning"@);
    assert(ps[15].0 == "digital"@);
    assert(ps[16].0 == "edhrec_rank"@);
    assert(ps[17].0 == "finishes"@);
    assert(ps[18].0 == "flavor_name"@);
    assert(ps[19].0 == "flavor_text"@);
    assert(ps[20].0 == "foil"@);
    assert(ps[21].0 == "frame"@);
    assert(ps[22].0 == "full_art"@);
    assert(ps[23].0 == "games"@);
    assert(ps[24].0 == "hand_modifier"@);
    assert(ps[25].0 == "highres_image"@);
    assert(ps[26].0 == "id"@);
    assert(ps[27].0 == "illustration_id"@);
    assert(ps[28].0 == "image_status"@);
    assert(ps[29].0 == "image_uris"@);
    assert(ps[30].0 == "keywords"@);
    assert(ps[31].0 == "object"@);
    assert(ps[32].0 == "lang"@);
    assert(ps[33].0 == "layout"@);
    assert(ps[34].0 == "legalities"@);
    assert(ps[35].0 == "life_modifier"@);
    assert(ps[36].0 == "loyalty"@);
    assert(ps[37].0 == "mana_cost"@);
    assert(ps[38].0 == "mtgo_id"@);
    assert(ps[39].0 == "mtgo_foil_id"@);
    assert(ps[40].0 == "multiverse_ids"@);
    assert(ps[41].0 == "name"@);
    assert(ps[42].0 == "nonfoil"@);
    assert(ps[43].0 == "oracle_id"@);
    assert(ps[44].0 == "oracle_text"@);
    assert(ps[45].0 == "oversized"@);
    assert(ps[46].0 == "penny_rank"@);
    assert(ps[47].0 == "power"@);
    assert(ps[48].0 == "prices"@);
    assert(ps[49].0 == "printed_name"@);
    assert(ps[50].0 == "printed_text"@);
    assert(ps[51].0 == "printed_type_line"@);
    assert(ps[52].0 == "prints_search_uri"@);
    assert(ps[53].0 == "produced_mana"@);
    assert(ps[54].0 == "promo"@);
    assert(ps[55].0 == "promo_types"@);
    assert(ps[56].0 == "purchase_uris"@);
    assert(ps[57].0 == "rarity"@);
    assert(ps[58].0 == "related_uris"@);
    assert(ps[59].0 == "released_at"@);
    assert(ps[60].0 == "reprint"@);
    assert(ps[61].0 == "reserved"@);
    assert(ps[62].0 == "rulings_uri"@);
    assert(ps[63].0 == "scryfall_set_uri"@);
    assert(ps[64].0 == "scryfall_uri"@);
    assert(ps[65].0 == "security_stamp"@);
    assert(ps[66].0 == "set"@);
    assert(ps[67].0 == "set_id"@);
    assert(ps[68].0 == "set_name"@);
    assert(ps[69].0 == "set_search_uri"@);
    lemma_jobj_get_at(ps, "purchase_uris"@, 56);
    lemma_jobj_get_at(ps, "rarity"@, 57);
    lemma_jobj_get_at(ps, "related_uris"@, 58);
    lemma_jobj_get_at(ps, "released_at"@, 59);
    lemma_jobj_get_at(ps, "reprint"@, 60);
    lemma_jobj_get_at(ps, "reserved"@, 61);
    lemma_jobj_get_at(ps, "rulings_uri"@, 62);
    lemma_jobj_get_at(ps, "scryfall_set_uri"@, 63);
    lemma_jobj_get_at(ps, "scryfall_uri"@, 64);
    lemma_jobj_get_at(ps, "security_stamp"@, 65);
    lemma_jobj_get_at(ps, "set"@, 66);
    lemma_jobj_get_at(ps, "set_id"@, 67);
    lemma_jobj_get_at(ps, "set_name"@, 68);
    lemma_jobj_get_at(ps, "set_search_uri"@, 69);
}

#[verifier::rlimit(100)]
proof fn lemma_card_found_5(m: Card)
    ensures
        jobj_get(card_pairs(m), "set_type"@) == Some(card_pairs(m)[70].1),
        jobj_get(card_pairs(m), "set_uri"@) == Some(card_pairs(m)[71].1),
        jobj_get(card_pairs(m), "story_spotlight"@) == Some(card_pairs(m)[72].1),
        jobj_get(card_pairs(m), "tcgplayer_id"@) == Some(card_pairs(m)[73].1),
        jobj_get(card_pairs(m), "tcgplayer_etched_id"@) == Some(card_pairs(m)[74].1),
        jobj_get(card_pairs(m), "textless"@) == Some(card_pairs(m)[75].1),
        jobj_get(card_pairs(m), "toughness"@) == Some(card_pairs(m)[76].1),
        jobj_get(card_pairs(m), "type_line"@) == Some(card_pairs(m)[77].1),
        jobj_get(card_pairs(m), "uri"@) == Some(card_pairs(m)[78].1),
        jobj_get(card_pairs(m), "variation"@) == Some(card_pairs(m)[79].1),
        jobj_get(card_pairs(m), "variation_of"@) == Some(card_pairs(m)[80].1),
{
    reveal_strlit("all_parts");
    reveal_strlit("arena_id");
    reveal_strlit("artist");
    reveal_strlit("artist_ids");
    reveal_strlit("booster");
    reveal_strlit("border_color");
    reveal_strlit("card_back_id");
    reveal_strlit("card_faces");
    reveal_strlit("cardmarket_id");
    reveal_strlit("cmc");
    reveal_strlit("collector_number");
    reveal_strlit("color_identity");
    reveal_strlit("color_indicator");
    reveal_strlit("colors");
    reveal_strlit("content_warning");
    reveal_strlit("digital");
    reveal_strlit("edhrec_rank");
    reveal_strlit("finishes");
    reveal_strlit("flavor_name");
    reveal_strlit("flavor_text");
    reveal_strlit("foil");
    reveal_strlit("frame");
    reveal_strlit("full_art");
    reveal_strlit("games");
    reveal_strlit("hand_modifier");
    reveal_strlit("highres_image");
    reveal_strlit("id");
    reveal_strlit("illustration_id");
    reveal_strlit("image_status");
    reveal_strlit("image_uris");
    reveal_strlit("keywords");
    reveal_strlit("object");
    reveal_strlit("lang");
    reveal_strlit("layout");
    reveal_strlit("legalities");
    reveal_strlit("life_modifier");
    reveal_strlit("loyalty");
    reveal_strlit("mana_cost");
    reveal_strlit("mtgo_id");
    reveal_strlit("mtgo_foil_id");
    reveal_strlit("multiverse_ids");
    reveal_strlit("name");
    reveal_strlit("nonfoil");
    reveal_strlit("oracle_id");
    reveal_strlit("oracle_text");
    reveal_strlit("oversized");
    reveal_strlit("penny_rank");
    reveal_strlit("power");
    reveal_strlit("prices");
    reveal_strlit("printed_name");
    reveal_strlit("printed_text");
    reveal_strlit("printed_type_line");
    reveal_strlit("prints_search_uri");
    reveal_strlit("produced_mana");
    reveal_strlit("promo");
    reveal_strlit("promo_types");
    reveal_strlit("purchase_uris");
    reveal_strlit("rarity");
    reveal_strlit("related_uris");
    reveal_strlit("released_at");
    reveal_strlit("reprint");
    reveal_strlit("reserved");
    reveal_strlit("rulings_uri");
    reveal_strlit("scryfall_set_uri");
    reveal_strlit("scryfall_uri");
    reveal_strlit("security_stamp");
    reveal_strlit("set");
    reveal_strlit("set_id");
    reveal_strlit("set_name");
    reveal_strlit("set_search_uri");
    reveal_strlit("set_type");
    reveal_strlit("set_uri");
    reveal_strlit("story_spotlight");
    reveal_strlit("tcgplayer_id");
    reveal_strlit("tcgplayer_etched_id");
    reveal_strlit("textless");
    reveal_strlit("toughness");
    reveal_strlit("type_line");
    reveal_strlit("uri");
    reveal_strlit("variation");
    reveal_strlit("variation_of");
    assert("all_parts"@.len() == 9 && "all_parts"@[0] == 'a');
    assert("arena_id"@.len() == 8 && "arena_id"@[0] == 'a');
    assert("artist"@.len() == 6 && "artist"@[0] == 'a');
    assert("artist_ids"@.len() == 10 && "artist_ids"@[0] == 'a');
    assert("booster"@.len() == 7 && "booster"@[0] == 'b');
    assert("border_color"@.len() == 12 && "border_color"@[0] == 'b');
    assert("card_back_id"@.len() == 12 && "card_back_id"@[0] == 'c');
    assert("card_faces"@.len() == 10 && "card_faces"@[0] == 'c');
    assert("cardmarket_id"@.len() == 13 && "cardmarket_id"@[0] == 'c');
    assert("cmc"@.len() == 3 && "cmc"@[0] == 'c');
    assert("collector_number"@.len() == 16 && "collector_number"@[0] == 'c');
    assert("color_identity"@.len() == 14 && "color_identity"@[0] == 'c');
    assert("color_indicator"@.len() == 15 && "color_indicator"@[0] == 'c' && "color_indicator"@[2] == 'l');
    assert("colors"@.len() == 6 && "colors"@[0] == 'c');
    assert("content_warning"@.len() == 15 && "content_warning"@[0] == 'c' && "content_warning"@[2] == 'n');
    assert("digital"@.len() == 7 && "digital"@[0] == 'd');
    assert("edhrec_rank"@.len() == 11 && "edhrec_rank"@[0] == 'e');
    assert("finishes"@.len() == 8 && "finishes"@[0] == 'f' && "finishes"@[1] == 'i');
    assert("flavor_name"@.len() == 11 && "flavor_name"@[0] == 'f' && "flavor_name"@[7] == 'n');
    assert("flavor_text"@.len() == 11 && "flavor_text"@[0] == 'f' && "flavor_text"@[7] == 't');
    assert("foil"@.len() == 4 && "foil"@[0] == 'f');
    assert("frame"@.len() == 5 && "frame"@[0] == 'f');
    assert("full_art"@.len() == 8 && "full_art"@[0] == 'f' && "full_art"@[1] == 'u');
    assert("games"@.len() == 5 && "games"@[0] == 'g');
    assert("hand_modifier"@.len() == 13 && "hand_modifier"@[0] == 'h' && "hand_modifier"@[1] == 'a');
    assert("highres_image"@.len() == 13 && "highres_image"@[0] == 'h' && "highres_image"@[1] == 'i');
    assert("id"@.len() == 2 && "id"@[0] == 'i');
    assert("illustration_id"@.len() == 15 && "illustration_id"@[0] == 'i');
    assert("image_status"@.len() == 12 && "image_status"@[0] == 'i');
    assert("image_uris"@.len() == 10 && "image_uris"@[0] == 'i');
    assert("keywords"@.len() == 8 && "keywords"@[0] == 'k');
    assert("object"@.len() == 6 && "object"@[0] == 'o');
    assert("lang"@.len() == 4 && "lang"@[0] == 'l');
    assert("layout"@.len() == 6 && "layout"@[0] == 'l');
    assert("legalities"@.len() == 10 && "legalities"@[0] == 'l');
    assert("life_modifier"@.len() == 13 && "life_modifier"@[0] == 'l');
    assert("loyalty"@.len() == 7 && "loyalty"@[0] == 'l');
    assert("mana_cost"@.len() == 9 && "mana_cost"@[0] == 'm');
    assert("mtgo_id"@.len() == 7 && "mtgo_id"@[0] == 'm');
    assert("mtgo_foil_id"@.len() == 12 && "mtgo_foil_id"@[0] == 'm');
    assert("multiverse_ids"@.len() == 14 && "multiverse_ids"@[0] == 'm');
    assert("name"@.len() == 4 && "name"@[0] == 'n');
    assert("nonfoil"@.len() == 7 && "nonfoil"@[0] == 'n');
    assert("oracle_id"@.len() == 9 && "oracle_id"@[0] == 'o' && "oracle_id"@[1] == 'r');
    assert("oracle_text"@.len() == 11 && "oracle_text"@[0] == 'o');
    assert("oversized"@.len() == 9 && "oversized"@[0] == 'o' && "oversized"@[1] == 'v');
    assert("penny_rank"@.len() == 10 && "penny_rank"@[0] == 'p');
    assert("power"@.len() == 5 && "power"@[0] == 'p' && "power"@[1] == 'o');
    assert("prices"@.len() == 6 && "prices"@[0] == 'p');
    assert("printed_name"@.len() == 12 && "printed_name"@[0] == 'p' && "printed_name"@[8] == 'n');
    assert("printed_text"@.len() == 12 && "printed_text"@[0] == 'p' && "printed_text"@[8] == 't');
    assert("printed_type_line"@.len() == 17 && "printed_type_line"@[0] == 'p' && "printed_type_line"@[5] == 'e');
    assert("prints_search_uri"@.len() == 17 && "prints_search_uri"@[0] == 'p' && "prints_search_uri"@[5] == 's');
    assert("produced_mana"@.len() == 13 && "produced_mana"@[0] == 'p' && "produced_mana"@[1] == 'r');
    assert("promo"@.len() == 5 && "promo"@[0] == 'p' && "promo"@[1] == 'r');
    assert("promo_types"@.len() == 11 && "promo_types"@[0] == 'p');
    assert("purchase_uris"@.len() == 13 && "purchase_uris"@[0] == 'p' && "purchase_uris"@[1] == 'u');
    assert("rarity"@.len() == 6 && "rarity"@[0] == 'r');
    assert("related_uris"@.len() == 12 && "related_uris"@[0] == 'r');
    assert("released_at"@.len() == 11 && "released_at"@[0] == 'r' && "released_at"@[1] == 'e');
    assert("reprint"@.len() == 7 && "reprint"@[0] == 'r');
    assert("reserved"@.len() == 8 && "reserved"@[0] == 'r');
    assert("rulings_uri"@.len() == 11 && "rulings_uri"@[0] == 'r' && "rulings_uri"@[1] == 'u');
    assert("scryfall_set_uri"@.len() == 16 && "scryfall_set_uri"@[0] == 's');
    assert("scryfall_uri"@.len() == 12 && "scryfall_uri"@[0] == 's');
    assert("security_stamp"@.len() == 14 && "security_stamp"@[0] == 's' && "security_stamp"@[2] == 'c');
    assert("set"@.len() == 3 && "set"@[0] == 's');
    assert("set_id"@.len() == 6 && "set_id"@[0] == 's');
    assert("set_name"@.len() == 8 && "set_name"@[0] == 's' && "set_name"@[4] == 'n');
    assert("set_search_uri"@.len() == 14 && "set_search_uri"@[0] == 's' && "set_search_uri"@[2] == 't');
    assert("set_type"@.len() == 8 && "set_type"@[0] == 's' && "set_type"@[4] == 't');
    assert("set_uri"@.len() == 7 && "set_uri"@[0] == 's');
    assert("story_spotlight"@.len() == 15 && "story_spotlight"@[0] == 's');
    assert("tcgplayer_id"@.len() == 12 && "tcgplayer_id"@[0] == 't');
    assert("tcgplayer_etched_id"@.len() == 19 && "tcgplayer_etched_id"@[0] == 't');
    assert("textless"@.len() == 8 && "textless"@[0] == 't');
    assert("toughness"@.len() == 9 && "toughness"@[0] == 't' && "toughness"@[1] == 'o');
    assert("type_line"@.len() == 9 && "type_line"@[0] == 't' && "type_line"@[1] == 'y');
    assert("uri"@.len() == 3 && "uri"@[0] == 'u');
    assert("variation"@.len() == 9 && "variation"@[0] == 'v');
    assert("variation_of"@.len() == 12 && "variation_of"@[0] == 'v');
    let ps = card_pairs(m);
    assert(ps[0].0 == "all_parts"@);
    assert(ps[1].0 == "arena_id"@);
    assert(ps[2].0 == "artist"@);
    assert(ps[3].0 == "artist_ids"@);
    assert(ps[4].0 == "booster"@);
    assert(ps[5].0 == "border_color"@);
    assert(ps[6].0 == "card_back_id"@);
    assert(ps[7].0 == "card_faces"@);
    assert(ps[8].0 == "cardmarket_id"@);
    assert(ps[9].0 == "cmc"@);
    assert(ps[10].0 == "collector_number"@);
    assert(ps[11].0 == "color_identity"@);
    assert(ps[12].0 == "color_indicator"@);
    assert(ps[13].0 == "colors"@);
    assert(ps[14].0 == "content_warning"@);
    assert(ps[15].0 == "digital"@);
    assert(ps[16].0 == "edhrec_rank"@);
    assert(ps[17].0 == "finishes"@);
    assert(ps[18].0 == "flavor_name"@);
    assert(ps[19].0 == "flavor_text"@);
    assert(ps[20].0 == "foil"@);
    assert(ps[21].0 == "frame"@);
    assert(ps[22].0 == "full_art"@);
    assert(ps[23].0 == "games"@);
    assert(ps[24].0 == "hand_modifier"@);
    assert(ps[25].0 == "highres_image"@);
    assert(ps[26].0 == "id"@);
    assert(ps[27].0 == "illustration_id"@);
    assert(ps[28].0 == "image_status"@);
    assert(ps[29].0 == "image_uris"@);
    assert(ps[30].0 == "keywords"@);
    assert(ps[31].0 == "object"@);
    assert(ps[32].0 == "lang"@);
    assert(ps[33].0 == "layout"@);
    assert(ps[34].0 == "legalities"@);
    assert(ps[35].0 == "life_modifier"@);
    assert(ps[36].0 == "loyalty"@);
    assert(ps[37].0 == "mana_cost"@);
    assert(ps[38].0 == "mtgo_id"@);
    assert(ps[39].0 == "mtgo_foil_id"@);
    assert(ps[40].0 == "multiverse_ids"@);
    assert(ps[41].0 == "name"@);
    assert(ps[42].0 == "nonfoil"@);
    assert(ps[43].0 == "oracle_id"@);
    assert(ps[44].0 == "oracle_text"@);
    assert(ps[45].0 == "oversized"@);
    assert(ps[46].0 == "penny_rank"@);
    assert(ps[47].0 == "power"@);
    assert(ps[48].0 == "prices"@);
    assert(ps[49].0 == "printed_name"@);
    assert(ps[50].0 == "printed_text"@);
    assert(ps[51].0 == "printed_type_line"@);
    assert(ps[52].0 == "prints_search_uri"@);
    assert(ps[53].0 == "produced_mana"@);
    assert(ps[54].0 == "promo"@);
    assert(ps[55].0 == "promo_types"@);
    assert(ps[56].0 == "purchase_uris"@);
    assert(ps[57].0 == "rarity"@);
    assert(ps[58].0 == "related_uris"@);
    assert(ps[59].0 == "released_at"@);
    assert(ps[60].0 == "reprint"@);
    assert(ps[61].0 == "reserved"@);
    assert(ps[62].0 == "rulings_uri"@);
    assert(ps[63].0 == "scryfall_set_uri"@);
    assert(ps[64].0 == "scryfall_uri"@);
    assert(ps[65].0 == "security_stamp"@);
    assert(ps[66].0 == "set"@);
    assert(ps[67].0 == "set_id"@);
    assert(ps[68].0 == "set_name"@);
    assert(ps[69].0 == "set_search_uri"@);
    assert(ps[70].0 == "set_type"@);
    assert(ps[71].0 == "set_uri"@);
    assert(ps[72].0 == "story_spotlight"@);
    assert(ps[73].0 == "tcgplayer_id"@);
    assert(ps[74].0 == "tcgplayer_etched_id"@);
    assert(ps[75].0 == "textless"@);
    assert(ps[76].0 == "toughness"@);
    assert(ps[77].0 == "type_line"@);
    assert(ps[78].0 == "uri"@);
    assert(ps[79].0 == "variation"@);
    assert(ps[80].0 == "variation_of"@);
    lemma_jobj_get_at(ps, "set_type"@, 70);
    lemma_jobj_get_at(ps, "set_uri"@, 71);
    lemma_jobj_get_at(ps, "story_spotlight"@, 72);
    lemma_jobj_get_at(ps, "tcgplayer_id"@, 73);
    lemma_jobj_get_at(ps, "tcgplayer_etched_id"@, 74);
    lemma_jobj_get_at(ps, "textless"@, 75);
    lemma_jobj_get_at(ps, "toughness"@, 76);
    lemma_jobj_get_at(ps, "type_line"@, 77);
    lemma_jobj_get_at(ps, "uri"@, 78);
    lemma_jobj_get_at(ps, "variation"@, 79);
    lemma_jobj_get_at(ps, "variation_of"@, 80);
}

/// Law: the canonical tree of a valid Card carries exactly
/// that value, so decoding what it encodes to yields its data back.
#[verifier::rlimit(100)]
pub proof fn lemma_card_round_trip(m: Card)
    ensures
        m.inv() ==> m.matches_tree(m.tree_spec()),
{
    if m.inv() {
        lemma_card_found_0(m);
        lemma_card_found_1(m);
        lemma_card_found_2(m);
        lemma_card_found_3(m);
        lemma_card_found_4(m);
        lemma_card_found_5(m);
        let ps = card_pairs(m);
        match m.all_parts {
            Some(x) => {
                let tv = x@.map_values(|x: RelatedCard| x.tree_spec());
                assert forall|i2: int| 0 <= i2 < tv.len() implies (#[trigger] x@[i2]).matches_tree(tv[i2]) by {
                    assert(x@[i2].inv());
                    assert(tv[i2] == x@[i2].tree_spec());
                    lemma_related_card_round_trip(x@[i2]);
                }
                assert(x.matches_tree(x.tree_spec()));
            },
            None => {},
        }
        let tv = m.artist_ids@.map_values(|x: UuidText| x.tree_spec());
        assert forall|i2: int| 0 <= i2 < tv.len() implies (#[trigger] m.artist_ids@[i2]).matches_tree(tv[i2]) by {
            assert(m.artist_ids@[i2].inv());
            assert(tv[i2] == m.artist_ids@[i2].tree_spec());
        }
        assert(m.artist_ids.matches_tree(m.artist_ids.tree_spec()));
        match m.card_faces {
            Some(x) => {
                let tv = x@.map_values(|x: CardFace| x.tree_spec());
                assert forall|i2: int| 0 <= i2 < tv.len() implies (#[trigger] x@[i2]).matches_tree(tv[i2]) by {
                    assert(x@[i2].inv());
                    assert(tv[i2] == x@[i2].tree_spec());
                    lemma_card_face_round_trip(x@[i2]);
                }
                assert(x.matches_tree(x.tree_spec()));
            },
            None => {},
        }
        let tv = m.color_identity@.map_values(|x: ColorSymbol| x.tree_spec());
        assert forall|i2: int| 0 <= i2 < tv.len() implies (#[trigger] m.color_identity@[i2]).matches_tree(tv[i2]) by {
            assert(m.color_identity@[i2].inv());
            assert(tv[i2] == m.color_identity@[i2].tree_spec());
        }
        assert(m.color_identity.matches_tree(m.color_identity.tree_spec()));
        match m.color_indicator {
            Some(x) => {
                let tv = x@.map_values(|x: ColorSymbol| x.tree_spec());
                assert forall|i2: int| 0 <= i2 < tv.len() implies (#[trigger] x@[i2]).matches_tree(tv[i2]) by {
                    assert(x@[i2].inv());
                    assert(tv[i2] == x@[i2].tree_spec());
                }
                assert(x.matches_tree(x.tree_spec()));
            },
            None => {},
        }
        match m.colors {
            Some(x) => {
                let tv = x@.map_values(|x: ColorSymbol| x.tree_spec());
                assert forall|i2: int| 0 <= i2 < tv.len() implies (#[trigger] x@[i2]).matches_tree(tv[i2]) by {
                    assert(x@[i2].inv());
                    assert(tv[i2] == x@[i2].tree_spec());
                }
                assert(x.matches_tree(x.tree_spec()));
            },
            None => {},
        }
        let tv = m.finishes@.map_values(|x: CardFinish| x.tree_spec());
        assert forall|i2: int| 0 <= i2 < tv.len() implies (#[trigger] m.finishes@[i2]).matches_tree(tv[i2]) by {
            assert(m.finishes@[i2].inv());
            assert(tv[i2] == m.finishes@[i2].tree_spec());
        }
        assert(m.finishes.matches_tree(m.finishes.tree_spec()));
        let tv = m.games@.map_values(|x: GameKind| x.tree_spec());
        assert forall|i2: int| 0 <= i2 < tv.len() implies (#[trigger] m.games@[i2]).matches_tree(tv[i2]) by {
            assert(m.games@[i2].inv());
            assert(tv[i2] == m.games@[i2].tree_spec());
        }
        assert(m.games.matches_tree(m.games.tree_spec()));
        match m.image_uris {
            Some(x) => {
                lemma_image_uris_model_round_trip(x);
                assert(x.matches_tree(x.tree_spec()));
            },
            None => {},
        }
        let tv = m.keywords@.map_values(|x: String| x.tree_spec());
        assert forall|i2: int| 0 <= i2 < tv.len() implies (#[trigger] m.keywords@[i2]).matches_tree(tv[i2]) by {
            assert(m.keywords@[i2].inv());
            assert(tv[i2] == m.keywords@[i2].tree_spec());
        }
        assert(m.keywords.matches_tree(m.keywords.tree_spec()));
        lemma_legalities_model_round_trip(m.legalities);
        assert(m.legalities.matches_tree(m.legalities.tree_spec()));
        match m.multiverse_ids {
            Some(x) => {
                let tv = x@.map_values(|x: i32| x.tree_spec());
                assert forall|i2: int| 0 <= i2 < tv.len() implies (#[trigger] x@[i2]).matches_tree(tv[i2]) by {
                    assert(x@[i2].inv());
                    assert(tv[i2] == x@[i2].tree_spec());
                }
                assert(x.matches_tree(x.tree_spec()));
            },
            None => {},
        }
        lemma_prices_model_round_trip(m.prices);
        assert(m.prices.matches_tree(m.prices.tree_spec()));
        match m.produced_mana {
            Some(x) => {
                let tv = x@.map_values(|x: ColorSymbol| x.tree_spec());
                assert forall|i2: int| 0 <= i2 < tv.len() implies (#[trigger] x@[i2]).matches_tree(tv[i2]) by {
                    assert(x@[i2].inv());
                    assert(tv[i2] == x@[i2].tree_spec());
                }
                assert(x.matches_tree(x.tree_spec()));
            },
            None => {},
        }
        match m.promo_types {
            Some(x) => {
                let tv = x@.map_values(|x: String| x.tree_spec());
                assert forall|i2: int| 0 <= i2 < tv.len() implies (#[trigger] x@[i2]).matches_tree(tv[i2]) by {
                    assert(x@[i2].inv());
                    assert(tv[i2] == x@[i2].tree_spec());
                }
                assert(x.matches_tree(x.tree_spec()));
            },
            None => {},
        }
        match m.purchase_uris {
            Some(x) => {
                lemma_purchase_uris_model_round_trip(x);
                assert(x.matches_tree(x.tree_spec()));
            },
            None => {},
        }
        match m.related_uris {
            Some(x) => {
                lemma_related_uris_model_round_trip(x);
                assert(x.matches_tree(x.tree_spec()));
            },
            None => {},
        }
    }
}

impl Card {
    /// Two values carry the same data: every member reads back equal.
    pub open spec fn same_data(&self, other: &Card) -> bool {
        &&& match (self.all_parts, other.all_parts) { (Some(va), Some(vb)) => va@.len() == vb@.len() && (forall|i: int| 0 <= i < va@.len() ==> (#[trigger] va@[i]).same_data(&vb@[i])), (None, None) => true, _ => false }
        &&& match (self.arena_id, other.arena_id) { (Some(va), Some(vb)) => va == vb, (None, None) => true, _ => false }
        &&& match (self.artist, other.artist) { (Some(va), Some(vb)) => va@ == vb@, (None, None) => true, _ => false }
        &&& self.artist_ids@.len() == other.artist_ids@.len() && (forall|i: int| #![auto] 0 <= i < self.artist_ids@.len() ==> self.artist_ids@[i].0@ == other.artist_ids@[i].0@)
        &&& self.booster == other.booster
        &&& self.border_color@ == other.border_color@
        &&& match (self.card_back_id, other.card_back_id) { (Some(va), Some(vb)) => va.0@ == vb.0@, (None, None) => true, _ => false }
        &&& match (self.card_faces, other.card_faces) { (Some(va), Some(vb)) => va@.len() == vb@.len() && (forall|i: int| 0 <= i < va@.len() ==> (#[trigger] va@[i]).same_data(&vb@[i])), (None, None) => true, _ => false }
        &&& match (self.cardmarket_id, other.cardmarket_id) { (Some(va), Some(vb)) => va == vb, (None, None) => true, _ => false }
        &&& self.cmc.0@ == other.cmc.0@
        &&& self.collector_number@ == other.collector_number@
        &&& self.color_identity@ == other.color_identity@
        &&& match (self.color_indicator, other.color_indicator) { (Some(va), Some(vb)) => va@ == vb@, (None, None) => true, _ => false }
        &&& match (self.colors, other.colors) { (Some(va), Some(vb)) => va@ == vb@, (None, None) => true, _ => false }
        &&& match (self.content_warning, other.content_warning) { (Some(va), Some(vb)) => va == vb, (None, None) => true, _ => false }
        &&& self.digital == other.digital
        &&& match (self.edhrec_rank, other.edhrec_rank) { (Some(va), Some(vb)) => va == vb, (None, None) => true, _ => false }
        &&& self.finishes@ == other.finishes@
        &&& match (self.flavor_name, other.flavor_name) { (Some(va), Some(vb)) => va@ == vb@, (None, None) => true, _ => false }
        &&& match (self.flavor_text, other.flavor_text) { (Some(va), Some(vb)) => va@ == vb@, (None, None) => true, _ => false }
        &&& self.foil == other.foil
        &&& self.frame@ == other.frame@
        &&& self.full_art == other.full_art
        &&& self.games@ == other.games@
        &&& match (self.hand_modifier, other.hand_modifier) { (Some(va), Some(vb)) => va@ == vb@, (None, None) => true, _ => false }
        &&& self.highres_image == other.highres_image
        &&& self.id.0@ == other.id.0@
        &&& match (self.illustration_id, other.illustration_id) { (Some(va), Some(vb)) => va.0@ == vb.0@, (None, None) => true, _ => false }
        &&& self.image_status == other.image_status
        &&& match (self.image_uris, other.image_uris) { (Some(va), Some(vb)) => va.same_data(&vb), (None, None) => true, _ => false }
        &&& self.keywords@.len() == other.keywords@.len() && (forall|i: int| #![auto] 0 <= i < self.keywords@.len() ==> self.keywords@[i]@ == other.keywords@[i]@)
        &&& self.kind == other.kind
        &&& self.lang@ == other.lang@
        &&& self.layout == other.layout
        &&& self.legalities.same_data(&other.legalities)
        &&& match (self.life_modifier, other.life_modifier) { (Some(va), Some(vb)) => va@ == vb@, (None, None) => true, _ => false }
        &&& match (self.loyalty, other.loyalty) { (Some(va), Some(vb)) => va@ == vb@, (None, None) => true, _ => false }
        &&& match (self.mana_cost, other.mana_cost) { (Some(va), Some(vb)) => va@ == vb@, (None, None) => true, _ => false }
        &&& match (self.mtgo_id, other.mtgo_id) { (Some(va), Some(vb)) => va == vb, (None, None) => true, _ => false }
        &&& match (self.mtgo_foil_id, other.mtgo_foil_id) { (Some(va), Some(vb)) => va == vb, (None, None) => true, _ => false }
        &&& match (self.multiverse_ids, other.multiverse_ids) { (Some(va), Some(vb)) => va@ == vb@, (None, None) => true, _ => false }
        &&& self.name@ == other.name@
        &&& self.nonfoil == other.nonfoil
        &&& self.oracle_id.0@ == other.oracle_id.0@
        &&& match (self.oracle_text, other.oracle_text) { (Some(va), Some(vb)) => va@ == vb@, (None, None) => true, _ => false }
        &&& self.oversized == other.oversized
        &&& match (self.penny_rank, other.penny_rank) { (Some(va), Some(vb)) => va == vb, (None, None) => true, _ => false }
        &&& match (self.power, other.power) { (Some(va), Some(vb)) => va@ == vb@, (None, None) => true, _ => false }
        &&& self.prices.same_data(&other.prices)
        &&& match (self.printed_name, other.printed_name) { (Some(va), Some(vb)) => va@ == vb@, (None, None) => true, _ => false }
        &&& match (self.printed_text, other.printed_text) { (Some(va), Some(vb)) => va@ == vb@, (None, None) => true, _ => false }
        &&& match (self.printed_type_line, other.printed_type_line) { (Some(va), Some(vb)) => va@ == vb@, (None, None) => true, _ => false }
        &&& self.prints_search_uri.0@ == other.prints_search_uri.0@
        &&& match (self.produced_mana, other.produced_mana) { (Some(va), Some(vb)) => va@ == vb@, (None, None) => true, _ => false }
        &&& self.promo == other.promo
        &&& match (self.promo_types, other.promo_types) { (Some(va), Some(vb)) => va@.len() == vb@.len() && (forall|i: int| #![auto] 0 <= i < va@.len() ==> va@[i]@ == vb@[i]@), (None, None) => true, _ => false }
        &&& match (self.purchase_uris, other.purchase_uris) { (Some(va), Some(vb)) => va.same_data(&vb), (None, None) => true, _ => false }
        &&& self.rarity == other.rarity
        &&& match (self.related_uris, other.related_uris) { (Some(va), Some(vb)) => va.same_data(&vb), (None, None) => true, _ => false }
        &&& self.released_at.0@ == other.released_at.0@
        &&& self.reprint == other.reprint
        &&& self.reserved == other.reserved
        &&& self.rulings_uri.0@ == other.rulings_uri.0@
        &&& self.scryfall_set_uri.0@ == other.scryfall_set_uri.0@
        &&& self.scryfall_uri.0@ == other.scryfall_uri.0@
        &&& match (self.security_stamp, other.security_stamp) { (Some(va), Some(vb)) => va@ == vb@, (None, None) => true, _ => false }
        &&& self.set@ == other.set@
        &&& self.set_id@ == other.set_id@
        &&& self.set_name@ == other.set_name@
        &&& self.set_search_uri.0@ == other.set_search_uri.0@
        &&& self.set_type@ == other.set_type@
        &&& self.set_uri.0@ == other.set_uri.0@
        &&& self.story_spotlight == other.story_spotlight
        &&& match (self.tcgplayer_id, other.tcgplayer_id) { (Some(va), Some(vb)) => va == vb, (None, None) => true, _ => false }
        &&& match (self.tcgplayer_etched_id, other.tcgplayer_etched_id) { (Some(va), Some(vb)) => va == vb, (None, None) => true, _ => false }
        &&& self.textless == other.textless
        &&& match (self.toughness, other.toughness) { (Some(va), Some(vb)) => va@ == vb@, (None, None) => true, _ => false }
        &&& self.type_line@ == other.type_line@
        &&& self.uri.0@ == other.uri.0@
        &&& self.variation == other.variation
        &&& match (self.variation_of, other.variation_of) { (Some(va), Some(vb)) => va.0@ == vb.0@, (None, None) => true, _ => false }
    }
}

/// Law: a tree determines the data it carries; two values matching one
/// tree carry the same data.
#[verifier::rlimit(100)]
pub proof fn lemma_card_decode_functional(a: Card, b: Card, t: JVal)
    ensures
        a.matches_tree(t) && b.matches_tree(t) ==> a.same_data(&b),
{
    if a.matches_tree(t) && b.matches_tree(t) {
        let ps = t->Obj_0;
        match (a.all_parts, b.all_parts) {
            (Some(va), Some(vb)) => {
                match jobj_get(ps, "all_parts"@) {
                    Some(JVal::Arr(av)) => {
                        assert forall|i2: int| 0 <= i2 < av.len() implies (#[trigger] va@[i2]).same_data(&vb@[i2]) by {
                            assert(va@[i2].matches_tree(av[i2]));
                            assert(vb@[i2].matches_tree(av[i2]));
                            lemma_related_card_decode_functional(va@[i2], vb@[i2], av[i2]);
                        }
                    },
                    _ => {},
                }
            },
            _ => {},
        }
        match jobj_get(ps, "artist_ids"@) {
            Some(JVal::Arr(av)) => {
                assert forall|i2: int| 0 <= i2 < av.len() implies #[trigger] a.artist_ids@[i2].0@ == b.artist_ids@[i2].0@ by {
                    assert(a.artist_ids@[i2].matches_tree(av[i2]));
                    assert(b.artist_ids@[i2].matches_tree(av[i2]));
                }
            },
            _ => {},
        }
        match (a.card_faces, b.card_faces) {
            (Some(va), Some(vb)) => {
                match jobj_get(ps, "card_faces"@) {
                    Some(JVal::Arr(av)) => {
                        assert forall|i2: int| 0 <= i2 < av.len() implies (#[trigger] va@[i2]).same_data(&vb@[i2]) by {
                            assert(va@[i2].matches_tree(av[i2]));
                            assert(vb@[i2].matches_tree(av[i2]));
                            lemma_card_face_decode_functional(va@[i2], vb@[i2], av[i2]);
                        }
                    },
                    _ => {},
                }
            },
            _ => {},
        }
        match jobj_get(ps, "color_identity"@) {
            Some(JVal::Arr(av)) => {
                assert forall|i2: int| 0 <= i2 < av.len() implies a.color_identity@[i2] == b.color_identity@[i2] by {
                    assert(a.color_identity@[i2].matches_tree(av[i2]));
                    assert(b.color_identity@[i2].matches_tree(av[i2]));
                    lemma_color_symbol_str_injective(a.color_identity@[i2], b.color_identity@[i2]);
                }
                assert(a.color_identity@ =~= b.color_identity@);
            },
            _ => {},
        }
        match (a.color_indicator, b.color_indicator) {
            (Some(va), Some(vb)) => {
                match jobj_get(ps, "color_indicator"@) {
                    Some(JVal::Arr(av)) => {
                        assert forall|i2: int| 0 <= i2 < av.len() implies va@[i2] == vb@[i2] by {
                            assert(va@[i2].matches_tree(av[i2]));
                            assert(vb@[i2].matches_tree(av[i2]));
                            lemma_color_symbol_str_injective(va@[i2], vb@[i2]);
                        }
                        assert(va@ =~= vb@);
                    },
                    _ => {},
                }
            },
            _ => {},
        }
        match (a.colors, b.colors) {
            (Some(va), Some(vb)) => {
                match jobj_get(ps, "colors"@) {
                    Some(JVal::Arr(av)) => {
                        assert forall|i2: int| 0 <= i2 < av.len() implies va@[i2] == vb@[i2] by {
                            assert(va@[i2].matches_tree(av[i2]));
                            assert(vb@[i2].matches_tree(av[i2]));
                            lemma_color_symbol_str_injective(va@[i2], vb@[i2]);
                        }
                        assert(va@ =~= vb@);
                    },
                    _ => {},
                }
            },
            _ => {},
        }
        match jobj_get(ps, "finishes"@) {
            Some(JVal::Arr(av)) => {
                assert forall|i2: int| 0 <= i2 < av.len() implies a.finishes@[i2] == b.finishes@[i2] by {
                    assert(a.finishes@[i2].matches_tree(av[i2]));
                    assert(b.finishes@[i2].matches_tree(av[i2]));
                    lemma_card_finish_str_injective(a.finishes@[i2], b.finishes@[i2]);
                }
                assert(a.finishes@ =~= b.finishes@);
            },
            _ => {},
        }
        match jobj_get(ps, "games"@) {
            Some(JVal::Arr(av)) => {
                assert forall|i2: int| 0 <= i2 < av.len() implies a.games@[i2] == b.games@[i2] by {
                    assert(a.games@[i2].matches_tree(av[i2]));
                    assert(b.games@[i2].matches_tree(av[i2]));
                    lemma_game_kind_str_injective(a.games@[i2], b.games@[i2]);
                }
                assert(a.games@ =~= b.games@);
            },
            _ => {},
        }
        lemma_image_status_str_injective(a.image_status, b.image_status);
        match (a.image_uris, b.image_uris) {
            (Some(va), Some(vb)) => {
                match jobj_get(ps, "image_uris"@) {
                    Some(v) => lemma_image_uris_model_decode_functional(va, vb, v),
                    None => {},
                }
            },
            _ => {},
        }
        match jobj_get(ps, "keywords"@) {
            Some(JVal::Arr(av)) => {
                assert forall|i2: int| 0 <= i2 < av.len() implies #[trigger] a.keywords@[i2]@ == b.keywords@[i2]@ by {
                    assert(a.keywords@[i2].matches_tree(av[i2]));
                    assert(b.keywords@[i2].matches_tree(av[i2]));
                }
            },
            _ => {},
        }
        lemma_kind_str_injective(a.kind, b.kind);
        lemma_layout_str_injective(a.layout, b.layout);
        match jobj_get(ps, "legalities"@) {
            Some(v) => lemma_legalities_model_decode_functional(a.legalities, b.legalities, v),
            None => {},
        }
        match (a.multiverse_ids, b.multiverse_ids) {
            (Some(va), Some(vb)) => {
                match jobj_get(ps, "multiverse_ids"@) {
                    Some(JVal::Arr(av)) => {
                        assert forall|i2: int| 0 <= i2 < av.len() implies va@[i2] == vb@[i2] by {
                            assert(va@[i2].matches_tree(av[i2]));
                            assert(vb@[i2].matches_tree(av[i2]));
                        }
                        assert(va@ =~= vb@);
                    },
                    _ => {},
                }
            },
            _ => {},
        }
        match jobj_get(ps, "prices"@) {
            Some(v) => lemma_prices_model_decode_functional(a.prices, b.prices, v),
            None => {},
        }
        match (a.produced_mana, b.produced_mana) {
            (Some(va), Some(vb)) => {
                match jobj_get(ps, "produced_mana"@) {
                    Some(JVal::Arr(av)) => {
                        assert forall|i2: int| 0 <= i2 < av.len() implies va@[i2] == vb@[i2] by {
                            assert(va@[i2].matches_tree(av[i2]));
                            assert(vb@[i2].matches_tree(av[i2]));
                            lemma_color_symbol_str_injective(va@[i2], vb@[i2]);
                        }
                        assert(va@ =~= vb@);
                    },
                    _ => {},
                }
            },
            _ => {},
        }
        match (a.promo_types, b.promo_types) {
            (Some(va), Some(vb)) => {
                match jobj_get(ps, "promo_types"@) {
                    Some(JVal::Arr(av)) => {
                        assert forall|i2: int| 0 <= i2 < av.len() implies #[trigger] va@[i2]@ == vb@[i2]@ by {
                            assert(va@[i2].matches_tree(av[i2]));
                            assert(vb@[i2].matches_tree(av[i2]));
                        }
                    },
                    _ => {},
                }
            },
            _ => {},
        }
        match (a.purchase_uris, b.purchase_uris) {
            (Some(va), Some(vb)) => {
                match jobj_get(ps, "purchase_uris"@) {
                    Some(v) => lemma_purchase_uris_model_decode_functional(va, vb, v),
                    None => {},
                }
            },
            _ => {},
        }
        lemma_rarity_str_injective(a.rarity, b.rarity);
        match (a.related_uris, b.related_uris) {
            (Some(va), Some(vb)) => {
                match jobj_get(ps, "related_uris"@) {
                    Some(v) => lemma_related_uris_model_decode_functional(va, vb, v),
                    None => {},
                }
            },
            _ => {},
        }
    }
}

/// One page of a card search.
#[derive(Debug)]
pub struct CardPage {
    pub data: Vec<Card>,
    pub has_more: bool,
    pub kind: ResourceKind,
    pub next_page: Option<UrlText>,
    pub total_cards: i64,
}

/// The members of the tree a CardPage encodes to, in wire order.
pub open spec fn card_page_pairs(m: CardPage) -> Seq<(Seq<char>, JVal)> {
    seq![
        ("data"@, m.data.tree_spec()),
        ("has_more"@, m.has_more.tree_spec()),
        ("object"@, m.kind.tree_spec()),
        ("next_page"@, opt_tree(m.next_page)),
        ("total_cards"@, m.total_cards.tree_spec()),
    ]
}

impl ApiModel for CardPage {
    open spec fn inv(&self) -> bool {
        &&& self.data.inv()
        &&& opt_inv(self.next_page)
    }

    open spec fn matches_tree(&self, t: JVal) -> bool {
        &&& t matches JVal::Obj(ps)
        &&& field_like(ps, "data"@, self.data)
        &&& field_like(ps, "has_more"@, self.has_more)
        &&& field_like(ps, "object"@, self.kind)
        &&& opt_field_like(ps, "next_page"@, self.next_page)
        &&& field_like(ps, "total_cards"@, self.total_cards)
    }

    open spec fn tree_spec(&self) -> JVal {
        JVal::Obj(card_page_pairs(*self))
    }

    fn from_tree(t: &JsonValue) -> (r: Option<Self>) {
        match t {
            JsonValue::Obj(ps) => {
                proof {
                    assert(t@ == JVal::Obj(jpairs_of(ps@)));
                }
                let data = match read_field::<Vec<Card>>(ps, "data") {
                    Some(x) => x,
                    None => {
                        return None;
                    },
                };
                let has_more = match read_field::<bool>(ps, "has_more") {
                    Some(x) => x,
                    None => {
                        return None;
                    },
                };
                let kind = match read_field::<ResourceKind>(ps, "object") {
                    Some(x) => x,
                    None => {
                        return None;
                    },
                };
                let next_page = match read_opt::<UrlText>(ps, "next_page") {
                    Some(x) => x,
                    None => {
                        return None;
                    },
                };
                let total_cards = match read_field::<i64>(ps, "total_cards") {
                    Some(x) => x,
                    None => {
                        return None;
                    },
                };
                Some(CardPage { data, has_more, kind, next_page, total_cards })
            },
            _ => None,
        }
    }

    fn to_tree(&self) -> (t: JsonValue) {
        let mut ps: Vec<(String, JsonValue)> = Vec::new();
        ps.push(("data".to_owned(), self.data.to_tree()));
        ps.push(("has_more".to_owned(), self.has_more.to_tree()));
        ps.push(("object".to_owned(), self.kind.to_tree()));
        ps.push(("next_page".to_owned(), opt_to_tree(&self.next_page)));
        ps.push(("total_cards".to_owned(), self.total_cards.to_tree()));
        let r = JsonValue::Obj(ps);
        proof {
            assert(jpairs_of(ps@) =~= card_page_pairs(*self));
        }
        r
    }
}


/// A member holding a string, whatever its text.
pub open spec fn no_str_at(ps: Seq<(Seq<char>, JVal)>, key: Seq<char>) -> bool {
    forall|x: Seq<char>| jobj_get(ps, key) != Some(JVal::Str(x))
}

/// No member holding an integer in `u32` range stands at `key`.
pub open spec fn no_u32_at(ps: Seq<(Seq<char>, JVal)>, key: Seq<char>) -> bool {
    forall|v: i64| 0 <= v <= 4294967295i64 ==> jobj_get(ps, key) != Some(JVal::Int(v))
}

/// Reads a member holding a string, saying so exactly when it fails.
fn get_str_member(ps: &Vec<(String, JsonValue)>, key: &str) -> (r: Option<String>)
    ensures
        match r {
            Some(s) => jobj_get(jpairs_of(ps@), key@) == Some(JVal::Str(s@)),
            None => no_str_at(jpairs_of(ps@), key@),
        },
{
    match obj_get(ps, key) {
        Some(v) => match v {
            JsonValue::Str(s) => Some(s.clone()),
            _ => None,
        },
        None => None,
    }
}

/// Reads a member holding an integer in `u32` range, saying so exactly
/// when it fails.
fn get_u32_member(ps: &Vec<(String, JsonValue)>, key: &str) -> (r: Option<u32>)
    ensures
        match r {
            Some(v) => jobj_get(jpairs_of(ps@), key@) == Some(JVal::Int(v as i64)),
            None => no_u32_at(jpairs_of(ps@), key@),
        },
{
    match obj_get(ps, key) {
        Some(v) => match v {
            JsonValue::Int(i) => {
                if 0i64 <= *i && *i <= 4294967295i64 {
                    Some(*i as u32)
                } else {
                    None
                }
            },
            _ => None,
        },
        None => None,
    }
}

/// One way to identify a card in a collection lookup.
///
/// On the wire an identifier is an object carrying only the relevant
/// members, with no type tag. Decoding tries the variants in their
/// declared order and keeps the first whose members are present, as an
/// untagged union does; a `set`-and-`name` object therefore reads back as
/// the name variant.
#[derive(Debug)]
#[allow(inconsistent_fields)]
pub enum CardIdentifier {
    /// A card by illustration id (preferred scans).
    IllustrationId { val: String },
    /// A card by MTGO id.
    MtgoId { val: String },
    /// A card by multiverse id.
    MutliverseId { val: u32 },
    /// A card by name (newest print).
    Name { val: String },
    /// A card by oracle id.
    OracleId { val: String },
    /// A card by scryfall id.
    ScryfallId { val: String },
    /// A card by set code and card name.
    SetAndName { set: String, name: String },
    /// A card by set code and collector number.
    SetAndNumber { set: String, number: String },
}

impl ApiModel for CardIdentifier {
    open spec fn inv(&self) -> bool {
        true
    }

    open spec fn matches_tree(&self, t: JVal) -> bool {
        &&& t matches JVal::Obj(ps)
        &&& match *self {
            CardIdentifier::IllustrationId { val } => field_like(ps, "illustration_id"@, val),
            CardIdentifier::MtgoId { val } => no_str_at(ps, "illustration_id"@) && field_like(
                ps,
                "mtgo_id"@,
                val,
            ),
            CardIdentifier::MutliverseId { val } => no_str_at(ps, "illustration_id"@) && no_str_at(
                ps,
                "mtgo_id"@,
            ) && field_like(ps, "multiverse_id"@, val),
            CardIdentifier::Name { val } => no_str_at(ps, "illustration_id"@) && no_str_at(
                ps,
                "mtgo_id"@,
            ) && no_u32_at(ps, "multiverse_id"@) && field_like(ps, "name"@, val),
            CardIdentifier::OracleId { val } => no_str_at(ps, "illustration_id"@) && no_str_at(
                ps,
                "mtgo_id"@,
            ) && no_u32_at(ps, "multiverse_id"@) && no_str_at(ps, "name"@) && field_like(
                ps,
                "oracle_id"@,
                val,
            ),
            CardIdentifier::ScryfallId { val } => no_str_at(ps, "illustration_id"@) && no_str_at(
                ps,
                "mtgo_id"@,
            ) && no_u32_at(ps, "multiverse_id"@) && no_str_at(ps, "name"@) && no_str_at(
                ps,
                "oracle_id"@,
            ) && field_like(ps, "id"@, val),
            CardIdentifier::SetAndName { set, name } => no_str_at(ps, "illustration_id"@)
                && no_str_at(ps, "mtgo_id"@) && no_u32_at(ps, "multiverse_id"@) && no_str_at(
                ps,
                "name"@,
            ) && no_str_at(ps, "oracle_id"@) && no_str_at(ps, "id"@) && field_like(
                ps,
                "set"@,
                set,
            ) && field_like(ps, "name"@, name),
            CardIdentifier::SetAndNumber { set, number } => no_str_at(ps, "illustration_id"@)
                && no_str_at(ps, "mtgo_id"@) && no_u32_at(ps, "multiverse_id"@) && no_str_at(
                ps,
                "name"@,
            ) && no_str_at(ps, "oracle_id"@) && no_str_at(ps, "id"@) && field_like(
                ps,
                "set"@,
                set,
            ) && field_like(ps, "collector_number"@, number),
        }
    }

    open spec fn tree_spec(&self) -> JVal {
        match *self {
            CardIdentifier::IllustrationId { val } => JVal::Obj(
                seq![("illustration_id"@, JVal::Str(val@))],
            ),
            CardIdentifier::MtgoId { val } => JVal::Obj(seq![("mtgo_id"@, JVal::Str(val@))]),
            CardIdentifier::MutliverseId { val } => JVal::Obj(
                seq![("multiverse_id"@, JVal::Int(val as i64))],
            ),
            CardIdentifier::Name { val } => JVal::Obj(seq![("name"@, JVal::Str(val@))]),
            CardIdentifier::OracleId { val } => JVal::Obj(seq![("oracle_id"@, JVal::Str(val@))]),
            CardIdentifier::ScryfallId { val } => JVal::Obj(seq![("id"@, JVal::Str(val@))]),
            CardIdentifier::SetAndName { set, name } => JVal::Obj(
                seq![("set"@, JVal::Str(set@)), ("name"@, JVal::Str(name@))],
            ),
            CardIdentifier::SetAndNumber { set, number } => JVal::Obj(
                seq![("set"@, JVal::Str(set@)), ("collector_number"@, JVal::Str(number@))],
            ),
        }
    }

    fn from_tree(t: &JsonValue) -> (r: Option<Self>) {
        match t {
            JsonValue::Obj(ps) => {
                proof {
                    assert(t@ == JVal::Obj(jpairs_of(ps@)));
                }
                if let Some(val) = get_str_member(ps, "illustration_id") {
                    return Some(CardIdentifier::IllustrationId { val });
                }
                if let Some(val) = get_str_member(ps, "mtgo_id") {
                    return Some(CardIdentifier::MtgoId { val });
                }
                if let Some(val) = get_u32_member(ps, "multiverse_id") {
                    return Some(CardIdentifier::MutliverseId { val });
                }
                if let Some(val) = get_str_member(ps, "name") {
                    return Some(CardIdentifier::Name { val });
                }
                if let Some(val) = get_str_member(ps, "oracle_id") {
                    return Some(CardIdentifier::OracleId { val });
                }
                if let Some(val) = get_str_member(ps, "id") {
                    return Some(CardIdentifier::ScryfallId { val });
                }
                match (get_str_member(ps, "set"), get_str_member(ps, "collector_number")) {
                    (Some(set), Some(number)) => Some(CardIdentifier::SetAndNumber { set, number }),
                    _ => None,
                }
            },
            _ => None,
        }
    }

    fn to_tree(&self) -> (t: JsonValue) {
        match self {
            CardIdentifier::IllustrationId { val } => {
                let mut ps: Vec<(String, JsonValue)> = Vec::new();
                ps.push(("illustration_id".to_owned(), JsonValue::Str(val.clone())));
                let r = JsonValue::Obj(ps);
                proof {
                    assert(jpairs_of(ps@) =~= seq![("illustration_id"@, JVal::Str(val@))]);
                }
                r
            },
            CardIdentifier::MtgoId { val } => {
                let mut ps: Vec<(String, JsonValue)> = Vec::new();
                ps.push(("mtgo_id".to_owned(), JsonValue::Str(val.clone())));
                let r = JsonValue::Obj(ps);
                proof {
                    assert(jpairs_of(ps@) =~= seq![("mtgo_id"@, JVal::Str(val@))]);
                }
                r
            },
            CardIdentifier::MutliverseId { val } => {
                let mut ps: Vec<(String, JsonValue)> = Vec::new();
                ps.push(("multiverse_id".to_owned(), JsonValue::Int(*val as i64)));
                let r = JsonValue::Obj(ps);
                proof {
                    assert(jpairs_of(ps@) =~= seq![("multiverse_id"@, JVal::Int(*val as i64))]);
                }
                r
            },
            CardIdentifier::Name { val } => {
                let mut ps: Vec<(String, JsonValue)> = Vec::new();
                ps.push(("name".to_owned(), JsonValue::Str(val.clone())));
                let r = JsonValue::Obj(ps);
                proof {
                    assert(jpairs_of(ps@) =~= seq![("name"@, JVal::Str(val@))]);
                }
                r
            },
            CardIdentifier::OracleId { val } => {
                let mut ps: Vec<(String, JsonValue)> = Vec::new();
                ps.push(("oracle_id".to_owned(), JsonValue::Str(val.clone())));
                let r = JsonValue::Obj(ps);
                proof {
                    assert(jpairs_of(ps@) =~= seq![("oracle_id"@, JVal::Str(val@))]);
                }
                r
            },
            CardIdentifier::ScryfallId { val } => {
                let mut ps: Vec<(String, JsonValue)> = Vec::new();
                ps.push(("id".to_owned(), JsonValue::Str(val.clone())));
                let r = JsonValue::Obj(ps);
                proof {
                    assert(jpairs_of(ps@) =~= seq![("id"@, JVal::Str(val@))]);
                }
                r
            },
            CardIdentifier::SetAndName { set, name } => {
                let mut ps: Vec<(String, JsonValue)> = Vec::new();
                ps.push(("set".to_owned(), JsonValue::Str(set.clone())));
                ps.push(("name".to_owned(), JsonValue::Str(name.clone())));
                let r = JsonValue::Obj(ps);
                proof {
                    assert(jpairs_of(ps@) =~= seq![
                        ("set"@, JVal::Str(set@)),
                        ("name"@, JVal::Str(name@)),
                    ]);
                }
                r
            },
            CardIdentifier::SetAndNumber { set, number } => {
                let mut ps: Vec<(String, JsonValue)> = Vec::new();
                ps.push(("set".to_owned(), JsonValue::Str(set.clone())));
                ps.push(("collector_number".to_owned(), JsonValue::Str(number.clone())));
                let r = JsonValue::Obj(ps);
                proof {
                    assert(jpairs_of(ps@) =~= seq![
                        ("set"@, JVal::Str(set@)),
                        ("collector_number"@, JVal::Str(number@)),
                    ]);
                }
                r
            },
        }
    }
}

/// The request body of the collection lookup: a sequence of identifiers.
#[derive(Debug)]
pub struct CardIdentifiers {
    pub identifiers: Vec<CardIdentifier>,
}

/// The members of the tree a CardIdentifiers encodes to, in wire order.
pub open spec fn card_identifiers_pairs(m: CardIdentifiers) -> Seq<(Seq<char>, JVal)> {
    seq![
        ("identifiers"@, m.identifiers.tree_spec()),
    ]
}

impl ApiModel for CardIdentifiers {
    open spec fn inv(&self) -> bool {
        self.identifiers.inv()
    }

    open spec fn matches_tree(&self, t: JVal) -> bool {
        &&& t matches JVal::Obj(ps)
        &&& field_like(ps, "identifiers"@, self.identifiers)
    }

    open spec fn tree_spec(&self) -> JVal {
        JVal::Obj(card_identifiers_pairs(*self))
    }

    fn from_tree(t: &JsonValue) -> (r: Option<Self>) {
        match t {
            JsonValue::Obj(ps) => {
                proof {
                    assert(t@ == JVal::Obj(jpairs_of(ps@)));
                }
                let identifiers = match read_field::<Vec<CardIdentifier>>(ps, "identifiers") {
                    Some(x) => x,
                    None => {
                        return None;
                    },
                };
                Some(CardIdentifiers { identifiers })
            },
            _ => None,
        }
    }

    fn to_tree(&self) -> (t: JsonValue) {
        let mut ps: Vec<(String, JsonValue)> = Vec::new();
        ps.push(("identifiers".to_owned(), self.identifiers.to_tree()));
        let r = JsonValue::Obj(ps);
        proof {
            assert(jpairs_of(ps@) =~= card_identifiers_pairs(*self));
        }
        r
    }
}


/// The outcome of a collection lookup: the cards found, and the identifiers that were not.
#[derive(Debug)]
pub struct CardCollection {
    pub kind: ResourceKind,
    pub not_found: Vec<CardIdentifier>,
    pub cards: Vec<Card>,
}

/// The members of the tree a CardCollection encodes to, in wire order.
pub open spec fn card_collection_pairs(m: CardCollection) -> Seq<(Seq<char>, JVal)> {
    seq![
        ("object"@, m.kind.tree_spec()),
        ("not_found"@, m.not_found.tree_spec()),
        ("data"@, m.cards.tree_spec()),
    ]
}

impl ApiModel for CardCollection {
    open spec fn inv(&self) -> bool {
        &&& self.not_found.inv()
        &&& self.cards.inv()
    }

    open spec fn matches_tree(&self, t: JVal) -> bool {
        &&& t matches JVal::Obj(ps)
        &&& field_like(ps, "object"@, self.kind)
        &&& field_like(ps, "not_found"@, self.not_found)
        &&& field_like(ps, "data"@, self.cards)
    }

    open spec fn tree_spec(&self) -> JVal {
        JVal::Obj(card_collection_pairs(*self))
    }

    fn from_tree(t: &JsonValue) -> (r: Option<Self>) {
        match t {
            JsonValue::Obj(ps) => {
                proof {
                    assert(t@ == JVal::Obj(jpairs_of(ps@)));
                }
                let kind = match read_field::<ResourceKind>(ps, "object") {
                    Some(x) => x,
                    None => {
                        return None;
                    },
                };
                let not_found = match read_field::<Vec<CardIdentifier>>(ps, "not_found") {
                    Some(x) => x,
                    None => {
                        return None;
                    },
                };
                let cards = match read_field::<Vec<Card>>(ps, "data") {
                    Some(x) => x,
                    None => {
                        return None;
                    },
                };
                Some(CardCollection { kind, not_found, cards })
            },
            _ => None,
        }
    }

    fn to_tree(&self) -> (t: JsonValue) {
        let mut ps: Vec<(String, JsonValue)> = Vec::new();
        ps.push(("object".to_owned(), self.kind.to_tree()));
        ps.push(("not_found".to_owned(), self.not_found.to_tree()));
        ps.push(("data".to_owned(), self.cards.to_tree()));
        let r = JsonValue::Obj(ps);
        proof {
            assert(jpairs_of(ps@) =~= card_collection_pairs(*self));
        }
        r
    }
}


} // verus!
