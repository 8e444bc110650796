use scryfall_sdk_rust::resources::bulk_data::{BulkDataListResource, BulkDataResource};
use scryfall_sdk_rust::resources::card_sets::{CardSetListResource, CardSetResource};
use scryfall_sdk_rust::resources::card_symbols::{CardSymbolsResource, ManaCostResource};
use scryfall_sdk_rust::resources::cards::{
    CardCatalogResource, CardCollectionResource, CardIdentifier, CardIdentifiers,
    CardPageResource, CardResource, OrderDirection, OrderField, SearchQueryParams, UniqueMode,
};
use scryfall_sdk_rust::resources::catalog::CatalogResource;
use scryfall_sdk_rust::resources::rulings::RulingListResource;
use scryfall_sdk_rust::resources::Method;
use scryfall_sdk_rust::HttpResource;

#[test]
fn card_resource_should_return_path_and_method() {
    assert_eq!("cards/123", CardResource::ById("123").path());
    assert_eq!("cards/arena/123", CardResource::ByArenaId("123").path());
    assert_eq!("cards/cardmarket/123", CardResource::ByCardmarketId("123").path());
    assert_eq!("cards/123/456", CardResource::ByCode("123", "456").path());
    assert_eq!("cards/mtgo/123", CardResource::ByMtgoId("123").path());
    assert_eq!("cards/multiverse/123", CardResource::ByMultiverseId("123").path());
    assert_eq!("cards/tcgplayer/123", CardResource::ByTcgplayerId("123").path());
    assert_eq!("cards/named?exact=name", CardResource::NamedExact("name").path());
    assert_eq!("cards/named?fuzzy=name", CardResource::NamedFuzzy("name").path());
    assert_eq!("cards/random", CardResource::Random(None).path());
    assert_eq!("cards/random?q=name", CardResource::Random(Some("name")).path());
    assert_eq!(Method::Get, CardResource::ById("123").method());
}

#[test]
fn card_page_resource_should_return_path_and_method() {
    let resource = CardPageResource::Search(SearchQueryParams::with_q("test"));
    assert_eq!("cards/search?q=test", resource.path());
    assert_eq!(Method::Get, resource.method());
}

#[test]
fn card_catalog_resource_should_return_path_and_method() {
    let resource = CardCatalogResource::Autocomplete("test");
    assert_eq!("cards/autocomplete?q=test", resource.path());
    assert_eq!(Method::Get, resource.method());
}

#[test]
fn card_collection_resource_should_return_path_method_and_json_body() {
    let resource = CardCollectionResource::WithIdentifiers(CardIdentifiers {
        identifiers: vec![CardIdentifier::ScryfallId { val: "123".to_owned() }],
    });

    assert_eq!("cards/collection", resource.path());
    assert_eq!(Method::Post, resource.method());
    assert_eq!(
        String::from("{\"identifiers\":[{\"id\":\"123\"}]}"),
        resource.json().unwrap()
    );
}

#[test]
fn card_collection_body_covers_every_identifier() {
    let resource = CardCollectionResource::WithIdentifiers(CardIdentifiers {
        identifiers: vec![
            CardIdentifier::IllustrationId { val: "i1".to_owned() },
            CardIdentifier::MtgoId { val: "m1".to_owned() },
            CardIdentifier::MutliverseId { val: 42 },
            CardIdentifier::Name { val: "Lightning Bolt".to_owned() },
            CardIdentifier::OracleId { val: "o1".to_owned() },
            CardIdentifier::SetAndName { set: "dmu".to_owned(), name: "Shock".to_owned() },
            CardIdentifier::SetAndNumber { set: "dmu".to_owned(), number: "7".to_owned() },
        ],
    });
    let expected = "{\"identifiers\":[\
{\"illustration_id\":\"i1\"},\
{\"mtgo_id\":\"m1\"},\
{\"multiverse_id\":42},\
{\"name\":\"Lightning Bolt\"},\
{\"oracle_id\":\"o1\"},\
{\"set\":\"dmu\",\"name\":\"Shock\"},\
{\"set\":\"dmu\",\"collector_number\":\"7\"}]}";
    assert_eq!(expected, resource.json().unwrap());
}

#[test]
fn search_query_params_should_parse_as_query_string() {
    let all_off = SearchQueryParams::with_q("q");
    assert_eq!("?q=q", all_off.as_query_str());

    let all_on = SearchQueryParams {
        q: "q".to_owned(),
        unique: Some(UniqueMode::default()),
        order: Some(OrderField::default()),
        dir: Some(OrderDirection::default()),
        include_extras: Some(true),
        include_multilingual: Some(true),
        include_variations: Some(true),
        page: Some(1),
    };
    assert_eq!(
        "?q=q&unique=cards&order=name&dir=auto&include_extras=true\
         &include_multilingual=true&include_variations=true&page=1",
        all_on.as_query_str()
    );
}

#[test]
fn catalog_resource_should_return_path_and_method() {
    assert_eq!("catalog/ability-words", CatalogResource::AbilityWords.path());
    assert_eq!("catalog/artifact-types", CatalogResource::ArtifactTypes.path());
    assert_eq!("catalog/artist-names", CatalogResource::ArtistNames.path());
    assert_eq!("catalog/card-names", CatalogResource::CardNames.path());
    assert_eq!("catalog/creature-types", CatalogResource::CreatureTypes.path());
    assert_eq!("catalog/enchantment-types", CatalogResource::EnchantmentTypes.path());
    assert_eq!("catalog/keyword-abilities", CatalogResource::KeywordAbilities.path());
    assert_eq!("catalog/keyword-actions", CatalogResource::KeywordActions.path());
    assert_eq!("catalog/land-types", CatalogResource::LandTypes.path());
    assert_eq!("catalog/loyalties", CatalogResource::Loyalties.path());
    assert_eq!("catalog/planeswalker-types", CatalogResource::PlaneswalkerTypes.path());
    assert_eq!("catalog/powers", CatalogResource::Powers.path());
    assert_eq!("catalog/spell-types", CatalogResource::SpellTypes.path());
    assert_eq!("catalog/toughnesses", CatalogResource::Toughnesses.path());
    assert_eq!("catalog/watermarks", CatalogResource::Watermarks.path());
    assert_eq!("catalog/word-bank", CatalogResource::WordBank.path());
    assert_eq!(Method::Get, CatalogResource::WordBank.method());
}

#[test]
fn card_set_list_resource_should_return_path_and_method() {
    let resource = CardSetListResource::All;
    assert_eq!("sets", resource.path());
    assert_eq!(Method::Get, resource.method());
}

#[test]
fn card_set_resource_should_return_path_and_method() {
    assert_eq!("sets/id", CardSetResource::Filter("id").path());
    assert_eq!("sets/tcgplayer/id", CardSetResource::WithTcgPlayerId("id").path());
    assert_eq!(Method::Get, CardSetResource::Filter("id").method());
}

#[test]
fn card_symbols_resource_should_return_path_and_method() {
    let resource = CardSymbolsResource;
    assert_eq!("symbology", resource.path());
    assert_eq!(Method::Get, resource.method());
}

#[test]
fn mana_cost_resource_should_return_path_and_method() {
    let resource = ManaCostResource("test");

    assert_eq!("symbology/parse-mana?cost=test", resource.path());
    assert_eq!(Method::Get, resource.method());
}

#[test]
fn mana_cost_resource_path_without_query() {
    let resource = ManaCostResource("1b");
    assert_eq!("symbology/parse-mana?cost=1b", resource.path());
    assert_eq!("symbology/parse-mana", resource.path_without_query());
}

#[test]
fn path_without_query_keeps_plain_paths_and_is_idempotent() {
    let resource = CardSymbolsResource;
    assert_eq!("symbology", resource.path_without_query());
    let once = ManaCostResource("x?y").path_without_query();
    assert_eq!("symbology/parse-mana", once);
}

#[test]
fn bulk_data_resource_should_return_path_and_method() {
    assert_eq!("bulk-data", BulkDataListResource::All.path());
    assert_eq!(Method::Get, BulkDataListResource::All.method());
    assert_eq!("bulk-data/id", BulkDataResource::Filter("id").path());
    assert_eq!(Method::Get, BulkDataResource::Filter("id").method());
}

#[test]
fn ruling_list_resource_should_return_path_and_method() {
    assert_eq!("cards/id/rulings", RulingListResource::ByCardId("id").path());
    assert_eq!("cards/code/123/rulings", RulingListResource::BySetCode("code", 123).path());
    assert_eq!("cards/arena/123/rulings", RulingListResource::ByArenaId(123).path());
    assert_eq!("cards/mtgo/123/rulings", RulingListResource::ByMtgoId(123).path());
    assert_eq!(
        "cards/multiverse/123/rulings",
        RulingListResource::ByMultiverseId(123).path()
    );
    assert_eq!(Method::Get, RulingListResource::ByCardId("id").method());
}
