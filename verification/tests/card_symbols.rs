use scryfall_sdk_rust::model::{ApiModel, NumberText, UrlText};
use scryfall_sdk_rust::render::render_json;
use scryfall_sdk_rust::resources::card_symbols::{
    CardSymbol, CardSymbolList, ColorSymbol, ManaCost,
};
use scryfall_sdk_rust::client::decode_body;
use scryfall_sdk_rust::ResourceKind;

fn symbol_list() -> CardSymbolList {
    CardSymbolList {
        kind: ResourceKind::List,
        has_more: false,
        data: vec![CardSymbol {
            kind: ResourceKind::CardSymbol,
            symbol: "{B}".into(),
            svg_uri: UrlText("https://c2.scryfall.com/file/scryfall-symbols/card-symbols/B.svg".into()),
            loose_variant: Some("B".into()),
            english: "one black mana".into(),
            transposable: false,
            represents_mana: true,
            appears_in_mana_costs: true,
            cmc: Some(NumberText("1.0".into())),
            funny: false,
            colors: vec![ColorSymbol::B],
            gatherer_alternates: None,
        }],
    }
}

fn mana_cost() -> ManaCost {
    ManaCost {
        kind: ResourceKind::ManaCost,
        cost: "{1}{B}".into(),
        colors: vec![ColorSymbol::B],
        cmc: 2,
        colorless: false,
        monocolored: true,
        multicolored: false,
    }
}

#[test]
fn card_symbol_list_decodes_from_wire_text() {
    let body = render_json(&symbol_list().to_tree());
    let response: CardSymbolList =
        decode_body(&body).expect("Expected a valid CardSymbolList response");
    assert_eq!(render_json(&symbol_list().to_tree()), render_json(&response.to_tree()));
}

#[test]
fn mana_cost_decodes_from_wire_text() {
    let body = render_json(&mana_cost().to_tree());
    let response: ManaCost = decode_body(&body).expect("Expected a valid ManaCost response");
    assert_eq!(render_json(&mana_cost().to_tree()), render_json(&response.to_tree()));
}

#[test]
fn card_symbol_accepts_integer_cmc() {
    let body = render_json(&symbol_list().to_tree()).replace("\"cmc\":1.0", "\"cmc\":1");
    let response: CardSymbolList =
        decode_body(&body).expect("an integral cmc must decode");
    assert_eq!("1", response.data[0].cmc.as_ref().unwrap().0);
}
