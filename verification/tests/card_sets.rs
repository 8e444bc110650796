use scryfall_sdk_rust::model::{ApiModel, DateText, UrlText};
use scryfall_sdk_rust::render::render_json;
use scryfall_sdk_rust::resources::card_sets::{CardSet, CardSetList, SetKind};
use scryfall_sdk_rust::client::decode_body;
use scryfall_sdk_rust::ResourceKind;

fn card_set() -> CardSet {
    CardSet {
        item_kind: ResourceKind::CardSet,
        id: "b314f553-8f07-4ba9-96c8-16be7784eff3".into(),
        code: "unf".into(),
        mtgo_code: None,
        arena_code: None,
        name: "Unfinity".into(),
        uri: UrlText("https://api.scryfall.com/sets/unf".into()),
        scryfall_uri: UrlText("https://scryfall.com/sets/unf".into()),
        search_uri: UrlText("https://api.scryfall.com/cards/search?q=e%3Aunf".into()),
        released_at: DateText("2022-12-31".into()),
        kind: SetKind::Funny,
        card_count: 26,
        digital: false,
        nonfoil_only: false,
        foil_only: false,
        icon_svg_uri: UrlText("https://c2.scryfall.com/file/scryfall-symbols/sets/unf.svg".into()),
        tcgplayer_id: Some(2958),
        parent_set_code: None,
        block_code: None,
        block: None,
    }
}

#[test]
fn card_set_list_decodes_from_wire_text() {
    let list = CardSetList { kind: ResourceKind::List, has_more: false, data: vec![card_set()] };
    let body = render_json(&list.to_tree());
    let response: CardSetList = decode_body(&body).expect("Expected a valid CardSetList response");
    assert_eq!(render_json(&list.to_tree()), render_json(&response.to_tree()));
}

#[test]
fn card_set_decodes_from_wire_text() {
    let body = render_json(&card_set().to_tree());
    let response: CardSet = decode_body(&body).expect("Expected a valid CardSet response");
    assert_eq!(render_json(&card_set().to_tree()), render_json(&response.to_tree()));
}

#[test]
fn card_set_rejects_unknown_set_type() {
    let body = render_json(&card_set().to_tree()).replace("\"funny\"", "\"brand_new_kind\"");
    let response: Result<CardSet, _> = decode_body(&body);
    let e = response.expect_err("an unknown set kind must not decode");
    assert_eq!("CLIENT_ERR", e.code);
    assert_eq!(599, e.status);
}
