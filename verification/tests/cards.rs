use scryfall_sdk_rust::model::{ApiModel, DateText, NumberText, UrlText, UuidText};
use scryfall_sdk_rust::render::render_json;
use scryfall_sdk_rust::resources::card_symbols::ColorSymbol;
use scryfall_sdk_rust::resources::cards::{
    Card, CardFace, CardFinish, CardPage, GameKind, ImageStatus, ImageUris, Layout, Legalities,
    Legality, Prices, PurchaseUris, Rarity, RelatedCard, RelatedUris,
};
use scryfall_sdk_rust::client::decode_body;
use scryfall_sdk_rust::ResourceKind;

fn image_uris() -> ImageUris {
    ImageUris {
        art_crop: UrlText("https://example.com/art".to_owned()),
        border_crop: UrlText("https://example.com/border".to_owned()),
        large: UrlText("https://example.com/large".to_owned()),
        normal: UrlText("https://example.com/normal".to_owned()),
        png: UrlText("https://example.com/png".to_owned()),
        small: UrlText("https://example.com/small".to_owned()),
    }
}

fn legalities() -> Legalities {
    Legalities {
        alchemy: Legality::Legal,
        brawl: Legality::Legal,
        commander: Legality::Legal,
        duel: Legality::Legal,
        explorer: Legality::Legal,
        future: Legality::Legal,
        gladiator: Legality::Legal,
        historic: Legality::Legal,
        historicbrawl: Legality::Legal,
        legacy: Legality::Legal,
        modern: Legality::Legal,
        oldschool: Legality::Legal,
        pauper: Legality::Legal,
        paupercommander: Legality::Legal,
        penny: Legality::Legal,
        pioneer: Legality::Legal,
        premodern: Legality::Legal,
        standard: Legality::Legal,
        vintage: Legality::Legal,
    }
}

fn prices() -> Prices {
    Prices {
        eur: Some("1.10".to_owned()),
        eur_foil: None,
        tix: Some("0.03".to_owned()),
        usd: Some("1.25".to_owned()),
        usd_etched: None,
        usd_foil: Some("4.50".to_owned()),
    }
}

fn purchase_uris() -> PurchaseUris {
    PurchaseUris {
        cardhoarder: UrlText("https://example.com/cardhoarder".to_owned()),
        cardmarket: UrlText("https://example.com/cardmarket".to_owned()),
        tcgplayer: UrlText("https://example.com/tcgplayer".to_owned()),
    }
}

fn related_uris() -> RelatedUris {
    RelatedUris {
        edhrec: Some(UrlText("https://example.com/edhrec".to_owned())),
        gatherer: None,
        tcgplayer_infinite_articles: None,
        tcgplayer_infinite_decks: None,
    }
}

fn related_card() -> RelatedCard {
    RelatedCard {
        component: "combo_piece".to_owned(),
        id: UuidText("27bf3214-1271-490b-bdfe-c0be6c23d02e".to_owned()),
        kind: ResourceKind::Card,
        name: "Other Half".to_owned(),
        type_line: "Creature".to_owned(),
        uri: UrlText("https://example.com/other".to_owned()),
    }
}

fn card_face() -> CardFace {
    CardFace {
        artist: Some("Someone".to_owned()),
        artist_id: Some(UuidText("27bf3214-1271-490b-bdfe-c0be6c23d02e".to_owned())),
        cmc: Some(NumberText("2.0".to_owned())),
        color_indicator: None,
        colors: Some(vec![ColorSymbol::G]),
        flavor_name: None,
        flavor_text: Some("A story.".to_owned()),
        illustration_id: None,
        image_uris: Some(image_uris()),
        kind: ResourceKind::CardFace,
        layout: Some(Layout::Normal),
        loyalty: None,
        mana_cost: "{1}{G}".to_owned(),
        name: "Front".to_owned(),
        oracle_id: None,
        oracle_text: Some("Do a thing.".to_owned()),
        power: Some("2".to_owned()),
        printed_name: None,
        printed_text: None,
        printed_type_line: None,
        toughness: Some("2".to_owned()),
        type_line: Some("Creature".to_owned()),
        watermark: None,
    }
}

fn card() -> Card {
    Card {
        all_parts: Some(vec![related_card()]),
        arena_id: Some(5),
        artist: Some("artist_text".to_owned()),
        artist_ids: vec![UuidText("27bf3214-1271-490b-bdfe-c0be6c23d02e".to_owned())],
        booster: true,
        border_color: "border_color_text".to_owned(),
        card_back_id: Some(UuidText("27bf3214-1271-490b-bdfe-c0be6c23d02e".to_owned())),
        card_faces: Some(vec![card_face()]),
        cardmarket_id: Some(5),
        cmc: NumberText("3.0".to_owned()),
        collector_number: "collector_number_text".to_owned(),
        color_identity: vec![ColorSymbol::G],
        color_indicator: Some(vec![ColorSymbol::G]),
        colors: Some(vec![ColorSymbol::G]),
        content_warning: Some(true),
        digital: true,
        edhrec_rank: Some(7),
        finishes: vec![CardFinish::NonFoil],
        flavor_name: Some("flavor_name_text".to_owned()),
        flavor_text: Some("flavor_text_text".to_owned()),
        foil: true,
        frame: "frame_text".to_owned(),
        full_art: true,
        games: vec![GameKind::Paper],
        hand_modifier: Some("hand_modifier_text".to_owned()),
        highres_image: true,
        id: UuidText("27bf3214-1271-490b-bdfe-c0be6c23d02e".to_owned()),
        illustration_id: Some(UuidText("27bf3214-1271-490b-bdfe-c0be6c23d02e".to_owned())),
        image_status: ImageStatus::HighresScan,
        image_uris: Some(image_uris()),
        keywords: vec!["word".to_owned()],
        kind: ResourceKind::Card,
        lang: "lang_text".to_owned(),
        layout: Layout::Normal,
        legalities: legalities(),
        life_modifier: Some("life_modifier_text".to_owned()),
        loyalty: Some("loyalty_text".to_owned()),
        mana_cost: Some("mana_cost_text".to_owned()),
        mtgo_id: Some(5),
        mtgo_foil_id: Some(5),
        multiverse_ids: Some(vec![11, 12]),
        name: "name_text".to_owned(),
        nonfoil: true,
        oracle_id: UuidText("27bf3214-1271-490b-bdfe-c0be6c23d02e".to_owned()),
        oracle_text: Some("oracle_text_text".to_owned()),
        oversized: true,
        penny_rank: Some(7),
        power: Some("power_text".to_owned()),
        prices: prices(),
        printed_name: Some("printed_name_text".to_owned()),
        printed_text: Some("printed_text_text".to_owned()),
        printed_type_line: Some("printed_type_line_text".to_owned()),
        prints_search_uri: UrlText("https://example.com/x".to_owned()),
        produced_mana: Some(vec![ColorSymbol::G]),
        promo: true,
        promo_types: Some(vec!["word".to_owned()]),
        purchase_uris: Some(purchase_uris()),
        rarity: Rarity::Rare,
        related_uris: Some(related_uris()),
        released_at: DateText("2015-01-22".to_owned()),
        reprint: true,
        reserved: true,
        rulings_uri: UrlText("https://example.com/x".to_owned()),
        scryfall_set_uri: UrlText("https://example.com/x".to_owned()),
        scryfall_uri: UrlText("https://example.com/x".to_owned()),
        security_stamp: Some("security_stamp_text".to_owned()),
        set: "set_text".to_owned(),
        set_id: "set_id_text".to_owned(),
        set_name: "set_name_text".to_owned(),
        set_search_uri: UrlText("https://example.com/x".to_owned()),
        set_type: "set_type_text".to_owned(),
        set_uri: UrlText("https://example.com/x".to_owned()),
        story_spotlight: true,
        tcgplayer_id: Some(5),
        tcgplayer_etched_id: Some(5),
        textless: true,
        toughness: Some("toughness_text".to_owned()),
        type_line: "type_line_text".to_owned(),
        uri: UrlText("https://example.com/x".to_owned()),
        variation: true,
        variation_of: Some(UuidText("27bf3214-1271-490b-bdfe-c0be6c23d02e".to_owned())),
    }
}

#[test]
fn card_decode_encode_round_trip() {
    let c = card();
    let back = Card::from_tree(&c.to_tree()).expect("the encoding must decode");
    assert_eq!(render_json(&c.to_tree()), render_json(&back.to_tree()));
}

#[test]
fn card_decodes_from_wire_text() {
    let body = render_json(&card().to_tree());
    let response: Card = decode_body(&body).expect("Expected a valid Card response");
    assert_eq!(render_json(&card().to_tree()), render_json(&response.to_tree()));
}

#[test]
fn card_page_decodes_from_wire_text() {
    let page = CardPage {
        data: vec![card()],
        has_more: false,
        kind: ResourceKind::List,
        next_page: None,
        total_cards: 1,
    };
    let body = render_json(&page.to_tree());
    let response: CardPage = decode_body(&body).expect("Expected a valid CardPage response");
    assert_eq!(render_json(&page.to_tree()), render_json(&response.to_tree()));
}

#[test]
fn card_rejects_bad_identifier() {
    let body = render_json(&card().to_tree()).replace(
        "27bf3214-1271-490b-bdfe-c0be6c23d02e",
        "not-an-identifier",
    );
    let response: Result<Card, _> = decode_body(&body);
    let e = response.expect_err("a bad identifier must not decode");
    assert_eq!("CLIENT_ERR", e.code);
    assert_eq!(599, e.status);
}
