use scryfall_sdk_rust::client::decode_body;
use scryfall_sdk_rust::model::{ApiModel, DateText};
use scryfall_sdk_rust::render::render_json;
use scryfall_sdk_rust::resources::rulings::{Ruling, RulingList};
use scryfall_sdk_rust::ResourceKind;

fn ruling_list() -> RulingList {
    RulingList {
        kind: ResourceKind::List,
        has_more: false,
        data: vec![Ruling {
            kind: ResourceKind::Ruling,
            oracle_id: "afa49a09-146f-4439-850e-dd1938c93fef".into(),
            source: "wotc".into(),
            published_at: DateText("2004-10-04".into()),
            comment: "It must be exactly one word.".into(),
        }],
    }
}

#[test]
fn ruling_list_decodes_from_wire_text() {
    let body = render_json(&ruling_list().to_tree());
    let response: RulingList = decode_body(&body).expect("Expected a valid RulingList response");
    assert_eq!(render_json(&ruling_list().to_tree()), render_json(&response.to_tree()));
}
