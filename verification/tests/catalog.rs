use scryfall_sdk_rust::client::decode_body;
use scryfall_sdk_rust::model::{ApiModel, UrlText};
use scryfall_sdk_rust::render::render_json;
use scryfall_sdk_rust::resources::catalog::Catalog;
use scryfall_sdk_rust::ResourceKind;

fn catalog() -> Catalog {
    Catalog {
        kind: ResourceKind::Catalog,
        uri: Some(UrlText("https://api.scryfall.com/catalog/land-types".into())),
        total_values: 3,
        data: vec!["Desert".into(), "Forest".into(), "Gate".into()],
    }
}

#[test]
fn catalog_decodes_from_wire_text() {
    let body = render_json(&catalog().to_tree());
    let response: Catalog = decode_body(&body).expect("Expected a valid Catalog response");
    assert_eq!(render_json(&catalog().to_tree()), render_json(&response.to_tree()));
}

#[test]
fn catalog_without_uri_decodes() {
    let body = "{\"object\":\"catalog\",\"total_values\":1,\"data\":[\"Flying\"]}";
    let response: Catalog = decode_body(body).expect("Expected a valid Catalog response");
    assert!(response.uri.is_none());
    assert_eq!(vec!["Flying".to_owned()], response.data);
}
