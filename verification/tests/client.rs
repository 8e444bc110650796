use scryfall_sdk_rust::client::decode_body;
use scryfall_sdk_rust::resources::catalog::{Catalog, CatalogResource};
use scryfall_sdk_rust::resources::errors::ErrorBody;
use scryfall_sdk_rust::{ResourceKind, ScryfallBlocking};

fn error_json() -> String {
    String::from(
        "{\n    \"object\": \"error\",\n    \"code\": \"not_found\",\n    \
\"status\": 404,\n    \"details\": \
\"No card found with the given ID or set code and collector number.\"\n}\n",
    )
}

#[test]
fn client_decodes_a_success_body() {
    let catalog_json = r#"{"object": "catalog", "total_values": 1, "data": ["7"]}"#;

    let response: Catalog = decode_body(catalog_json).unwrap();
    assert_eq!(ResourceKind::Catalog, response.kind);
    assert_eq!(1, response.total_values);
    assert_eq!(vec!["7".to_owned()], response.data);
    assert!(response.uri.is_none());
}

#[test]
fn client_passes_a_vendor_error_on() {
    let error_response: ErrorBody = decode_body::<Catalog>(&error_json()).unwrap_err();
    assert_eq!("not_found", error_response.code);
    assert_eq!(
        "No card found with the given ID or set code and collector number.",
        error_response.details
    );
    assert_eq!(404, error_response.status);
    assert_eq!(ResourceKind::Error, error_response.kind);
    assert!(error_response.error_type.is_none());
    assert!(error_response.warnings.is_none());
}

#[test]
fn client_maps_transport_failure_to_client_err() {
    let client = ScryfallBlocking::from_url("http://127.0.0.1:9");

    let error_response: ErrorBody =
        client.request::<Catalog, _>(&CatalogResource::Powers).unwrap_err();
    assert_eq!("CLIENT_ERR", error_response.code);
    assert_eq!(599, error_response.status);
    assert_eq!(ResourceKind::Error, error_response.kind);
}
