use scryfall_sdk_rust::client::decode_body;
use scryfall_sdk_rust::model::{ApiModel, TimestampText, UrlText};
use scryfall_sdk_rust::render::render_json;
use scryfall_sdk_rust::resources::bulk_data::{BulkData, BulkDataKind, BulkDataList};
use scryfall_sdk_rust::ResourceKind;

fn response_entry() -> String {
    String::from(
        "{\n  \"object\": \"bulk_data\",\n  \"id\": \"27bf3214-1271-490b-bdfe-c0be6c23d02e\",\n  \
\"type\": \"oracle_cards\",\n  \"updated_at\": \"2022-06-18T09:02:10.928+00:00\",\n  \
\"uri\": \"https://some-url.com\",\n  \"name\": \"Oracle Cards\",\n  \
\"description\": \"A description\",\n  \"compressed_size\": 13976935,\n  \
\"download_uri\": \"https://some-url.com\",\n  \"content_type\": \"application/json\",\n  \
\"content_encoding\": \"gzip\"\n}\n",
    )
}

fn response_list() -> String {
    let mut body = String::from("{ \"object\": \"list\", \"has_more\": false, \"data\": [");
    body.push_str(&response_entry());
    body.push_str("] }");
    body
}

fn bulk_data() -> BulkData {
    BulkData {
        item_kind: ResourceKind::BulkData,
        id: "27bf3214-1271-490b-bdfe-c0be6c23d02e".into(),
        kind: BulkDataKind::OracleCards,
        updated_at: TimestampText("2022-06-18T09:02:10.928+00:00".into()),
        uri: UrlText("https://some-url.com".into()),
        name: "Oracle Cards".into(),
        description: "A description".into(),
        compressed_size: 13976935,
        download_uri: UrlText("https://some-url.com".into()),
        content_type: "application/json".into(),
        content_encoding: "gzip".into(),
    }
}

fn bulk_data_list() -> BulkDataList {
    BulkDataList { kind: ResourceKind::List, has_more: false, data: vec![bulk_data()] }
}

#[test]
fn bulk_data_list_decodes_from_wire_text() {
    let response: BulkDataList =
        decode_body(&response_list()).expect("Expected a valid BulkDataList response");

    assert_eq!(1, response.data.len());
    assert_eq!(
        render_json(&bulk_data_list().to_tree()),
        render_json(&response.to_tree())
    );
}

#[test]
fn bulk_data_entry_decodes_from_wire_text() {
    let response: BulkData =
        decode_body(&response_entry()).expect("Expected a valid BulkData response");

    assert_eq!(render_json(&bulk_data().to_tree()), render_json(&response.to_tree()));
}

#[test]
fn bulk_data_entry_rejects_bad_timestamp() {
    let body = response_entry().replace("2022-06-18T09:02:10.928+00:00", "last june");
    let response: Result<BulkData, _> = decode_body(&body);
    let e = response.expect_err("a bad timestamp must not decode");
    assert_eq!("CLIENT_ERR", e.code);
    assert_eq!(599, e.status);
}
