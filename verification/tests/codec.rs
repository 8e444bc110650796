use scryfall_sdk_rust::json::JsonValue;
use scryfall_sdk_rust::model::{ApiModel, DateText, NumberText, TimestampText, UrlText, UuidText};
use scryfall_sdk_rust::render::render_json;
use scryfall_sdk_rust::resources::catalog::Catalog;
use scryfall_sdk_rust::resources::errors::ErrorBody;
use scryfall_sdk_rust::resources::rulings::{Ruling, RulingList};
use scryfall_sdk_rust::resources::{decode_envelope, Response, ResourceKind};
use scryfall_sdk_rust::client::decode_body;

fn tree_text<M: ApiModel>(m: &M) -> String {
    render_json(&m.to_tree())
}

fn sample_ruling() -> Ruling {
    Ruling {
        kind: ResourceKind::Ruling,
        oracle_id: "afa49a09-146f-4439-850e-dd1938c93fef".to_owned(),
        source: "wotc".to_owned(),
        published_at: DateText("2004-10-04".to_owned()),
        comment: "It must be exactly one word.".to_owned(),
    }
}

#[test]
fn ruling_decode_encode_round_trip() {
    let ruling = sample_ruling();
    let text = tree_text(&ruling);
    assert_eq!(
        "{\"object\":\"ruling\",\
\"oracle_id\":\"afa49a09-146f-4439-850e-dd1938c93fef\",\
\"source\":\"wotc\",\"published_at\":\"2004-10-04\",\
\"comment\":\"It must be exactly one word.\"}",
        text
    );
    let back = Ruling::from_tree(&ruling.to_tree()).expect("the encoding must decode");
    assert_eq!(text, tree_text(&back));
}

#[test]
fn ruling_decode_ignores_member_order_and_unknown_members() {
    let tree = JsonValue::Obj(vec![
        ("comment".to_owned(), JsonValue::Str("It must be exactly one word.".to_owned())),
        ("published_at".to_owned(), JsonValue::Str("2004-10-04".to_owned())),
        ("object".to_owned(), JsonValue::Str("ruling".to_owned())),
        ("something_new".to_owned(), JsonValue::Bool(true)),
        ("source".to_owned(), JsonValue::Str("wotc".to_owned())),
        (
            "oracle_id".to_owned(),
            JsonValue::Str("afa49a09-146f-4439-850e-dd1938c93fef".to_owned()),
        ),
    ]);
    let back = Ruling::from_tree(&tree).expect("reordered members must decode");
    assert_eq!(tree_text(&sample_ruling()), tree_text(&back));
}

#[test]
fn ruling_decode_rejects_bad_date() {
    let mut ruling = sample_ruling();
    ruling.published_at = DateText("2004-99-99".to_owned());
    assert!(Ruling::from_tree(&ruling.to_tree()).is_none());
}

#[test]
fn ruling_list_decode_rejects_bad_element() {
    let good = sample_ruling();
    let mut bad = sample_ruling();
    bad.published_at = DateText("never".to_owned());
    let list = RulingList {
        kind: ResourceKind::List,
        has_more: false,
        data: vec![good, bad],
    };
    assert!(RulingList::from_tree(&list.to_tree()).is_none());
}

#[test]
fn validity_wrappers_accept_and_reject() {
    let good_uuid = JsonValue::Str("27bf3214-1271-490b-bdfe-c0be6c23d02e".to_owned());
    assert!(UuidText::from_tree(&good_uuid).is_some());
    let bad_uuid = JsonValue::Str("not-a-uuid".to_owned());
    assert!(UuidText::from_tree(&bad_uuid).is_none());

    let good_url = JsonValue::Str("https://some-url.com".to_owned());
    assert!(UrlText::from_tree(&good_url).is_some());
    let bad_url = JsonValue::Str("not a url at all".to_owned());
    assert!(UrlText::from_tree(&bad_url).is_none());

    let good_date = JsonValue::Str("2022-06-18".to_owned());
    assert!(DateText::from_tree(&good_date).is_some());
    let bad_date = JsonValue::Str("2022-13-18".to_owned());
    assert!(DateText::from_tree(&bad_date).is_none());

    let good_stamp = JsonValue::Str("2022-06-18T09:02:10.928+00:00".to_owned());
    assert!(TimestampText::from_tree(&good_stamp).is_some());
    let bad_stamp = JsonValue::Str("yesterday at nine".to_owned());
    assert!(TimestampText::from_tree(&bad_stamp).is_none());
}

#[test]
fn number_text_keeps_literals_and_renders_integers() {
    let n = NumberText::from_tree(&JsonValue::Num("2.5".to_owned())).unwrap();
    assert_eq!("2.5", n.0);
    let i = NumberText::from_tree(&JsonValue::Int(-12)).unwrap();
    assert_eq!("-12", i.0);
    assert!(NumberText::from_tree(&JsonValue::Str("2.5".to_owned())).is_none());
}

#[test]
fn render_escapes_strings() {
    let tree = JsonValue::Arr(vec![
        JsonValue::Str("a\"b\\c\nd".to_owned()),
        JsonValue::Int(7),
        JsonValue::Null,
        JsonValue::Bool(false),
    ]);
    assert_eq!("[\"a\\\"b\\\\c\\u000ad\",7,null,false]", render_json(&tree));
}

#[test]
fn error_document_decodes_to_error_for_any_model() {
    let tree = JsonValue::Obj(vec![
        ("object".to_owned(), JsonValue::Str("error".to_owned())),
        ("code".to_owned(), JsonValue::Str("not_found".to_owned())),
        ("status".to_owned(), JsonValue::Int(404)),
        ("details".to_owned(), JsonValue::Str("No card found.".to_owned())),
    ]);
    match decode_envelope::<Catalog>(&tree) {
        Some(Response::Failure(e)) => {
            assert_eq!("not_found", e.code);
            assert_eq!(404, e.status);
            assert_eq!("No card found.", e.details);
            assert_eq!(ResourceKind::Error, e.kind);
            assert!(e.error_type.is_none());
            assert!(e.warnings.is_none());
        },
        _ => panic!("an error document must decode to the error variant"),
    }
    match decode_envelope::<ErrorBody>(&tree) {
        Some(Response::Failure(_)) => {},
        _ => panic!("the error variant must win even when the model is the error body"),
    }
}

#[test]
fn error_body_with_optional_members_round_trips() {
    let e = ErrorBody {
        code: "bad_request".to_owned(),
        details: "details".to_owned(),
        error_type: Some("syntax".to_owned()),
        kind: ResourceKind::Error,
        status: 400,
        warnings: Some(vec!["w1".to_owned(), "w2".to_owned()]),
    };
    let back = ErrorBody::from_tree(&e.to_tree()).expect("the encoding must decode");
    assert_eq!(tree_text(&e), tree_text(&back));
}

#[test]
fn unparseable_body_yields_client_err() {
    match decode_body::<Catalog>("this is not json") {
        Err(e) => {
            assert_eq!("CLIENT_ERR", e.code);
            assert_eq!(599, e.status);
            assert_eq!(ResourceKind::Error, e.kind);
        },
        Ok(_) => panic!("garbage must not decode"),
    }
}

#[test]
fn mismatched_shape_yields_client_err() {
    match decode_body::<Catalog>("{\"object\":\"list\",\"something\":1}") {
        Err(e) => {
            assert_eq!("CLIENT_ERR", e.code);
            assert_eq!(599, e.status);
        },
        Ok(_) => panic!("a shape matching neither side must not decode"),
    }
}

#[test]
fn catalog_decodes_through_the_body_decoder() {
    let body = "{\"object\":\"catalog\",\"uri\":\"https://some-url.com\",\
\"total_values\":2,\"data\":[\"Ability\",\"Another\"]}";
    let catalog: Catalog = decode_body(body).expect("a catalog body must decode");
    assert_eq!(ResourceKind::Catalog, catalog.kind);
    assert_eq!(2, catalog.total_values);
    assert_eq!(vec!["Ability".to_owned(), "Another".to_owned()], catalog.data);
    assert_eq!("https://some-url.com", catalog.uri.unwrap().0);
}

#[test]
fn integers_render_in_decimal_at_the_extremes() {
    let small = NumberText::from_tree(&JsonValue::Int(-9223372036854775808i64)).unwrap();
    assert_eq!("-9223372036854775808", small.0);
    let large = NumberText::from_tree(&JsonValue::Int(9223372036854775807i64)).unwrap();
    assert_eq!("9223372036854775807", large.0);
    let zero = NumberText::from_tree(&JsonValue::Int(0)).unwrap();
    assert_eq!("0", zero.0);
}

#[test]
fn resource_kind_wire_texts_round_trip() {
    let kinds = vec![
        (ResourceKind::BulkData, "bulk_data"),
        (ResourceKind::Card, "card"),
        (ResourceKind::CardFace, "card_face"),
        (ResourceKind::CardSymbol, "card_symbol"),
        (ResourceKind::Catalog, "catalog"),
        (ResourceKind::Error, "error"),
        (ResourceKind::List, "list"),
        (ResourceKind::ManaCost, "mana_cost"),
        (ResourceKind::Ruling, "ruling"),
        (ResourceKind::CardSet, "set"),
    ];
    for (kind, text) in kinds {
        assert_eq!(text, kind.as_str());
        let back = ResourceKind::from_tree(&JsonValue::Str(text.to_owned()));
        assert_eq!(Some(kind), back);
    }
    assert!(ResourceKind::from_tree(&JsonValue::Str("planet".to_owned())).is_none());
}
