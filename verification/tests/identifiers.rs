use scryfall_sdk_rust::json::JsonValue;
use scryfall_sdk_rust::model::ApiModel;
use scryfall_sdk_rust::render::render_json;
use scryfall_sdk_rust::resources::cards::{CardCollection, CardIdentifier};
use scryfall_sdk_rust::ResourceKind;

#[test]
fn identifier_decodes_by_declaration_order() {
    let multiverse = JsonValue::Obj(vec![("multiverse_id".to_owned(), JsonValue::Int(42))]);
    match CardIdentifier::from_tree(&multiverse) {
        Some(CardIdentifier::MutliverseId { val }) => assert_eq!(42, val),
        _ => panic!("a multiverse id object must decode to the multiverse variant"),
    }

    let set_and_number = JsonValue::Obj(vec![
        ("set".to_owned(), JsonValue::Str("dmu".to_owned())),
        ("collector_number".to_owned(), JsonValue::Str("7".to_owned())),
    ]);
    match CardIdentifier::from_tree(&set_and_number) {
        Some(CardIdentifier::SetAndNumber { set, number }) => {
            assert_eq!("dmu", set);
            assert_eq!("7", number);
        },
        _ => panic!("a set and collector number object must decode to that variant"),
    }

    let nothing_relevant = JsonValue::Obj(vec![("set".to_owned(), JsonValue::Str("dmu".to_owned()))]);
    assert!(CardIdentifier::from_tree(&nothing_relevant).is_none());
}

#[test]
fn set_and_name_reads_back_as_the_name_variant() {
    let ident = CardIdentifier::SetAndName { set: "dmu".to_owned(), name: "Shock".to_owned() };
    match CardIdentifier::from_tree(&ident.to_tree()) {
        Some(CardIdentifier::Name { val }) => assert_eq!("Shock", val),
        _ => panic!("an untagged set-and-name object reads as the earlier name variant"),
    }
}

#[test]
fn card_collection_not_found_round_trips() {
    let collection = CardCollection {
        kind: ResourceKind::List,
        not_found: vec![CardIdentifier::ScryfallId { val: "123".to_owned() }],
        cards: vec![],
    };
    let back = CardCollection::from_tree(&collection.to_tree()).expect("must decode");
    assert_eq!(render_json(&collection.to_tree()), render_json(&back.to_tree()));
    assert_eq!(
        "{\"object\":\"list\",\"not_found\":[{\"id\":\"123\"}],\"data\":[]}",
        render_json(&collection.to_tree())
    );
}
