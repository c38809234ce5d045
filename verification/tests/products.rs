use tentech_api::db::tags::{entry_to_product, init, NewProductTag};
use tentech_api::error::TentechError;
use tentech_api::models::product::Product;
use tentech_api::models::user::{TokenData, User};
use tentech_api::routes::products::{
    delete_products, post_products, product_uuid, update_products, NewProduct, NewProductData,
};
use tentech_api::time::Timestamp;

fn token_of(user_id: i32) -> TokenData {
    TokenData {
        user: User {
            id: user_id,
            username: "owner".to_string(),
            nickname: "owner".to_string(),
            email: "owner@test.com".to_string(),
            password: "hash".to_string(),
            activated: true,
            activated_at: None,
        },
        expired_at: Timestamp { secs: 2_000_000_000, nanos: 0 },
    }
}

fn product_of(user_id: i32) -> Product {
    Product {
        id: 1,
        uuid: 0x550e8400_e29b_41d4_a716_446655440000,
        title: "t".to_string(),
        body: "b".to_string(),
        img: "https://tentech.me/i.png".to_string(),
        kind: "WebApp".to_string(),
        status: "done".to_string(),
        duration: 3,
        user_id,
        simple: "s".to_string(),
    }
}

fn data(title: Option<&str>, img: Option<&str>) -> NewProductData {
    NewProductData {
        title: title.map(|t| t.to_string()),
        body: Some("a body".to_string()),
        simple: Some("in short".to_string()),
        img: img.map(|i| i.to_string()),
        duration: 12,
        kind: "WebApp".to_string(),
        status: "done".to_string(),
        tags: vec![3, 1, 2],
    }
}

fn codes(error: TentechError, field: &str) -> Vec<String> {
    match error {
        TentechError::ValidationFailed(errors) => match errors.field_errors().get(field) {
            Some(list) => list.iter().map(|e| e.code.to_string()).collect(),
            None => Vec::new(),
        },
        other => panic!("not a failed validation: {:?}", other),
    }
}

#[test]
fn uuid_is_read_in_any_of_its_forms() {
    let expected = Some(0x550e8400_e29b_41d4_a716_446655440000u128);
    assert_eq!(product_uuid("550e8400-e29b-41d4-a716-446655440000"), expected);
    assert_eq!(product_uuid("550e8400e29b41d4a716446655440000"), expected);
    assert_eq!(product_uuid("550E8400-E29B-41D4-A716-446655440000"), expected);
    assert_eq!(product_uuid("not-a-uuid"), None);
    assert_eq!(product_uuid(""), None);
}

#[test]
fn posted_product_is_drafted_for_the_poster() {
    let product = data(Some("a title"), Some("https://tentech.me/i.png"));
    let draft = post_products(NewProduct { product }, &token_of(9)).expect("a valid request");
    assert_eq!(draft.title, "a title");
    assert_eq!(draft.body, "a body");
    assert_eq!(draft.simple, "in short");
    assert_eq!(draft.img, "https://tentech.me/i.png");
    assert_eq!(draft.duration, 12);
    assert_eq!(draft.kind, "WebApp");
    assert_eq!(draft.status, "done");
    assert_eq!(draft.tags, vec![3, 1, 2]);
    assert_eq!(draft.user_id, 9);
}

#[test]
fn title_is_of_1_to_33_characters() {
    let ok = data(Some(&"x".repeat(33)), Some("https://tentech.me/i.png"));
    assert!(post_products(NewProduct { product: ok }, &token_of(9)).is_ok());
    let long = data(Some(&"x".repeat(34)), Some("https://tentech.me/i.png"));
    let error = post_products(NewProduct { product: long }, &token_of(9)).unwrap_err();
    assert_eq!(codes(error, "title"), vec!["length"]);
}

#[test]
fn image_must_be_a_url_and_title_must_be_there() {
    let error = post_products(NewProduct { product: data(None, Some("nope")) }, &token_of(9))
        .unwrap_err();
    assert_eq!(error.status(), 400);
    assert_eq!(codes(error, "img"), vec!["url"]);
    let error = post_products(NewProduct { product: data(None, Some("nope")) }, &token_of(9))
        .unwrap_err();
    assert_eq!(codes(error, "title"), vec!["can't be blank"]);
}

#[test]
fn only_the_owner_updates() {
    let good = data(Some("a title"), Some("https://tentech.me/i.png"));
    let draft = update_products(good, &token_of(9), &product_of(9)).expect("the owner");
    assert_eq!(draft.user_id, 9);
    let good = data(Some("a title"), Some("https://tentech.me/i.png"));
    match update_products(good, &token_of(8), &product_of(9)) {
        Err(TentechError::Unauthorized(text)) => assert_eq!(text, "Cannot delete other's product"),
        other => panic!("not unauthorized: {:?}", other),
    }
}

#[test]
fn ownership_is_asked_for_before_validity() {
    let bad = data(None, Some("nope"));
    let r = update_products(bad, &token_of(8), &product_of(9));
    assert!(matches!(r, Err(TentechError::Unauthorized(_))));
    let bad = data(None, Some("nope"));
    let r = update_products(bad, &token_of(9), &product_of(9));
    assert!(matches!(r, Err(TentechError::ValidationFailed(_))));
}

#[test]
fn only_the_owner_deletes() {
    assert!(delete_products(&token_of(9), &product_of(9)).is_ok());
    match delete_products(&token_of(8), &product_of(9)) {
        Err(e) => {
            assert_eq!(e.status(), 401);
            assert_eq!(e.message(), "Cannot delete other's product");
        }
        Ok(()) => panic!("a stranger deleted"),
    }
}

#[test]
fn one_entry_for_each_tag() {
    assert_eq!(
        entry_to_product(7, vec![3, 1, 3]),
        vec![
            NewProductTag { product_id: 7, tag_id: 3 },
            NewProductTag { product_id: 7, tag_id: 1 },
            NewProductTag { product_id: 7, tag_id: 3 },
        ]
    );
    assert!(entry_to_product(7, vec![]).is_empty());
}

fn names(list: &[&str]) -> Vec<String> {
    list.iter().map(|n| n.to_string()).collect()
}

#[test]
fn tags_are_planned_by_kind_in_order() {
    let tags = init(&names(&["Ruby", "Go"]), &names(&["Rails"]), &names(&["Docker"]), &names(&[]))
        .expect("the table is empty");
    let planned: Vec<(&str, &str)> =
        tags.iter().map(|t| (t.name.as_str(), t.kind.as_str())).collect();
    assert_eq!(
        planned,
        vec![("Ruby", "lang"), ("Go", "lang"), ("Rails", "fw"), ("Docker", "tool")]
    );
    assert_ne!(tags[0].uuid, tags[1].uuid);
}

#[test]
fn table_that_holds_the_planned_names_is_left_alone() {
    let same = names(&["Ruby", "Go", "Rails", "Docker"]);
    assert!(init(&names(&["Ruby", "Go"]), &names(&["Rails"]), &names(&["Docker"]), &same).is_none());
    let other_order = names(&["Go", "Ruby", "Rails", "Docker"]);
    assert!(init(
        &names(&["Ruby", "Go"]),
        &names(&["Rails"]),
        &names(&["Docker"]),
        &other_order
    )
    .is_some());
    let fewer = names(&["Ruby", "Go", "Rails"]);
    assert!(init(&names(&["Ruby", "Go"]), &names(&["Rails"]), &names(&["Docker"]), &fewer).is_some());
    assert!(init(&names(&[]), &names(&[]), &names(&[]), &names(&[])).is_none());
}
