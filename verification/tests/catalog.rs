use gitignore_templates::catalog::{Catalog, CatalogFetcher, API_URL};
use gitignore_templates::error::FetchError;

fn listed(names: &[&str]) -> Vec<String> {
    names.iter().map(|name| name.to_string()).collect()
}

#[test]
fn the_listing_address_is_fixed() {
    assert_eq!(API_URL, "https://api.github.com/gitignore/templates");
}

#[test]
fn a_json_list_of_names_is_a_catalog() {
    let catalog = Catalog::decode(b"[\"Go\", \"Rust\", \"Node\"]").unwrap();
    assert_eq!(catalog.len(), 3);
    assert_eq!(catalog.names(), &listed(&["Go", "Rust", "Node"]));
}

#[test]
fn the_order_of_the_answer_is_kept() {
    let catalog = Catalog::decode(b"[\"b\",\"a\",\"c\"]").unwrap();
    assert_eq!(catalog.names(), &listed(&["b", "a", "c"]));
    assert_eq!(catalog.into_names(), listed(&["b", "a", "c"]));
}

#[test]
fn escapes_in_the_answer_are_decoded() {
    let catalog = Catalog::decode(b"[\"C\\u002b\\u002b\", \"\\u00dcbung\"]").unwrap();
    assert_eq!(catalog.names(), &listed(&["C++", "Übung"]));
}

#[test]
fn an_empty_list_is_an_empty_catalog() {
    let catalog = Catalog::decode(b"[]").unwrap();
    assert_eq!(catalog.len(), 0);
    assert!(!catalog.contains("Rust"));
}

#[test]
fn an_answer_that_is_no_json_is_not_decoded() {
    assert_eq!(Catalog::decode(b"").err(), Some(FetchError::Decode));
    assert_eq!(Catalog::decode(b"<html>").err(), Some(FetchError::Decode));
    assert_eq!(Catalog::decode(b"[\"Go\", ").err(), Some(FetchError::Decode));
    assert_eq!(Catalog::decode(&[0xff, 0xfe]).err(), Some(FetchError::Decode));
}

#[test]
fn an_answer_that_is_no_list_of_strings_is_not_decoded() {
    assert_eq!(Catalog::decode(b"{\"message\": \"rate limit\"}").err(), Some(FetchError::Decode));
    assert_eq!(Catalog::decode(b"[1, 2, 3]").err(), Some(FetchError::Decode));
    assert_eq!(Catalog::decode(b"\"Rust\"").err(), Some(FetchError::Decode));
    assert_eq!(Catalog::decode(b"[\"Go\", null]").err(), Some(FetchError::Decode));
    assert_eq!(Catalog::decode(b"[\"Go\"] x").err(), Some(FetchError::Decode));
}

#[test]
fn a_name_with_a_path_separator_is_not_accepted() {
    assert_eq!(Catalog::decode(b"[\"Go\", \"../x\"]").err(), Some(FetchError::Decode));
    assert_eq!(Catalog::from_names(listed(&["a\\b"])).err(), Some(FetchError::Decode));
    assert_eq!(Catalog::from_names(listed(&["Go", "Rust", "a/b"])).err(), Some(FetchError::Decode));
}

#[test]
fn a_name_that_occurs_twice_is_not_accepted() {
    assert_eq!(Catalog::decode(b"[\"Go\", \"Rust\", \"Go\"]").err(), Some(FetchError::Decode));
    assert_eq!(Catalog::from_names(listed(&["Go", "Go"])).err(), Some(FetchError::Decode));
}

#[test]
fn names_that_differ_in_case_are_different_names() {
    let catalog = Catalog::from_names(listed(&["Go", "go", "GO"])).unwrap();
    assert_eq!(catalog.len(), 3);
}

#[test]
fn membership_is_letter_for_letter() {
    let catalog = Catalog::from_names(listed(&["Go", "Rust", "Node"])).unwrap();
    assert!(catalog.contains("Rust"));
    assert!(catalog.contains("Go"));
    assert!(catalog.contains("Node"));
    assert!(!catalog.contains("rust"));
    assert!(!catalog.contains("Rus"));
    assert!(!catalog.contains("Rust "));
    assert!(!catalog.contains(""));
}

#[test]
fn select_gives_the_batch_of_one() {
    let catalog = Catalog::from_names(listed(&["Go", "Rust", "Node"])).unwrap();
    let batch = catalog.select("Rust").unwrap();
    assert_eq!(batch.names(), &listed(&["Rust"]));
    assert!(catalog.select("Ada").is_none());
    assert!(catalog.select("rust").is_none());
}

#[test]
fn a_request_that_failed_is_a_network_failure() {
    assert_eq!(CatalogFetcher::fetch_catalog(None).err(), Some(FetchError::Network));
}

#[test]
fn a_body_that_came_back_is_decoded() {
    let catalog = CatalogFetcher::fetch_catalog(Some(b"[\"Go\",\"Rust\"]".to_vec())).unwrap();
    assert_eq!(catalog.names(), &listed(&["Go", "Rust"]));
    assert_eq!(
        CatalogFetcher::fetch_catalog(Some(b"not json".to_vec())).err(),
        Some(FetchError::Decode)
    );
}

#[test]
fn a_fetch_waits_as_long_as_the_probe() {
    assert_eq!(gitignore_templates::catalog::FETCH_TIMEOUT_SECS, 5);
    assert_eq!(
        gitignore_templates::catalog::FETCH_TIMEOUT_SECS,
        gitignore_templates::probe::PROBE_TIMEOUT_SECS
    );
}
