use maloja_rs::headers::{add_header, parse_headers};
use reqwest::header::{HeaderMap, HeaderName, HeaderValue};

fn pairs(list: &[(&str, &str)]) -> Option<Vec<(String, String)>> {
    Some(list.iter().map(|(k, v)| (k.to_string(), v.to_string())).collect())
}

#[test]
fn no_headers_give_an_empty_map() {
    assert!(parse_headers(None).unwrap().is_empty());
    assert!(parse_headers(Some(Vec::new())).unwrap().is_empty());
}

#[test]
fn valid_headers_go_into_the_map() {
    let map = parse_headers(pairs(&[("x-token", "abc"), ("accept", "application/json")])).unwrap();
    assert_eq!(map.len(), 2);
    assert_eq!(map.get("x-token").unwrap(), "abc");
    assert_eq!(map.get("accept").unwrap(), "application/json");
}

#[test]
fn header_names_are_normalized_by_the_transport() {
    let map = parse_headers(pairs(&[("X-Custom-Header", "Value With Case")])).unwrap();
    assert_eq!(map.len(), 1);
    let name = map.keys().next().unwrap();
    assert_eq!(name.as_str(), "x-custom-header");
    assert_eq!(map.get("x-custom-header").unwrap(), "Value With Case");
}

#[test]
fn invalid_name_drops_the_pair_only() {
    let map = parse_headers(pairs(&[
        ("bad name", "v"),
        ("good", "kept"),
        ("", "empty name"),
        ("ünïcode", "v"),
    ]))
    .unwrap();
    assert_eq!(map.len(), 1);
    assert_eq!(map.get("good").unwrap(), "kept");
}

#[test]
fn invalid_value_drops_the_pair_only() {
    let map = parse_headers(pairs(&[
        ("a", "line\nbreak"),
        ("b", "kept"),
        ("c", "carriage\rreturn"),
        ("d", "delete\u{7f}"),
        ("e", "nul\u{0}"),
    ]))
    .unwrap();
    assert_eq!(map.len(), 1);
    assert_eq!(map.get("b").unwrap(), "kept");
}

#[test]
fn tab_and_text_beyond_ascii_are_valid_in_a_value() {
    let map = parse_headers(pairs(&[("a", "tab\there"), ("b", "grüße"), ("c", "")])).unwrap();
    assert_eq!(map.len(), 3);
    assert_eq!(map.get("a").unwrap().as_bytes(), "tab\there".as_bytes());
    assert_eq!(map.get("b").unwrap().as_bytes(), "grüße".as_bytes());
    assert_eq!(map.get("c").unwrap().as_bytes(), "".as_bytes());
}

#[test]
fn later_pair_replaces_an_earlier_one_under_the_same_name() {
    let map = parse_headers(pairs(&[("x-a", "first"), ("x-b", "other"), ("X-A", "second")])).unwrap();
    assert_eq!(map.len(), 2);
    assert_eq!(map.get("x-a").unwrap(), "second");
    assert_eq!(map.get_all("x-a").iter().count(), 1);
    assert_eq!(map.get("x-b").unwrap(), "other");
}

#[test]
fn refused_name_or_value_leaves_the_map_as_it_is() {
    let mut map = HeaderMap::new();
    map.insert("x-a", HeaderValue::from_static("1"));
    let map = add_header(map, None, Some(HeaderValue::from_static("2"))).unwrap();
    assert_eq!(map.len(), 1);
    let map = add_header(map, Some(HeaderName::from_static("x-b")), None).unwrap();
    assert_eq!(map.len(), 1);
    let map = add_header(map, None, None).unwrap();
    assert_eq!(map.len(), 1);
    assert_eq!(map.get("x-a").unwrap(), "1");
}

#[test]
fn accepted_name_and_value_are_inserted() {
    let map = add_header(
        HeaderMap::new(),
        Some(HeaderName::from_static("x-b")),
        Some(HeaderValue::from_static("2")),
    )
    .unwrap();
    assert_eq!(map.len(), 1);
    assert_eq!(map.get("x-b").unwrap(), "2");
    let map = add_header(
        map,
        Some(HeaderName::from_static("x-b")),
        Some(HeaderValue::from_static("3")),
    )
    .unwrap();
    assert_eq!(map.len(), 1);
    assert_eq!(map.get("x-b").unwrap(), "3");
}

#[test]
fn value_characters_at_the_edges_of_the_valid_range() {
    let map = parse_headers(pairs(&[
        ("a", "\u{1f}"),
        ("b", " "),
        ("c", "~"),
        ("d", "\u{7f}"),
        ("e", "\u{80}"),
        ("f", "\t"),
        ("g", "\u{8}"),
    ]))
    .unwrap();
    assert!(map.get("a").is_none());
    assert_eq!(map.get("b").unwrap().as_bytes(), " ".as_bytes());
    assert_eq!(map.get("c").unwrap().as_bytes(), "~".as_bytes());
    assert!(map.get("d").is_none());
    assert_eq!(map.get("e").unwrap().as_bytes(), "\u{80}".as_bytes());
    assert_eq!(map.get("f").unwrap().as_bytes(), "\t".as_bytes());
    assert!(map.get("g").is_none());
    assert_eq!(map.len(), 4);
}

#[test]
fn headers_of_credentials_are_filtered_like_any_list() {
    let mut credentials = maloja_rs::MalojaCredentials {
        https: true,
        skip_cert_verification: true,
        ip: "host".to_string(),
        port: 1,
        path: None,
        headers: None,
        api_key: None,
    };
    credentials = credentials.with_header("x-token".to_string(), "one".to_string());
    credentials = credentials.with_header("bad name".to_string(), "two".to_string());
    credentials = credentials.with_header("x-token".to_string(), "three".to_string());
    let map = parse_headers(credentials.headers.clone()).unwrap();
    assert_eq!(map.len(), 1);
    assert_eq!(map.get("x-token").unwrap(), "three");
}
