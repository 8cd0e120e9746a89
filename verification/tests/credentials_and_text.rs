use maloja_rs::credentials::MalojaCredentials;
use maloja_rs::submit::{scrobble_body, scrobble_url};
use maloja_rs::text::{decimal, signed_decimal, trim_char};
use maloja_rs::RequestError;

fn server(https: bool, ip: &str, port: u16, path: Option<&str>) -> MalojaCredentials {
    MalojaCredentials {
        https,
        skip_cert_verification: false,
        ip: ip.to_string(),
        port,
        path: path.map(|p| p.to_string()),
        headers: None,
        api_key: None,
    }
}

#[test]
fn url_without_a_path() {
    assert_eq!(server(false, "127.0.0.1", 42010, None).get_url(), "http://127.0.0.1:42010");
    assert_eq!(server(true, "maloja.example.org", 443, None).get_url(), "https://maloja.example.org:443");
}

#[test]
fn url_with_a_path_is_trimmed_and_prefixed() {
    assert_eq!(server(true, "host", 8080, Some("maloja")).get_url(), "https://host:8080/maloja");
    assert_eq!(server(true, "host", 8080, Some("/maloja/")).get_url(), "https://host:8080/maloja");
    assert_eq!(server(true, "host", 8080, Some("///a/b//")).get_url(), "https://host:8080/a/b");
}

#[test]
fn url_with_an_empty_path_has_no_path() {
    assert_eq!(server(false, "host", 80, Some("")).get_url(), "http://host:80");
    assert_eq!(server(false, "host", 80, Some("/")).get_url(), "http://host:80");
    assert_eq!(server(false, "host", 80, Some("////")).get_url(), "http://host:80");
}

#[test]
fn url_renders_every_port() {
    assert_eq!(server(false, "h", 0, None).get_url(), "http://h:0");
    assert_eq!(server(false, "h", 9, None).get_url(), "http://h:9");
    assert_eq!(server(false, "h", 10, None).get_url(), "http://h:10");
    assert_eq!(server(false, "h", 65535, None).get_url(), "http://h:65535");
}

#[test]
fn url_is_the_same_on_every_call() {
    let credentials = server(true, "host", 1234, Some("/x/"));
    assert_eq!(credentials.get_url(), credentials.get_url());
    assert_eq!(credentials.clone().get_url(), "https://host:1234/x");
}

#[test]
fn decimal_of_unsigned_numbers() {
    assert_eq!(decimal(0), "0");
    assert_eq!(decimal(7), "7");
    assert_eq!(decimal(10), "10");
    assert_eq!(decimal(1000), "1000");
    assert_eq!(decimal(1234567890), "1234567890");
    assert_eq!(decimal(u64::MAX), "18446744073709551615");
}

#[test]
fn decimal_agrees_with_the_standard_rendering() {
    let mut n: u64 = 1;
    for _ in 0..19 {
        assert_eq!(decimal(n), n.to_string());
        assert_eq!(decimal(n - 1), (n - 1).to_string());
        n *= 10;
    }
}

#[test]
fn decimal_of_signed_numbers() {
    assert_eq!(signed_decimal(0), "0");
    assert_eq!(signed_decimal(42), "42");
    assert_eq!(signed_decimal(-1), "-1");
    assert_eq!(signed_decimal(-1000), "-1000");
    assert_eq!(signed_decimal(i64::MAX), "9223372036854775807");
    assert_eq!(signed_decimal(i64::MIN), "-9223372036854775808");
}

#[test]
fn trimming_removes_the_character_at_both_ends_only() {
    assert_eq!(trim_char("/a/b/", '/'), "a/b");
    assert_eq!(trim_char("a", '/'), "a");
    assert_eq!(trim_char("", '/'), "");
    assert_eq!(trim_char("///", '/'), "");
    assert_eq!(trim_char("//a", '/'), "a");
    assert_eq!(trim_char("a//", '/'), "a");
    assert_eq!(trim_char("/ä/ö/", '/'), "ä/ö");
    assert_eq!(trim_char("xxhixx", 'x'), "hi");
}

#[test]
fn trimming_agrees_with_the_standard_library() {
    let samples = ["", "/", "//", "a", "/a", "a/", "/a/", "a/b", "//a//b//", "/é//", "日本/語/"];
    for sample in samples {
        assert_eq!(trim_char(sample, '/'), sample.trim_matches('/'));
    }
}

#[test]
fn submission_url_is_the_endpoint_under_the_base() {
    assert_eq!(
        scrobble_url(&server(false, "127.0.0.1", 42010, None)),
        "http://127.0.0.1:42010/apis/mlj_1/newscrobble"
    );
    assert_eq!(
        scrobble_url(&server(true, "host", 443, Some("/m/"))),
        "https://host:443/m/apis/mlj_1/newscrobble"
    );
}

#[test]
fn submission_holds_title_artist_and_key_only() {
    let mut credentials = server(false, "127.0.0.1", 42010, None);
    credentials.api_key = Some("SECRET-REDACTED".to_string());
    let body = scrobble_body("Song A".to_string(), "Artist B".to_string(), &credentials).unwrap();
    assert_eq!(body.artist, Some("Artist B".to_string()));
    assert_eq!(body.artists, None);
    assert_eq!(body.title, "Song A");
    assert_eq!(body.album, None);
    assert_eq!(body.albumartists, None);
    assert_eq!(body.duration, None);
    assert_eq!(body.length, None);
    assert_eq!(body.time, None);
    assert_eq!(body.key, "SECRET-REDACTED");
}

#[test]
fn submission_without_a_key_is_a_configuration_error() {
    let credentials = server(false, "127.0.0.1", 42010, None);
    let outcome = scrobble_body("Song A".to_string(), "Artist B".to_string(), &credentials);
    assert!(matches!(outcome, Err(RequestError::ConfigurationError)));
}

#[test]
fn setting_a_header_adds_it_where_the_name_is_new() {
    let mut credentials = server(false, "h", 1, None);
    credentials = credentials.with_header("a".to_string(), "1".to_string());
    assert_eq!(credentials.headers, Some(vec![("a".to_string(), "1".to_string())]));
    credentials = credentials.with_header("b".to_string(), "2".to_string());
    assert_eq!(
        credentials.headers,
        Some(vec![("a".to_string(), "1".to_string()), ("b".to_string(), "2".to_string())])
    );
}

#[test]
fn setting_a_header_replaces_every_pair_of_the_name() {
    let mut credentials = server(false, "h", 1, None);
    credentials.headers = Some(vec![
        ("a".to_string(), "1".to_string()),
        ("b".to_string(), "2".to_string()),
        ("a".to_string(), "3".to_string()),
        ("c".to_string(), "4".to_string()),
    ]);
    credentials = credentials.with_header("a".to_string(), "5".to_string());
    assert_eq!(
        credentials.headers,
        Some(vec![
            ("b".to_string(), "2".to_string()),
            ("c".to_string(), "4".to_string()),
            ("a".to_string(), "5".to_string()),
        ])
    );
}

#[test]
fn setting_a_header_changes_nothing_else() {
    let mut credentials = server(true, "host", 8443, Some("/m"));
    credentials.api_key = Some("SECRET-REDACTED".to_string());
    credentials.skip_cert_verification = true;
    credentials = credentials.with_header("A".to_string(), "1".to_string());
    credentials = credentials.with_header("a".to_string(), "2".to_string());
    assert!(credentials.https);
    assert!(credentials.skip_cert_verification);
    assert_eq!(credentials.ip, "host");
    assert_eq!(credentials.port, 8443);
    assert_eq!(credentials.path, Some("/m".to_string()));
    assert_eq!(credentials.api_key, Some("SECRET-REDACTED".to_string()));
    assert_eq!(
        credentials.headers,
        Some(vec![("A".to_string(), "1".to_string()), ("a".to_string(), "2".to_string())])
    );
}
