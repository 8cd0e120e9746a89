use maloja_rs::credentials::MalojaCredentials;
use maloja_rs::history::{numscrobbles_url, scrobbles_query, scrobbles_url};
use maloja_rs::json::ScrobblesReq;
use maloja_rs::query::{append_query, encode_query, full_query_path, QueryRecord};
use maloja_rs::range::{process_range, Range};

fn local_server() -> MalojaCredentials {
    MalojaCredentials {
        https: false,
        skip_cert_verification: false,
        ip: "127.0.0.1".to_string(),
        port: 42010,
        path: None,
        headers: None,
        api_key: None,
    }
}

fn blank_query() -> ScrobblesReq {
    ScrobblesReq { from: None, until: None, _in: None, artist: None, page: None, perpage: None }
}

#[test]
fn all_time_resolves_to_nothing() {
    assert_eq!(process_range(Range::AllTime), (None, None, None));
}

#[test]
fn relative_bucket_resolves_to_the_token_alone() {
    assert_eq!(process_range(Range::In("today".to_string())), (None, None, Some("today".to_string())));
    assert_eq!(process_range(Range::In("month".to_string())), (None, None, Some("month".to_string())));
}

#[test]
fn interval_resolves_to_both_bounds_and_no_token() {
    assert_eq!(process_range(Range::FromUntil(1000, 2000)), (Some(1000), Some(2000), None));
    assert_eq!(process_range(Range::FromUntil(-5, 0)), (Some(-5), Some(0), None));
}

#[test]
fn no_range_populates_both_the_interval_and_the_token() {
    let ranges = vec![
        Range::AllTime,
        Range::In("week".to_string()),
        Range::FromUntil(0, 1),
        Range::FromUntil(i64::MIN, i64::MAX),
    ];
    for range in ranges {
        let (from, until, token) = process_range(range);
        assert_eq!(from.is_some(), until.is_some());
        assert!(!(from.is_some() && token.is_some()));
    }
}

#[test]
fn blank_query_has_no_pairs_and_an_empty_query_string() {
    let query = blank_query();
    assert!(query.query_pairs().is_empty());
    assert_eq!(encode_query(&query.query_pairs()), Some(String::new()));
}

#[test]
fn blank_query_leaves_the_path_unchanged() {
    assert_eq!(
        full_query_path(blank_query(), "http://127.0.0.1:42010/apis/mlj_1/scrobbles"),
        Some("http://127.0.0.1:42010/apis/mlj_1/scrobbles".to_string())
    );
    assert_eq!(full_query_path(blank_query(), ""), Some(String::new()));
}

#[test]
fn empty_query_string_appends_nothing() {
    assert_eq!(append_query("/path", ""), "/path");
    assert_eq!(append_query("/path", "a=b"), "/path?a=b");
    assert_eq!(append_query("", "a=b"), "?a=b");
}

#[test]
fn pairs_follow_the_order_of_the_fields() {
    let query = ScrobblesReq {
        from: Some(1000),
        until: Some(2000),
        _in: Some("today".to_string()),
        artist: Some("Artist B".to_string()),
        page: Some(2),
        perpage: Some(50),
    };
    let expected: Vec<(String, String)> = vec![
        ("from".to_string(), "1000".to_string()),
        ("until".to_string(), "2000".to_string()),
        ("in".to_string(), "today".to_string()),
        ("artist".to_string(), "Artist B".to_string()),
        ("page".to_string(), "2".to_string()),
        ("perpage".to_string(), "50".to_string()),
    ];
    assert_eq!(query.query_pairs(), expected);
}

#[test]
fn absent_fields_are_left_out_of_the_pairs() {
    let query = ScrobblesReq {
        from: None,
        until: Some(-7),
        _in: None,
        artist: None,
        page: Some(0),
        perpage: None,
    };
    let expected: Vec<(String, String)> =
        vec![("until".to_string(), "-7".to_string()), ("page".to_string(), "0".to_string())];
    assert_eq!(query.query_pairs(), expected);
}

#[test]
fn full_query_string_joins_the_encoded_pairs() {
    let query = ScrobblesReq {
        from: Some(1000),
        until: Some(2000),
        _in: None,
        artist: Some("Artist B".to_string()),
        page: Some(2),
        perpage: Some(50),
    };
    assert_eq!(
        full_query_path(query, "http://h:1/apis/mlj_1/scrobbles"),
        Some(
            "http://h:1/apis/mlj_1/scrobbles?from=1000&until=2000&artist=Artist+B&page=2&perpage=50"
                .to_string()
        )
    );
}

#[test]
fn single_pair_has_no_separator() {
    let pairs = vec![("in".to_string(), "today".to_string())];
    assert_eq!(encode_query(&pairs), Some("in=today".to_string()));
}

#[test]
fn reserved_characters_are_escaped_by_the_encoder() {
    let pairs = vec![("artist".to_string(), "Simon & Garfunkel = 100%".to_string())];
    assert_eq!(encode_query(&pairs), Some("artist=Simon+%26+Garfunkel+%3D+100%25".to_string()));
    let pairs = vec![("artist".to_string(), "Björk".to_string())];
    assert_eq!(encode_query(&pairs), Some("artist=Bj%C3%B6rk".to_string()));
}

#[test]
fn listing_query_takes_the_resolved_range_and_the_paging() {
    let query =
        scrobbles_query(Some("Artist B".to_string()), Range::FromUntil(10, 20), Some(3), Some(25));
    assert_eq!(query.from, Some(10));
    assert_eq!(query.until, Some(20));
    assert_eq!(query._in, None);
    assert_eq!(query.artist, Some("Artist B".to_string()));
    assert_eq!(query.page, Some(3));
    assert_eq!(query.perpage, Some(25));
    let query = scrobbles_query(None, Range::In("year".to_string()), None, None);
    assert_eq!(query.from, None);
    assert_eq!(query.until, None);
    assert_eq!(query._in, Some("year".to_string()));
    assert_eq!(query.artist, None);
    assert_eq!(query.page, None);
    assert_eq!(query.perpage, None);
}

#[test]
fn listing_url_for_all_time_is_the_bare_endpoint() {
    assert_eq!(
        scrobbles_url(None, Range::AllTime, None, None, &local_server()),
        Some("http://127.0.0.1:42010/apis/mlj_1/scrobbles".to_string())
    );
}

#[test]
fn listing_url_carries_range_artist_and_paging() {
    assert_eq!(
        scrobbles_url(
            Some("Artist B".to_string()),
            Range::In("today".to_string()),
            Some(1),
            Some(100),
            &local_server()
        ),
        Some(
            "http://127.0.0.1:42010/apis/mlj_1/scrobbles?in=today&artist=Artist+B&page=1&perpage=100"
                .to_string()
        )
    );
}

#[test]
fn count_url_has_no_paging() {
    assert_eq!(
        numscrobbles_url(None, Range::AllTime, &local_server()),
        Some("http://127.0.0.1:42010/apis/mlj_1/numscrobbles".to_string())
    );
    assert_eq!(
        numscrobbles_url(Some("X".to_string()), Range::FromUntil(1000, 2000), &local_server()),
        Some("http://127.0.0.1:42010/apis/mlj_1/numscrobbles?from=1000&until=2000&artist=X".to_string())
    );
}

#[test]
fn empty_value_is_still_a_pair() {
    let pairs = vec![("artist".to_string(), String::new())];
    assert_eq!(encode_query(&pairs), Some("artist=".to_string()));
    let query = ScrobblesReq {
        from: None,
        until: None,
        _in: None,
        artist: Some(String::new()),
        page: None,
        perpage: None,
    };
    assert_eq!(full_query_path(query, "/p"), Some("/p?artist=".to_string()));
}

#[test]
fn negative_bounds_are_written_with_their_sign() {
    let query = scrobbles_query(None, Range::FromUntil(-86400, -1), None, None);
    assert_eq!(full_query_path(query, "/p"), Some("/p?from=-86400&until=-1".to_string()));
}
