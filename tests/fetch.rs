use condfetch::fetch::{
    classify_status, freshness, headers_with, last_modified, parse_header, reference_time,
    request_headers, FreshnessDecision, HeaderError, StatusClass, Timestamp,
};
use condfetch::period::Duration;

fn at(secs: i64) -> Timestamp {
    Timestamp { secs, nanos: 0 }
}

#[test]
fn fresh_file_within_min_age_is_skipped() {
    let now = at(1_000_000);
    let reference = Some(at(1_000_000 - 10));
    assert_eq!(freshness(reference, Some(Duration { secs: 60 }), now), FreshnessDecision::Skip);
    assert_eq!(freshness(reference, Some(Duration { secs: 5 }), now), FreshnessDecision::Proceed);
}

#[test]
fn no_min_age_always_proceeds() {
    let now = at(1_000_000);
    for r in [None, Some(at(999_999)), Some(at(0)), Some(at(1_000_000))] {
        assert_eq!(freshness(r, None, now), FreshnessDecision::Proceed);
    }
}

#[test]
fn missing_reference_proceeds() {
    assert_eq!(freshness(None, Some(Duration { secs: 60 }), at(5)), FreshnessDecision::Proceed);
}

#[test]
fn freshness_boundary_is_strict() {
    let now = Timestamp { secs: 100, nanos: 500 };
    let exactly = Some(Timestamp { secs: 40, nanos: 500 });
    let later = Some(Timestamp { secs: 40, nanos: 501 });
    let m = Some(Duration { secs: 60 });
    assert_eq!(freshness(exactly, m, now), FreshnessDecision::Proceed);
    assert_eq!(freshness(later, m, now), FreshnessDecision::Skip);
}

#[test]
fn future_mtimes_are_discarded() {
    let now = Timestamp { secs: 100, nanos: 7 };
    assert_eq!(reference_time(Some(at(99)), now), Some(at(99)));
    assert_eq!(reference_time(Some(Timestamp { secs: 100, nanos: 7 }), now), None);
    assert_eq!(reference_time(Some(at(101)), now), None);
    assert_eq!(reference_time(None, now), None);
}

#[test]
fn header_with_space() {
    assert_eq!(parse_header("Foo: bar"), Ok(("Foo".to_string(), "bar".to_string())));
}

#[test]
fn header_without_space() {
    assert_eq!(parse_header("Foo:bar"), Ok(("Foo".to_string(), "bar".to_string())));
}

#[test]
fn header_without_colon() {
    assert_eq!(parse_header("Foobar"), Err(HeaderError { text: "Foobar".to_string() }));
}

#[test]
fn header_strips_one_space_only() {
    assert_eq!(parse_header("A:  b: c"), Ok(("A".to_string(), " b: c".to_string())));
    assert_eq!(parse_header(" A :"), Ok((" A ".to_string(), "".to_string())));
}

#[test]
fn statuses_are_classified_by_range() {
    assert_eq!(classify_status(200), StatusClass::Success);
    assert_eq!(classify_status(299), StatusClass::Success);
    assert_eq!(classify_status(304), StatusClass::NotModified);
    assert_eq!(classify_status(301), StatusClass::RedirectOther);
    assert_eq!(classify_status(404), StatusClass::ClientOrServerError);
    assert_eq!(classify_status(503), StatusClass::ClientOrServerError);
    assert_eq!(classify_status(199), StatusClass::Unrecognized);
    assert_eq!(classify_status(600), StatusClass::Unrecognized);
}

#[test]
fn headers_keep_order_after_the_condition() {
    let raw = vec!["B: 2".to_string(), "A:1".to_string()];
    let hs = headers_with(Some("D".to_string()), &raw).unwrap();
    assert_eq!(
        hs,
        vec![
            ("If-Modified-Since".to_string(), "D".to_string()),
            ("B".to_string(), "2".to_string()),
            ("A".to_string(), "1".to_string()),
        ]
    );
    assert_eq!(headers_with(None, &raw).unwrap().len(), 2);
}

#[test]
fn first_bad_header_is_reported() {
    let raw = vec!["A: 1".to_string(), "nope".to_string(), "also".to_string()];
    assert_eq!(headers_with(None, &raw), Err(HeaderError { text: "nope".to_string() }));
}

#[test]
fn conditional_header_carries_http_date() {
    let hs = request_headers(Some(at(1445412480)), &vec![]).unwrap();
    assert_eq!(
        hs,
        vec![("If-Modified-Since".to_string(), "Wed, 21 Oct 2015 07:28:00 +0000".to_string())]
    );
    let epoch = request_headers(Some(at(0)), &vec!["X: y".to_string()]).unwrap();
    assert_eq!(epoch[0].1, "Thu, 1 Jan 1970 00:00:00 +0000");
    assert_eq!(epoch[1], ("X".to_string(), "y".to_string()));
}

#[test]
fn no_reference_no_condition() {
    assert_eq!(request_headers(None, &vec![]).unwrap(), vec![]);
    assert_eq!(request_headers(Some(at(i64::MAX)), &vec![]).unwrap(), vec![]);
}

#[test]
fn server_date_is_read() {
    assert_eq!(last_modified(Some("Wed, 21 Oct 2015 07:28:00 GMT")), Some(at(1445412480)));
    assert_eq!(last_modified(Some("Wed, 21 Oct 2015 09:28:00 +0200")), Some(at(1445412480)));
    assert_eq!(last_modified(Some("yesterday")), None);
    assert_eq!(last_modified(None), None);
}
