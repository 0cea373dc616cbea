use static_file::conditional::{tag_matches, Outcome, StaticFile, TagCondition};
use static_file::content_type::{equiv_utf8_text, resolve};
use static_file::i18n::I18NArgs;
use static_file::response::ResponsePlan;
use static_file::validator::{etag, generate, to_hex, EntityTag, FileMetadata, Timestamp};

fn metadata() -> FileMetadata {
    FileMetadata {
        identity: 0x1234,
        size: 987,
        modified: Some(Timestamp {
            secs: 1_700_000_000,
            nanos: 123_456_789,
        }),
    }
}

fn no_conditions() -> StaticFile {
    StaticFile {
        if_match: None,
        if_unmodified_since: None,
        if_none_match: None,
        if_modified_since: None,
    }
}

fn check_response(h: StaticFile) -> ResponsePlan {
    h.create_response("Cargo.toml", false, &metadata())
}

fn header<'a>(resp: &'a ResponsePlan, name: &str) -> Option<&'a str> {
    resp.headers
        .iter()
        .find(|(n, _)| n == name)
        .map(|(_, v)| v.as_str())
}

fn is_ok(resp: &ResponsePlan) -> bool {
    resp.status == 200 && resp.has_body
}

fn strong(tag: &str) -> EntityTag {
    EntityTag {
        weak: false,
        tag: tag.to_string(),
    }
}

fn tag_of_header(value: &str) -> EntityTag {
    strong(value.trim_matches('"'))
}

fn date_secs(value: &str) -> u64 {
    httpdate::parse_http_date(value)
        .unwrap()
        .duration_since(std::time::UNIX_EPOCH)
        .unwrap()
        .as_secs()
}

#[test]
fn test_equiv_utf8_text() {
    assert_eq!(
        equiv_utf8_text(mime::APPLICATION_JAVASCRIPT.to_string()),
        mime::APPLICATION_JAVASCRIPT_UTF_8.to_string()
    );
    assert_eq!(
        equiv_utf8_text(mime::TEXT_HTML.to_string()),
        mime::TEXT_HTML_UTF_8.to_string()
    );
    assert_eq!(
        equiv_utf8_text(mime::TEXT_CSS.to_string()),
        mime::TEXT_CSS_UTF_8.to_string()
    );
    assert_eq!(
        equiv_utf8_text(mime::TEXT_PLAIN.to_string()),
        mime::TEXT_PLAIN_UTF_8.to_string()
    );
    assert_eq!(
        equiv_utf8_text(mime::TEXT_CSV.to_string()),
        mime::TEXT_CSV_UTF_8.to_string()
    );
    assert_eq!(
        equiv_utf8_text(mime::TEXT_TAB_SEPARATED_VALUES.to_string()),
        mime::TEXT_TAB_SEPARATED_VALUES_UTF_8.to_string()
    );

    assert_eq!(
        equiv_utf8_text(mime::TEXT_XML.to_string()),
        mime::TEXT_XML.to_string()
    );
    assert_eq!(
        equiv_utf8_text(mime::IMAGE_PNG.to_string()),
        mime::IMAGE_PNG.to_string()
    );
}

#[test]
fn test_if_none_match() {
    let resp = check_response(no_conditions());
    assert!(is_ok(&resp));
    let etag = header(&resp, "etag").unwrap();

    let resp = check_response(StaticFile {
        if_none_match: Some(TagCondition::Tags(vec![tag_of_header(etag)])),
        ..no_conditions()
    });
    assert_eq!(resp.status, 304);
    assert!(!resp.has_body);

    let resp = check_response(StaticFile {
        if_none_match: Some(TagCondition::Tags(vec![strong("abc")])),
        ..no_conditions()
    });
    assert!(is_ok(&resp));
}

#[test]
fn test_if_modified_since() {
    let resp = check_response(no_conditions());
    assert!(is_ok(&resp));
    let modified = date_secs(header(&resp, "last-modified").unwrap());

    let resp = check_response(StaticFile {
        if_modified_since: Some(modified),
        ..no_conditions()
    });
    assert_eq!(resp.status, 304);

    let resp = check_response(StaticFile {
        if_modified_since: Some(modified - 1),
        ..no_conditions()
    });
    assert!(is_ok(&resp));

    let resp = check_response(StaticFile {
        if_modified_since: Some(modified + 1),
        ..no_conditions()
    });
    assert_eq!(resp.status, 304);
}

#[test]
fn test_if_match() {
    let resp = check_response(no_conditions());
    assert!(is_ok(&resp));
    let etag = header(&resp, "etag").unwrap();

    let resp = check_response(StaticFile {
        if_match: Some(TagCondition::Tags(vec![tag_of_header(etag)])),
        ..no_conditions()
    });
    assert!(is_ok(&resp));

    let resp = check_response(StaticFile {
        if_match: Some(TagCondition::Tags(vec![strong("abc")])),
        ..no_conditions()
    });
    assert_eq!(resp.status, 412);
}

#[test]
fn test_if_unmodified_since() {
    let resp = check_response(no_conditions());
    assert!(is_ok(&resp));
    let modified = date_secs(header(&resp, "last-modified").unwrap());

    let resp = check_response(StaticFile {
        if_unmodified_since: Some(modified),
        ..no_conditions()
    });
    assert!(is_ok(&resp));

    let resp = check_response(StaticFile {
        if_unmodified_since: Some(modified + 1),
        ..no_conditions()
    });
    assert!(is_ok(&resp));

    let resp = check_response(StaticFile {
        if_unmodified_since: Some(modified - 1),
        ..no_conditions()
    });
    assert_eq!(resp.status, 412);
}

#[test]
fn hex_formatting() {
    assert_eq!(to_hex(0), "0");
    assert_eq!(to_hex(10), "a");
    assert_eq!(to_hex(255), "ff");
    assert_eq!(to_hex(0x1234_abcd), "1234abcd");
    assert_eq!(to_hex(u64::MAX), "ffffffffffffffff");
}

#[test]
fn etag_format() {
    let t = Timestamp {
        secs: 16,
        nanos: 10,
    };
    let e = etag(1, &t, 2);
    assert!(!e.weak);
    assert_eq!(e.tag, "1:2:10:a");
    assert_eq!(e.header_value(), "\"1:2:10:a\"");
    let w = EntityTag {
        weak: true,
        tag: "x".to_string(),
    };
    assert_eq!(w.header_value(), "W/\"x\"");
}

#[test]
fn etag_is_deterministic() {
    let a = generate(&metadata()).unwrap();
    let b = generate(&metadata()).unwrap();
    assert_eq!(a.tag, b.tag);
    assert_eq!(a.tag, "1234:3db:6553f100:75bcd15");
}

#[test]
fn etag_changes_with_each_component() {
    let base = generate(&metadata()).unwrap().tag;
    let mut m = metadata();
    m.identity += 1;
    assert_ne!(generate(&m).unwrap().tag, base);
    let mut m = metadata();
    m.size += 1;
    assert_ne!(generate(&m).unwrap().tag, base);
    let mut m = metadata();
    m.modified = Some(Timestamp {
        secs: 1_700_000_001,
        nanos: 123_456_789,
    });
    assert_ne!(generate(&m).unwrap().tag, base);
    let mut m = metadata();
    m.modified = Some(Timestamp {
        secs: 1_700_000_000,
        nanos: 123_456_790,
    });
    assert_ne!(generate(&m).unwrap().tag, base);
}

#[test]
fn no_validator_without_time() {
    let mut m = metadata();
    m.modified = None;
    assert!(generate(&m).is_none());
    let resp = StaticFile {
        if_match: Some(TagCondition::Tags(vec![strong("abc")])),
        if_none_match: Some(TagCondition::Any),
        ..no_conditions()
    }
    .create_response("a.txt", false, &m);
    assert_eq!(resp.status, 200);
    assert!(resp.has_body);
    assert!(header(&resp, "etag").is_none());
    assert!(header(&resp, "last-modified").is_none());
    assert_eq!(header(&resp, "cache-control"), Some("public"));
}

#[test]
fn time_beyond_http_dates_is_not_validated() {
    let m = FileMetadata {
        identity: 1,
        size: 1,
        modified: Some(Timestamp {
            secs: 253_402_300_800,
            nanos: 0,
        }),
    };
    let resp = StaticFile {
        if_match: Some(TagCondition::Tags(vec![strong("abc")])),
        ..no_conditions()
    }
    .create_response("a.txt", false, &m);
    assert_eq!(resp.status, 200);
    assert!(header(&resp, "etag").is_none());
}

#[test]
fn full_response_headers() {
    let resp = check_response(no_conditions());
    assert_eq!(header(&resp, "content-type"), Some("text/x-toml"));
    assert_eq!(header(&resp, "cache-control"), Some("public"));
    assert_eq!(
        header(&resp, "last-modified"),
        Some("Tue, 14 Nov 2023 22:13:20 GMT")
    );
    assert_eq!(
        header(&resp, "etag"),
        Some("\"1234:3db:6553f100:75bcd15\"")
    );
    assert_eq!(resp.headers.len(), 4);
}

#[test]
fn not_modified_keeps_validators_but_no_body() {
    let resp = check_response(StaticFile {
        if_none_match: Some(TagCondition::Any),
        ..no_conditions()
    });
    assert_eq!(resp.status, 304);
    assert!(!resp.has_body);
    assert!(header(&resp, "cache-control").is_none());
    assert!(header(&resp, "etag").is_some());
    assert!(header(&resp, "last-modified").is_some());
}

#[test]
fn if_none_match_takes_precedence_over_if_modified_since() {
    let resp = check_response(StaticFile {
        if_none_match: Some(TagCondition::Tags(vec![strong("abc")])),
        if_modified_since: Some(1_700_000_000),
        ..no_conditions()
    });
    assert_eq!(resp.status, 200);
    assert!(resp.has_body);
}

#[test]
fn if_match_precedes_if_none_match() {
    let current = generate(&metadata()).unwrap();
    let resp = check_response(StaticFile {
        if_match: Some(TagCondition::Tags(vec![strong("abc")])),
        if_none_match: Some(TagCondition::Tags(vec![current])),
        ..no_conditions()
    });
    assert_eq!(resp.status, 412);
    assert!(!resp.has_body);
}

#[test]
fn weak_tags_compare_weakly_only() {
    let current = generate(&metadata()).unwrap();
    let weak = EntityTag {
        weak: true,
        tag: current.tag.clone(),
    };
    let list = TagCondition::Tags(vec![strong("x"), weak.clone()]);
    assert!(!tag_matches(&list, &current, true));
    assert!(tag_matches(&list, &current, false));
    assert!(tag_matches(&TagCondition::Any, &current, true));
    assert!(!tag_matches(&TagCondition::Tags(vec![]), &current, false));

    let resp = check_response(StaticFile {
        if_match: Some(TagCondition::Tags(vec![weak.clone()])),
        ..no_conditions()
    });
    assert_eq!(resp.status, 412);
    let resp = check_response(StaticFile {
        if_none_match: Some(TagCondition::Tags(vec![weak])),
        ..no_conditions()
    });
    assert_eq!(resp.status, 304);
}

#[test]
fn evaluate_outcomes() {
    let current = generate(&metadata()).unwrap();
    let h = StaticFile {
        if_unmodified_since: Some(99),
        ..no_conditions()
    };
    assert_eq!(h.evaluate(&current, Some(100)), Outcome::PreconditionFailed);
    assert_eq!(h.evaluate(&current, Some(99)), Outcome::Full);
    assert_eq!(h.evaluate(&current, None), Outcome::Full);
}

#[test]
fn content_type_upgrade() {
    assert_eq!(resolve("index.html", false).as_deref(), Some("text/html"));
    assert_eq!(
        resolve("index.html", true).as_deref(),
        Some("text/html; charset=utf-8")
    );
    assert_eq!(resolve("logo.png", true).as_deref(), Some("image/png"));
    assert_eq!(resolve("no_extension", true), None);
    assert_eq!(
        resolve("app.css", true).as_deref(),
        Some("text/css; charset=utf-8")
    );
}

#[test]
fn content_type_header_in_response() {
    let resp = StaticFile {
        if_modified_since: Some(2_000_000_000),
        ..no_conditions()
    }
    .create_response("index.html", true, &metadata());
    assert_eq!(resp.status, 304);
    assert_eq!(
        header(&resp, "content-type"),
        Some("text/html; charset=utf-8")
    );
    let resp = no_conditions().create_response("data.unknownext", true, &metadata());
    assert!(header(&resp, "content-type").is_none());
}

#[test]
fn i18n_args_keep_order_and_replace() {
    let args = I18NArgs::new()
        .with("name".to_string(), "Ann".to_string())
        .with("count".to_string(), "3".to_string())
        .with("name".to_string(), "Bo".to_string());
    let pairs: Vec<(String, String)> = args.entries().clone();
    assert_eq!(
        pairs,
        vec![
            ("name".to_string(), "Bo".to_string()),
            ("count".to_string(), "3".to_string())
        ]
    );
    let mut args = I18NArgs::new();
    assert!(args.entries().is_empty());
    args.set("a".to_string(), "1".to_string());
    assert_eq!(args.entries().len(), 1);
}
