use mercure::topic_selector::{ParseUriTemplateError, UriTemplate};
use mercure::{Topic, TopicSelector};

#[test]
fn it_yields_the_canonical_url_first() {
    let topic = Topic::new(
        "https://example.com/books/1".to_string(),
        vec![
            "https://example.com/users/1/books/1".to_string(),
            "https://example.com/users/2/books/1".to_string(),
        ],
    );
    assert_eq!(
        topic.iter(),
        vec![
            "https://example.com/books/1".to_string(),
            "https://example.com/users/1/books/1".to_string(),
            "https://example.com/users/2/books/1".to_string(),
        ]
    );
    assert_eq!(topic.iter().len(), 3);
    assert_eq!(topic.canonical_url(), "https://example.com/books/1");
    assert_eq!(
        topic.alternate_urls(),
        &vec![
            "https://example.com/users/1/books/1".to_string(),
            "https://example.com/users/2/books/1".to_string(),
        ]
    );
}

#[test]
fn it_preserves_duplicate_topic_urls() {
    let topic = Topic::new(
        "https://example.com/books/1".to_string(),
        vec!["https://example.com/books/1".to_string()],
    );
    assert_eq!(topic.iter().len(), 2);
    assert_eq!(topic.iter()[0], topic.iter()[1]);
}

#[test]
fn it_builds_a_topic_from_a_canonical_url_alone() {
    let topic = Topic::from("https://example.com/books/1".to_string());
    assert_eq!(topic.iter(), vec!["https://example.com/books/1".to_string()]);
    assert!(topic.alternate_urls().is_empty());
}

#[test]
fn it_accepts_valid_uri_templates() {
    let accepted = [
        "https://example.com/books/{book_id}",
        "https://example.com/users/{user_id}/books/{book_id}",
        "https://example.com/search{?q,lang}",
        "https://example.com{/path*}{?page}",
        "https://example.com/plain/no/expressions",
    ];
    for template in accepted {
        let parsed = UriTemplate::try_from(template)
            .expect("a syntactically valid URI Template should be accepted");
        assert_eq!(parsed.as_str(), template);
    }
}

#[test]
fn it_rejects_invalid_uri_templates() {
    let rejected = [
        "https://example.com/books/{book_id",
        "https://example.com/books/{}",
        "https://example.com/books/{book id}",
        "https://example.com/<",
    ];
    for template in rejected {
        let err: ParseUriTemplateError = UriTemplate::try_from(template)
            .expect_err("a string violating the template grammar should be rejected");
        let message = err.message();
        assert!(message.starts_with("failed to parse URI Template: "));
        assert!(message.contains("position"));
    }
}

#[test]
fn it_renders_selectors_as_single_strings() {
    assert_eq!(TopicSelector::Wildcard.render(), "*");
    let template = UriTemplate::try_from("https://example.com/books/{book_id}")
        .expect("the URI Template should be valid");
    assert_eq!(
        TopicSelector::UriTemplate(template).render(),
        "https://example.com/books/{book_id}"
    );
}

#[test]
fn it_orders_the_wildcard_before_templates() {
    let template = UriTemplate::try_from("https://example.com/books/{book_id}")
        .expect("the URI Template should be valid");
    assert!(TopicSelector::Wildcard < TopicSelector::UriTemplate(template));
}

#[test]
fn it_escapes_bytes_like_the_form_urlencoded_serializer() {
    assert_eq!(
        mercure::form::form_escape_bytes(b"a b/c*d.e_f-g"),
        b"a+b%2Fc*d.e_f-g".to_vec()
    );
    assert_eq!(mercure::form::form_escape_bytes(b""), Vec::<u8>::new());
    assert_eq!(mercure::form::form_escape_bytes(b"%"), b"%25".to_vec());
}

#[test]
fn it_encodes_base64url_without_padding() {
    assert_eq!(mercure::base64url::base64url_encode(b""), Vec::<u8>::new());
    assert_eq!(mercure::base64url::base64url_encode(b"M"), b"TQ".to_vec());
    assert_eq!(mercure::base64url::base64url_encode(b"Ma"), b"TWE".to_vec());
    assert_eq!(mercure::base64url::base64url_encode(b"Man"), b"TWFu".to_vec());
    assert_eq!(mercure::base64url::base64url_encode(b"hello"), b"aGVsbG8".to_vec());
    assert_eq!(
        mercure::base64url::base64url_encode(&[0xfb, 0xff, 0xfe]),
        b"-__-".to_vec()
    );
}

#[test]
fn it_compares_byte_slices() {
    assert!(mercure::ascii::bytes_eq(b"abc", b"abc"));
    assert!(!mercure::ascii::bytes_eq(b"abc", b"abd"));
    assert!(!mercure::ascii::bytes_eq(b"abc", b"ab"));
    assert!(mercure::ascii::bytes_eq(b"", b""));
}

#[test]
fn it_exposes_the_cookie_constants() {
    assert_eq!(
        mercure::cookie::MERCURE_AUTHORIZATION_COOKIE_NAME,
        "mercureAuthorization"
    );
    assert_eq!(mercure::cookie::MAX_AGE_LIMIT_SECS, 34_560_000);
    assert_eq!(mercure::jwt::HS256_SECRET_KEY_LEN, 64);
}
