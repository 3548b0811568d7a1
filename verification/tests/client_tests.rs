use mercure::client::{
    authorization_header_value, publish_update_body, HubUrl, PublishUpdateError,
    PublishUpdateErrorKind, RevisionId, FORM_URLENCODED_CONTENT_TYPE,
};
use mercure::{PublishUpdatePrivacy, Topic};

fn topic_from(canonical: &str, alternates: &[&str]) -> Topic {
    let canonical_url = canonical
        .parse::<url::Url>()
        .expect("the canonical URL should parse")
        .as_str()
        .to_string();
    let alternate_urls = alternates
        .iter()
        .map(|alternate| {
            alternate
                .parse::<url::Url>()
                .expect("the alternate URL should parse")
                .as_str()
                .to_string()
        })
        .collect();
    Topic::new(canonical_url, alternate_urls)
}

#[test]
fn it_serializes_privacy_if_private() {
    let topic = topic_from(
        "https://example.com/books/1",
        &["https://example.com/users/1/books/1"],
    );
    let encoded_params = publish_update_body(&topic, None, PublishUpdatePrivacy::Private);
    assert_eq!(
        encoded_params,
        "topic=https%3A%2F%2Fexample.com%2Fbooks%2F1&topic=https%3A%2F%2Fexample.com%2Fusers%\
         2F1%2Fbooks%2F1&private=on"
    );
}

#[test]
fn it_skips_serializing_privacy_if_public() {
    let topic = topic_from("https://example.com/books/1", &[]);
    let encoded_params = publish_update_body(&topic, None, PublishUpdatePrivacy::Public);
    assert_eq!(encoded_params, "topic=https%3A%2F%2Fexample.com%2Fbooks%2F1");
}

#[test]
fn it_includes_the_data_field_verbatim_when_given() {
    let topic = topic_from("https://example.com/books/1", &[]);
    let data = r#"{"isbn":"9780735218789"}"#;
    let encoded_params = publish_update_body(&topic, Some(data), PublishUpdatePrivacy::Public);
    assert_eq!(
        encoded_params,
        "topic=https%3A%2F%2Fexample.com%2Fbooks%2F1&data=%7B%22isbn%22%3A%229780735218789%22%7D"
    );
}

#[test]
fn it_keeps_an_empty_data_field_distinct_from_an_absent_one() {
    let topic = topic_from("https://example.com/books/1", &[]);
    let with_empty = publish_update_body(&topic, Some(""), PublishUpdatePrivacy::Public);
    let without = publish_update_body(&topic, None, PublishUpdatePrivacy::Public);
    assert_eq!(
        with_empty,
        "topic=https%3A%2F%2Fexample.com%2Fbooks%2F1&data="
    );
    assert_eq!(without, "topic=https%3A%2F%2Fexample.com%2Fbooks%2F1");
}

#[test]
fn it_form_escapes_spaces_and_non_ascii_data() {
    let topic = topic_from("https://example.com/books/1", &[]);
    let encoded_params =
        publish_update_body(&topic, Some("caf\u{e9} au lait*"), PublishUpdatePrivacy::Public);
    assert_eq!(
        encoded_params,
        "topic=https%3A%2F%2Fexample.com%2Fbooks%2F1&data=caf%C3%A9+au+lait*"
    );
}

#[test]
fn it_encodes_like_the_reference_form_serializer() {
    let pairs = vec![
        ("topic", "https://example.com/books/1"),
        ("topic", "https://example.com/users/1/books/1"),
        ("data", "a value with spaces & symbols = \u{2603}"),
    ];
    let reference = serde_html_form::to_string(&pairs)
        .expect("the reference serializer should accept string pairs");
    let topic = topic_from(
        "https://example.com/books/1",
        &["https://example.com/users/1/books/1"],
    );
    let body = publish_update_body(
        &topic,
        Some("a value with spaces & symbols = \u{2603}"),
        PublishUpdatePrivacy::Public,
    );
    assert_eq!(body, reference);
}

#[test]
fn it_accepts_the_well_known_hub_url() {
    let url = "https://localhost/.well-known/mercure"
        .parse::<url::Url>()
        .expect("the hub URL should parse");
    let hub_url = HubUrl::try_from(url.clone()).expect("the well-known path should be accepted");
    assert_eq!(hub_url.url(), &url);
    assert_eq!(hub_url.as_str(), "https://localhost/.well-known/mercure");
}

#[test]
fn it_rejects_a_hub_url_with_another_path() {
    let url = "https://localhost/mercure"
        .parse::<url::Url>()
        .expect("the URL should parse");
    let Err(err) = HubUrl::try_from(url) else {
        panic!("a wrong path should be rejected");
    };
    assert_eq!(err.message(), "the path of the URL must be /.well-known/mercure");
}

#[test]
fn it_keeps_the_revision_id_verbatim() {
    let revision_id = RevisionId::new("urn:uuid:5e94c686-2c0b-4f9b-958c-92ccc3bbb4eb".to_string());
    assert_eq!(
        revision_id.as_str(),
        "urn:uuid:5e94c686-2c0b-4f9b-958c-92ccc3bbb4eb"
    );
}

#[test]
fn it_reports_whether_an_update_is_public() {
    assert!(PublishUpdatePrivacy::Public.is_public());
    assert!(!PublishUpdatePrivacy::Private.is_public());
}

#[test]
fn it_builds_the_publish_request_headers() {
    assert_eq!(FORM_URLENCODED_CONTENT_TYPE, "application/x-www-form-urlencoded");
    let secret =
        mercure::jwt::PublisherJwtSecret::from(b"!ChangeThisMercureHubJWTSecretKey!".to_vec());
    let publisher_jwt =
        mercure::jwt::PublisherJwt::new(&secret, vec![mercure::TopicSelector::Wildcard])
            .expect("JWT is not encoded");
    let header = authorization_header_value(&publisher_jwt);
    assert_eq!(
        header,
        format!("Bearer {}", publisher_jwt.encoded())
    );
    assert!(header.starts_with("Bearer eyJhbGciOiJIUzI1NiIsInR5cCI6IkpXVCJ9."));
}

#[test]
fn it_describes_publish_errors_by_kind() {
    let err = PublishUpdateError::new(
        PublishUpdateErrorKind::SerializeParameters,
        "bad field".to_string(),
    );
    assert!(matches!(err.kind(), PublishUpdateErrorKind::SerializeParameters));
    assert_eq!(
        err.message(),
        "failed to serialize parameters to application/x-www-form-urlencoded: bad field"
    );
    let err = PublishUpdateError::new(PublishUpdateErrorKind::SendRequest, "refused".to_string());
    assert!(matches!(err.kind(), PublishUpdateErrorKind::SendRequest));
    assert_eq!(err.message(), "failed to send request to Mercure hub: refused");
    let err = PublishUpdateError::new(PublishUpdateErrorKind::ReadResponse, "closed".to_string());
    assert!(matches!(err.kind(), PublishUpdateErrorKind::ReadResponse));
    assert_eq!(err.message(), "failed to read response from Mercure hub: closed");
}
