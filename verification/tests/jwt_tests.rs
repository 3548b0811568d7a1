use mercure::jwt::{
    PublisherJwt, PublisherJwtSecret, SubscriberJwt, SubscriberJwtMaxAge, SubscriberJwtSecret,
};
use mercure::TopicSelector;

fn publisher_secret() -> PublisherJwtSecret {
    PublisherJwtSecret::from(b"!ChangeThisMercureHubJWTSecretKey!".to_vec())
}

fn subscriber_secret() -> SubscriberJwtSecret {
    SubscriberJwtSecret::from(b"!ChangeThisMercureHubJWTSecretKey!".to_vec())
}

#[test]
fn it_creates_publisher_jwt_with_wildcard() {
    let publisher_jwt =
        PublisherJwt::new(&publisher_secret(), vec![TopicSelector::Wildcard]).expect("JWT is not encoded");
    assert_eq!(
        publisher_jwt.encoded().as_str(),
        "eyJhbGciOiJIUzI1NiIsInR5cCI6IkpXVCJ9.eyJtZXJjdXJlIjp7InB1Ymxpc2giOlsiKiJdfX0.\
         a8cjcSRUAcHdnGNMKifA4BK5epRXxQI0UBp2XpNrBdw"
    );
}

#[test]
fn it_creates_publisher_jwt_with_uri_template() {
    let template = mercure::topic_selector::UriTemplate::try_from("https://example.com/books/{book_id}")
        .expect("the URI Template should be valid");
    let publisher_jwt = PublisherJwt::new(
        &publisher_secret(),
        vec![TopicSelector::UriTemplate(template)],
    )
    .expect("JWT is not encoded");
    assert_eq!(
        publisher_jwt.encoded().as_str(),
        "eyJhbGciOiJIUzI1NiIsInR5cCI6IkpXVCJ9.\
         eyJtZXJjdXJlIjp7InB1Ymxpc2giOlsiaHR0cHM6Ly9leGFtcGxlLmNvbS9ib29rcy97Ym9va19pZH0iXX19.\
         eyl-c2BUWrnx6VZNBfKWnTI2t28yO5NcHUgn83womNE"
    );
}

#[test]
fn it_creates_publisher_jwt_with_several_selectors() {
    let template = mercure::topic_selector::UriTemplate::try_from("https://example.com/books/{book_id}")
        .expect("the URI Template should be valid");
    let publisher_jwt = PublisherJwt::new(
        &publisher_secret(),
        vec![TopicSelector::Wildcard, TopicSelector::UriTemplate(template)],
    )
    .expect("JWT is not encoded");
    assert_eq!(
        publisher_jwt.encoded().as_str(),
        "eyJhbGciOiJIUzI1NiIsInR5cCI6IkpXVCJ9.\
         eyJtZXJjdXJlIjp7InB1Ymxpc2giOlsiKiIsImh0dHBzOi8vZXhhbXBsZS5jb20vYm9va3Mve2Jvb2tfaWR9Il19fQ.\
         hPo1pQ1VgT-9c6wKgEVPqSh7SjPkKx2WpSA4iiqyraw"
    );
}

#[test]
fn it_creates_subscriber_jwt_with_wildcard() {
    let subscriber_jwt = SubscriberJwt::new(&subscriber_secret(), None, vec![TopicSelector::Wildcard])
        .expect("JWT is not encoded");
    assert_eq!(
        subscriber_jwt.encoded().as_str(),
        "eyJhbGciOiJIUzI1NiIsInR5cCI6IkpXVCJ9.eyJtZXJjdXJlIjp7InN1YnNjcmliZSI6WyIqIl19fQ.\
         TMzyyYqIldgBLhqpiOR9a_HBk7iiP60Pb4X65ICaouA"
    );
}

#[test]
fn it_creates_subscriber_jwt_with_uri_template() {
    let template =
        mercure::topic_selector::UriTemplate::try_from("https://example.com/users/1/books/{book_id}")
            .expect("the URI Template should be valid");
    let subscriber_jwt = SubscriberJwt::new(
        &subscriber_secret(),
        None,
        vec![TopicSelector::UriTemplate(template)],
    )
    .expect("JWT is not encoded");
    assert_eq!(
        subscriber_jwt.encoded().as_str(),
        "eyJhbGciOiJIUzI1NiIsInR5cCI6IkpXVCJ9.\
         eyJtZXJjdXJlIjp7InN1YnNjcmliZSI6WyJodHRwczovL2V4YW1wbGUuY29tL3VzZXJzLzEvYm9va3Mve2Jvb2tfaWR9Il19fQ.\
         8ctfXioRle93VxIwoCxikZtTBBSGrL_WtkXrS5wVPDY"
    );
}

#[test]
fn it_creates_subscriber_jwt_with_fixed_expiry() {
    let subscriber_jwt = SubscriberJwt::new_with_expiry(
        &subscriber_secret(),
        Some(1000),
        vec![TopicSelector::Wildcard],
    );
    assert_eq!(
        subscriber_jwt.encoded().as_str(),
        "eyJhbGciOiJIUzI1NiIsInR5cCI6IkpXVCJ9.\
         eyJleHAiOjEwMDAsIm1lcmN1cmUiOnsic3Vic2NyaWJlIjpbIioiXX19.\
         tF_NlfLCinc4u2jQEORJBaVvnkX8JuCvNHb3hXpp8OA"
    );
}

#[test]
fn it_sets_an_expiry_when_a_max_age_is_given() {
    let max_age = SubscriberJwtMaxAge::try_from(std::time::Duration::from_secs(3600))
        .expect("one hour should be a legal max-age");
    let with_expiry =
        SubscriberJwt::new(&subscriber_secret(), Some(max_age), vec![TopicSelector::Wildcard])
            .expect("JWT is not encoded");
    let without_expiry =
        SubscriberJwt::new(&subscriber_secret(), None, vec![TopicSelector::Wildcard])
            .expect("JWT is not encoded");
    let parts: Vec<&str> = with_expiry.encoded().split('.').collect();
    assert_eq!(parts.len(), 3);
    assert_eq!(parts[0], "eyJhbGciOiJIUzI1NiIsInR5cCI6IkpXVCJ9");
    assert_ne!(with_expiry.encoded(), without_expiry.encoded());
}

#[test]
fn it_accepts_a_max_age_at_the_cookie_lifetime_limit() {
    let max_age = SubscriberJwtMaxAge::try_from(std::time::Duration::from_secs(34_560_000))
        .expect("the limit itself should be accepted");
    assert_eq!(max_age.as_secs(), 34_560_000);
    assert_eq!(max_age.subsec_nanos(), 0);
}

#[test]
fn it_rejects_a_max_age_over_the_cookie_lifetime_limit() {
    let err = SubscriberJwtMaxAge::try_from(std::time::Duration::from_secs(34_560_001))
        .expect_err("more than the limit should be rejected");
    assert!(matches!(
        err.kind(),
        mercure::jwt::TryFromDurationErrorKind::CookieLifetimeLimitExceeded
    ));
    assert_eq!(err.message(), "max-age must not be more than 400 days");
}

#[test]
fn it_rejects_a_max_age_a_nanosecond_over_the_limit() {
    let result = SubscriberJwtMaxAge::try_from(std::time::Duration::new(34_560_000, 1));
    assert!(result.is_err());
}

#[test]
fn it_round_trips_a_max_age_through_a_duration() {
    let duration = std::time::Duration::new(7200, 123_456_789);
    let max_age = SubscriberJwtMaxAge::try_from(duration).expect("two hours should be accepted");
    assert_eq!(max_age.to_duration(), duration);
    assert_eq!(max_age.as_secs(), 7200);
    assert_eq!(max_age.subsec_nanos(), 123_456_789);
}

#[test]
fn it_exposes_the_largest_max_age() {
    let max_age = SubscriberJwtMaxAge::max();
    assert_eq!(max_age.as_secs(), 34_560_000);
    assert_eq!(max_age.subsec_nanos(), 0);
    assert_eq!(
        max_age.to_duration(),
        std::time::Duration::from_secs(34_560_000)
    );
}

#[test]
fn it_accepts_max_age_parts_exactly_up_to_the_limit() {
    assert!(SubscriberJwtMaxAge::try_from_parts(34_559_999, 999_999_999).is_ok());
    assert!(SubscriberJwtMaxAge::try_from_parts(34_560_000, 0).is_ok());
    assert!(SubscriberJwtMaxAge::try_from_parts(34_560_000, 1).is_err());
    assert!(SubscriberJwtMaxAge::try_from_parts(34_560_001, 0).is_err());
}

#[test]
fn it_derives_the_expiry_timestamp_from_a_clock_reading() {
    let max_age = SubscriberJwtMaxAge::try_from_parts(10, 999_999_999)
        .expect("a small max-age should be accepted");
    assert_eq!(max_age.expiry_timestamp(100, 1), Some(111));
    assert_eq!(max_age.expiry_timestamp(100, 0), Some(110));

    let max_age = SubscriberJwtMaxAge::try_from_parts(10, 0)
        .expect("a small max-age should be accepted");
    assert_eq!(
        max_age.expiry_timestamp(i64::MAX as u64 - 10, 0),
        Some(i64::MAX as u64)
    );
    assert_eq!(max_age.expiry_timestamp(i64::MAX as u64 - 9, 0), None);
    assert_eq!(max_age.expiry_timestamp(u64::MAX - 10, 0), None);
}

#[test]
fn it_describes_token_issuance_errors() {
    let err = mercure::jwt::PublisherJwtError::new(
        mercure::jwt::PublisherJwtErrorKind::EncodeAndSign,
        "secret unusable".to_string(),
    );
    assert!(matches!(
        err.kind(),
        mercure::jwt::PublisherJwtErrorKind::EncodeAndSign
    ));
    assert_eq!(err.message(), "failed to encode and sign JWT: secret unusable");

    let err = mercure::jwt::SubscriberJwtError::new(
        mercure::jwt::SubscriberJwtErrorKind::EncodeAndSign,
        "secret unusable".to_string(),
    );
    assert!(matches!(
        err.kind(),
        mercure::jwt::SubscriberJwtErrorKind::EncodeAndSign
    ));
    assert_eq!(err.message(), "failed to encode and sign JWT: secret unusable");
}
