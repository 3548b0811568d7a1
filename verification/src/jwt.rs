//! The access-token issuance subsystem: publisher and subscriber JWT
//! access tokens carrying scoped `mercure` claims, signed with
//! HMAC-SHA256 at construction.
//!
//! A token is the compact three-part serialization
//! `base64url(header).base64url(claims).base64url(signature)` with no
//! padding; the header is always `{"alg":"HS256","typ":"JWT"}`, the
//! claims are compact JSON with the registered `exp` claim first (when
//! present) and the private `mercure` claim after it, and the signature
//! is the HMAC-SHA256 of the first two parts joined by a dot. Signing
//! happens once, inside the constructor: an existing token is immutable
//! and its rendering is infallible.

use vstd::prelude::*;
use vstd::utf8::encode_utf8;

use secrecy::ExposeSecret;

use crate::ascii::{all_ascii, ascii_to_string, chars_of_ascii, push_bytes};
use crate::base64url::{base64url, base64url_encode};
use crate::json::{dec_digits, json_string, push_decimal, push_json_string};
use crate::topic_selector::TopicSelector;

verus! {

/// The recommended minimum length, in bytes, of an HMAC secret key: the
/// hash output size of HMAC-SHA256 per the JWS algorithm registry. This
/// is advisory, not enforced.
pub const HS256_SECRET_KEY_LEN: usize = 64;

/// The HMAC-SHA256 of `msg` under `key`, as computed by the signing
/// primitive. It depends on the key and message bytes alone; its pages
/// of bit-level definition stay with the outside crate.
pub uninterp spec fn hmac_sha256(key: Seq<u8>, msg: Seq<u8>) -> Seq<u8>;

/// The structured authorization payload of a token: which topic
/// selectors its holder may publish to or subscribe to, and an optional
/// expiry timestamp (seconds since the Unix epoch). A side that is
/// absent is omitted entirely from the serialized claims, never emitted
/// as null or empty.
pub ghost struct MercureClaimModel {
    pub publish: Option<Seq<Seq<char>>>,
    pub subscribe: Option<Seq<Seq<char>>>,
    pub expiry: Option<u64>,
}

/// The claim model of a publisher token: only the `publish` side is
/// populated, and no expiry is set.
pub open spec fn publisher_claims(selectors: Seq<Seq<char>>) -> MercureClaimModel {
    MercureClaimModel { publish: Some(selectors), subscribe: None, expiry: None }
}

/// The claim model of a subscriber token: only the `subscribe` side is
/// populated.
pub open spec fn subscriber_claims(selectors: Seq<Seq<char>>, expiry: Option<u64>) -> MercureClaimModel {
    MercureClaimModel { publish: None, subscribe: Some(selectors), expiry }
}

/// The bytes of the JSON label `"publish":`.
pub open spec fn publish_label() -> Seq<u8> {
    seq![0x22u8, 0x70u8, 0x75u8, 0x62u8, 0x6cu8, 0x69u8, 0x73u8, 0x68u8, 0x22u8, 0x3au8]
}

/// The bytes of the JSON label `"subscribe":`.
pub open spec fn subscribe_label() -> Seq<u8> {
    seq![
        0x22u8,
        0x73u8,
        0x75u8,
        0x62u8,
        0x73u8,
        0x63u8,
        0x72u8,
        0x69u8,
        0x62u8,
        0x65u8,
        0x22u8,
        0x3au8,
    ]
}

/// The bytes of the JSON label `"mercure":`.
pub open spec fn mercure_label() -> Seq<u8> {
    seq![0x22u8, 0x6du8, 0x65u8, 0x72u8, 0x63u8, 0x75u8, 0x72u8, 0x65u8, 0x22u8, 0x3au8]
}

/// The bytes of the JSON label `"exp":`.
pub open spec fn exp_label() -> Seq<u8> {
    seq![0x22u8, 0x65u8, 0x78u8, 0x70u8, 0x22u8, 0x3au8]
}

/// The JSON array items of a selector list: the JSON strings of the
/// selector wire strings, joined by commas.
pub open spec fn selector_items(selectors: Seq<Seq<char>>) -> Seq<u8>
    decreases selectors.len(),
{
    if selectors.len() == 0 {
        Seq::empty()
    } else if selectors.len() == 1 {
        json_string(encode_utf8(selectors[0]))
    } else {
        selector_items(selectors.drop_last()) + seq![0x2cu8] + json_string(
            encode_utf8(selectors.last()),
        )
    }
}

/// A JSON entry `"publish":[...]` scoping the selectors a publisher may
/// publish to.
pub open spec fn publish_entry(selectors: Seq<Seq<char>>) -> Seq<u8> {
    publish_label() + seq![0x5bu8] + selector_items(selectors) + seq![0x5du8]
}

/// A JSON entry `"subscribe":[...]` scoping the selectors a subscriber
/// may subscribe to.
pub open spec fn subscribe_entry(selectors: Seq<Seq<char>>) -> Seq<u8> {
    subscribe_label() + seq![0x5bu8] + selector_items(selectors) + seq![0x5du8]
}

/// The entries of the `mercure` claim object: the populated sides, in
/// `publish`, `subscribe` order; an absent side contributes nothing.
pub open spec fn mercure_entries(
    publish: Option<Seq<Seq<char>>>,
    subscribe: Option<Seq<Seq<char>>>,
) -> Seq<u8> {
    match (publish, subscribe) {
        (Option::None, Option::None) => Seq::empty(),
        (Option::Some(p), Option::None) => publish_entry(p),
        (Option::None, Option::Some(s)) => subscribe_entry(s),
        (Option::Some(p), Option::Some(s)) => publish_entry(p) + seq![0x2cu8] + subscribe_entry(s),
    }
}

/// The registered `exp` entry `"exp":<seconds>,` of the claims object,
/// present exactly when an expiry is set. It precedes the `mercure`
/// claim.
pub open spec fn expiry_entry(expiry: Option<u64>) -> Seq<u8> {
    match expiry {
        Option::Some(e) => exp_label() + dec_digits(e as nat) + seq![0x2cu8],
        Option::None => Seq::empty(),
    }
}

/// The exact compact JSON serialization of a claim model:
/// `{"exp":<n>,"mercure":{...}}`, with `exp` omitted when absent.
pub open spec fn claims_json(m: MercureClaimModel) -> Seq<u8> {
    seq![0x7bu8] + expiry_entry(m.expiry) + mercure_label() + seq![0x7bu8] + mercure_entries(
        m.publish,
        m.subscribe,
    ) + seq![0x7du8, 0x7du8]
}

/// A publisher token's claims carry the `mercure` object with exactly
/// the `publish` entry and no `subscribe` key nor expiry; a subscriber
/// token's claims are the mirror image, with the registered expiry
/// entry in front exactly when an expiry is set.
pub proof fn lemma_one_sided_claims(selectors: Seq<Seq<char>>, expiry: Option<u64>)
    ensures
        claims_json(publisher_claims(selectors)) == seq![0x7bu8] + mercure_label() + seq![0x7bu8]
            + publish_label() + seq![0x5bu8] + selector_items(selectors) + seq![0x5du8] + seq![
            0x7du8,
            0x7du8,
        ],
        claims_json(subscriber_claims(selectors, expiry)) == seq![0x7bu8] + expiry_entry(expiry)
            + mercure_label() + seq![0x7bu8] + subscribe_label() + seq![0x5bu8] + selector_items(
            selectors,
        ) + seq![0x5du8] + seq![0x7du8, 0x7du8],
{
    assert(claims_json(publisher_claims(selectors)) =~= seq![0x7bu8] + mercure_label() + seq![
        0x7bu8,
    ] + publish_label() + seq![0x5bu8] + selector_items(selectors) + seq![0x5du8] + seq![
        0x7du8,
        0x7du8,
    ]);
    assert(claims_json(subscriber_claims(selectors, expiry)) =~= seq![0x7bu8] + expiry_entry(
        expiry,
    ) + mercure_label() + seq![0x7bu8] + subscribe_label() + seq![0x5bu8] + selector_items(
        selectors,
    ) + seq![0x5du8] + seq![0x7du8, 0x7du8]);
}

/// The bytes of the fixed token header `{"alg":"HS256","typ":"JWT"}`:
/// HMAC-SHA256 is the only algorithm ever used.
pub open spec fn header_json() -> Seq<u8> {
    seq![
        0x7bu8,
        0x22u8,
        0x61u8,
        0x6cu8,
        0x67u8,
        0x22u8,
        0x3au8,
        0x22u8,
        0x48u8,
        0x53u8,
        0x32u8,
        0x35u8,
        0x36u8,
        0x22u8,
        0x2cu8,
        0x22u8,
        0x74u8,
        0x79u8,
        0x70u8,
        0x22u8,
        0x3au8,
        0x22u8,
        0x4au8,
        0x57u8,
        0x54u8,
        0x22u8,
        0x7du8,
    ]
}

/// The signing input of a token: the base64url encodings of the header
/// and of the claims, joined by a dot.
pub open spec fn signing_input(claims: Seq<u8>) -> Seq<u8> {
    base64url(header_json()) + seq![0x2eu8] + base64url(claims)
}

/// The full compact token: the signing input, a dot, and the base64url
/// encoding of the HMAC-SHA256 signature of the signing input under the
/// key.
pub open spec fn compact_jwt(key: Seq<u8>, claims: Seq<u8>) -> Seq<u8> {
    signing_input(claims) + seq![0x2eu8] + base64url(hmac_sha256(key, signing_input(claims)))
}

/// Holds the raw key bytes inside a `secrecy::SecretSlice`, which
/// refuses ordinary printing and serialization and zeroes its backing
/// memory on drop. Opaque to the verifier; the ghost bytes of the
/// enclosing [`SigningKey`] model its contents.
#[verifier::external_body]
struct SecretBytes {
    inner: secrecy::SecretSlice<u8>,
}

/// An HMAC signing key: the protected secret together with the ghost
/// image of the bytes it was built from.
pub(crate) struct SigningKey {
    secret: SecretBytes,
    bytes: Ghost<Seq<u8>>,
}

impl View for SigningKey {
    type V = Seq<u8>;

    closed spec fn view(&self) -> Seq<u8> {
        self.bytes@
    }
}

/// Relies on `secrecy::SecretSlice::from`: it takes ownership of
/// exactly the given bytes and will zero them on drop.
#[verifier::external_body]
fn secret_bytes_from_vec(vec: Vec<u8>) -> SecretBytes {
    SecretBytes { inner: secrecy::SecretSlice::from(vec) }
}

impl SigningKey {
    /// Builds a signing key from raw key bytes.
    fn from_vec(vec: Vec<u8>) -> (r: SigningKey)
        ensures
            r@ == vec@,
    {
        let ghost bytes = vec@;
        SigningKey { secret: secret_bytes_from_vec(vec), bytes: Ghost(bytes) }
    }
}

/// Relies on `biscuit::jwa::SignatureAlgorithm::sign` with `HS256`,
/// which computes the HMAC-SHA256 of the input under the key and never
/// fails for a byte secret, and on secrecy's `expose_secret` to read
/// back the key bytes this signing key was built from.
#[verifier::external_body]
fn hs256_sign(key: &SigningKey, msg: &[u8]) -> (r: Vec<u8>)
    ensures
        r@ == hmac_sha256(key@, msg@),
{
    let secret = biscuit::jws::Secret::Bytes(key.secret.inner.expose_secret().to_vec());
    biscuit::jwa::SignatureAlgorithm::HS256
        .sign(msg, &secret)
        .expect("HMAC-SHA256 signing with a byte secret cannot fail")
}

/// The view of an optional borrowed selector list.
pub open spec fn opt_selectors_view(selectors: Option<&Vec<TopicSelector>>) -> Option<
    Seq<Seq<char>>,
> {
    match selectors {
        Option::Some(s) => Some(s.deep_view()),
        Option::None => None,
    }
}

/// Appends the JSON array items for a selector list to `out`.
fn push_selector_items(out: &mut Vec<u8>, selectors: &Vec<TopicSelector>)
    ensures
        final(out)@ == old(out)@ + selector_items(selectors.deep_view()),
{
    let mut i: usize = 0;
    while i < selectors.len()
        invariant
            i <= selectors@.len(),
            out@ == old(out)@ + selector_items(selectors.deep_view().take(i as int)),
        decreases selectors@.len() - i,
    {
        if i > 0 {
            out.push(0x2c);
        }
        let rendered = selectors[i].render();
        push_json_string(out, rendered.as_str().as_bytes());
        proof {
            let dv = selectors.deep_view();
            assert(dv.take(i + 1).drop_last() =~= dv.take(i as int));
            assert(dv.take(i + 1).last() == dv[i as int]);
            assert(dv[i as int] == selectors@[i as int]@);
            assert(out@ =~= old(out)@ + selector_items(dv.take(i + 1)));
        }
        i = i + 1;
    }
    proof {
        assert(selectors.deep_view().take(selectors@.len() as int) =~= selectors.deep_view());
    }
}

/// Builds the compact JSON claims for the populated sides and the
/// optional expiry, byte for byte as the token carries them.
#[verifier::rlimit(60)]
fn claims_bytes(
    publish: Option<&Vec<TopicSelector>>,
    subscribe: Option<&Vec<TopicSelector>>,
    expiry: Option<u64>,
) -> (r: Vec<u8>)
    ensures
        r@ == claims_json(
            MercureClaimModel {
                publish: opt_selectors_view(publish),
                subscribe: opt_selectors_view(subscribe),
                expiry,
            },
        ),
{
    let mut out: Vec<u8> = Vec::new();
    out.push(0x7b);
    match expiry {
        Some(e) => {
            let exp_key: Vec<u8> = vec![0x22u8, 0x65u8, 0x78u8, 0x70u8, 0x22u8, 0x3au8];
            push_bytes(&mut out, exp_key.as_slice());
            push_decimal(&mut out, e);
            out.push(0x2c);
        },
        None => {},
    }
    let mercure_key: Vec<u8> = vec![
        0x22u8,
        0x6du8,
        0x65u8,
        0x72u8,
        0x63u8,
        0x75u8,
        0x72u8,
        0x65u8,
        0x22u8,
        0x3au8,
    ];
    push_bytes(&mut out, mercure_key.as_slice());
    out.push(0x7b);
    match publish {
        Some(p) => {
            let publish_key: Vec<u8> = vec![
                0x22u8,
                0x70u8,
                0x75u8,
                0x62u8,
                0x6cu8,
                0x69u8,
                0x73u8,
                0x68u8,
                0x22u8,
                0x3au8,
            ];
            push_bytes(&mut out, publish_key.as_slice());
            out.push(0x5b);
            push_selector_items(&mut out, p);
            out.push(0x5d);
        },
        None => {},
    }
    match subscribe {
        Some(s) => {
            if publish.is_some() {
                out.push(0x2c);
            }
            let subscribe_key: Vec<u8> = vec![
                0x22u8,
                0x73u8,
                0x75u8,
                0x62u8,
                0x73u8,
                0x63u8,
                0x72u8,
                0x69u8,
                0x62u8,
                0x65u8,
                0x22u8,
                0x3au8,
            ];
            push_bytes(&mut out, subscribe_key.as_slice());
            out.push(0x5b);
            push_selector_items(&mut out, s);
            out.push(0x5d);
        },
        None => {},
    }
    out.push(0x7d);
    out.push(0x7d);
    proof {
        assert(out@ =~= claims_json(
            MercureClaimModel {
                publish: opt_selectors_view(publish),
                subscribe: opt_selectors_view(subscribe),
                expiry,
            },
        ));
    }
    out
}

/// Signs a claims buffer into the compact three-part token string.
fn sign_compact(key: &SigningKey, claims: &Vec<u8>) -> (r: String)
    ensures
        r@ == chars_of_ascii(compact_jwt(key@, claims@)),
{
    let header: Vec<u8> = vec![
        0x7bu8,
        0x22u8,
        0x61u8,
        0x6cu8,
        0x67u8,
        0x22u8,
        0x3au8,
        0x22u8,
        0x48u8,
        0x53u8,
        0x32u8,
        0x35u8,
        0x36u8,
        0x22u8,
        0x2cu8,
        0x22u8,
        0x74u8,
        0x79u8,
        0x70u8,
        0x22u8,
        0x3au8,
        0x22u8,
        0x4au8,
        0x57u8,
        0x54u8,
        0x22u8,
        0x7du8,
    ];
    proof {
        assert(header@ =~= header_json());
    }
    let mut input = base64url_encode(header.as_slice());
    input.push(0x2e);
    let claims_b64 = base64url_encode(claims.as_slice());
    push_bytes(&mut input, claims_b64.as_slice());
    proof {
        assert(input@ =~= signing_input(claims@));
    }
    let signature = hs256_sign(key, input.as_slice());
    let signature_b64 = base64url_encode(signature.as_slice());
    let mut token = input;
    token.push(0x2e);
    push_bytes(&mut token, signature_b64.as_slice());
    proof {
        assert(token@ =~= compact_jwt(key@, claims@));
        assert(all_ascii(token@));
    }
    ascii_to_string(token)
}

/// The HMAC secret key used to sign publisher JWT access tokens. It is
/// recommended to use a key of at least [`HS256_SECRET_KEY_LEN`] bytes.
pub struct PublisherJwtSecret {
    key: SigningKey,
}

impl View for PublisherJwtSecret {
    type V = Seq<u8>;

    closed spec fn view(&self) -> Seq<u8> {
        self.key@
    }
}

impl PublisherJwtSecret {
    /// Builds the secret from raw key bytes, which are protected from
    /// that point on.
    pub fn from(vec: Vec<u8>) -> (r: PublisherJwtSecret)
        ensures
            r@ == vec@,
    {
        PublisherJwtSecret { key: SigningKey::from_vec(vec) }
    }
}

/// The HMAC secret key used to sign subscriber JWT access tokens. It is
/// recommended to use a key of at least [`HS256_SECRET_KEY_LEN`] bytes.
pub struct SubscriberJwtSecret {
    key: SigningKey,
}

impl View for SubscriberJwtSecret {
    type V = Seq<u8>;

    closed spec fn view(&self) -> Seq<u8> {
        self.key@
    }
}

impl SubscriberJwtSecret {
    /// Builds the secret from raw key bytes, which are protected from
    /// that point on.
    pub fn from(vec: Vec<u8>) -> (r: SubscriberJwtSecret)
        ensures
            r@ == vec@,
    {
        SubscriberJwtSecret { key: SigningKey::from_vec(vec) }
    }
}

/// The various types of errors that can cause issuing a publisher token
/// to fail.
#[derive(Debug)]
#[non_exhaustive]
pub enum PublisherJwtErrorKind {
    /// Failed to encode and sign the publisher JWT.
    EncodeAndSign,
}

/// An error returned from issuing a publisher token.
#[derive(Debug)]
#[non_exhaustive]
pub struct PublisherJwtError {
    kind: PublisherJwtErrorKind,
    cause: String,
}

impl PublisherJwtError {
    /// The kind of this error.
    pub closed spec fn spec_kind(&self) -> PublisherJwtErrorKind {
        self.kind
    }

    /// The rendered underlying cause of this error.
    pub closed spec fn spec_cause(&self) -> Seq<char> {
        self.cause@
    }

    /// Wraps an underlying cause under an error kind.
    pub fn new(kind: PublisherJwtErrorKind, cause: String) -> (r: PublisherJwtError)
        ensures
            r.spec_kind() == kind,
            r.spec_cause() == cause@,
    {
        PublisherJwtError { kind, cause }
    }

    /// Returns the corresponding [`PublisherJwtErrorKind`] for this
    /// error.
    pub fn kind(&self) -> (r: &PublisherJwtErrorKind)
        ensures
            *r == self.spec_kind(),
    {
        &self.kind
    }

    /// The human-readable description of the error.
    pub fn message(&self) -> (r: String)
        ensures
            r@ == "failed to encode and sign JWT: "@ + self.spec_cause(),
    {
        "failed to encode and sign JWT: ".to_owned().concat(self.cause.as_str())
    }
}

/// The various types of errors that can cause issuing a subscriber token
/// to fail.
#[derive(Debug)]
#[non_exhaustive]
pub enum SubscriberJwtErrorKind {
    /// Failed to encode and sign the subscriber JWT.
    EncodeAndSign,
}

/// An error returned from issuing a subscriber token.
#[derive(Debug)]
#[non_exhaustive]
pub struct SubscriberJwtError {
    kind: SubscriberJwtErrorKind,
    cause: String,
}

impl SubscriberJwtError {
    /// The kind of this error.
    pub closed spec fn spec_kind(&self) -> SubscriberJwtErrorKind {
        self.kind
    }

    /// The rendered underlying cause of this error.
    pub closed spec fn spec_cause(&self) -> Seq<char> {
        self.cause@
    }

    /// Wraps an underlying cause under an error kind.
    pub fn new(kind: SubscriberJwtErrorKind, cause: String) -> (r: SubscriberJwtError)
        ensures
            r.spec_kind() == kind,
            r.spec_cause() == cause@,
    {
        SubscriberJwtError { kind, cause }
    }

    /// Returns the corresponding [`SubscriberJwtErrorKind`] for this
    /// error.
    pub fn kind(&self) -> (r: &SubscriberJwtErrorKind)
        ensures
            *r == self.spec_kind(),
    {
        &self.kind
    }

    /// The human-readable description of the error.
    pub fn message(&self) -> (r: String)
        ensures
            r@ == "failed to encode and sign JWT: "@ + self.spec_cause(),
    {
        "failed to encode and sign JWT: ".to_owned().concat(self.cause.as_str())
    }
}

/// A publisher JWT access token: immutable and already signed; rendering
/// it cannot fail.
#[derive(Clone, PartialEq, Eq, Debug)]
pub struct PublisherJwt {
    token: String,
}

impl View for PublisherJwt {
    type V = Seq<char>;

    closed spec fn view(&self) -> Seq<char> {
        self.token@
    }
}

impl PublisherJwt {
    /// Constructs a new `PublisherJwt`: builds a claim set whose
    /// `mercure` claim populates only the `publish` side with the given
    /// selectors, carries no expiry, and signs it with HMAC-SHA256 under
    /// the secret.
    pub fn new(publisher_jwt_secret: &PublisherJwtSecret, topic_selectors: Vec<TopicSelector>) -> (r:
        Result<PublisherJwt, PublisherJwtError>)
        ensures
            r matches Ok(t) && t@ == chars_of_ascii(
                compact_jwt(
                    publisher_jwt_secret@,
                    claims_json(publisher_claims(topic_selectors.deep_view())),
                ),
            ),
    {
        let claims = claims_bytes(Some(&topic_selectors), None, None);
        let token = sign_compact(&publisher_jwt_secret.key, &claims);
        Ok(PublisherJwt { token })
    }

    /// The encoded compact serialization of the token.
    pub fn encoded(&self) -> (r: &String)
        ensures
            r@ == self@,
    {
        &self.token
    }
}

/// A subscriber JWT access token: immutable and already signed;
/// rendering it cannot fail.
#[derive(Clone, PartialEq, Eq, Debug)]
pub struct SubscriberJwt {
    token: String,
}

impl View for SubscriberJwt {
    type V = Seq<char>;

    closed spec fn view(&self) -> Seq<char> {
        self.token@
    }
}

/// The whole seconds of a `std::time::Duration`, as `Duration::as_secs`
/// reports them: a function of the duration value alone.
pub uninterp spec fn duration_secs_of(duration: std::time::Duration) -> u64;

/// The fractional nanoseconds of a `std::time::Duration`, as
/// `Duration::subsec_nanos` reports them: a function of the duration
/// value alone, always below one billion.
pub uninterp spec fn duration_nanos_of(duration: std::time::Duration) -> u32;

/// The max-age used to calculate and set the registered expiry claim of
/// a subscriber token: a duration of at most
/// [`crate::cookie::MAX_AGE_LIMIT_SECS`] seconds.
#[derive(Copy, Clone, Debug)]
pub struct SubscriberJwtMaxAge {
    secs: u64,
    nanos: u32,
}

/// The various types of errors that can cause converting a duration to
/// [`SubscriberJwtMaxAge`] to fail.
#[derive(Debug)]
#[non_exhaustive]
pub enum TryFromDurationErrorKind {
    /// The subscriber token max-age must not be more than the cookie
    /// lifetime limit.
    CookieLifetimeLimitExceeded,
}

/// The error type returned when a conversion from a duration to
/// [`SubscriberJwtMaxAge`] fails.
#[derive(Debug)]
#[non_exhaustive]
pub struct TryFromDurationError {
    kind: TryFromDurationErrorKind,
}

impl TryFromDurationError {
    /// The kind of this error.
    pub closed spec fn spec_kind(&self) -> TryFromDurationErrorKind {
        self.kind
    }

    /// Returns the corresponding [`TryFromDurationErrorKind`] for this
    /// error.
    pub fn kind(&self) -> (r: &TryFromDurationErrorKind)
        ensures
            *r == self.spec_kind(),
    {
        &self.kind
    }

    /// The human-readable description of the error. The limit is 400
    /// days: the cookie lifetime ceiling in whole days.
    pub fn message(&self) -> (r: String)
        ensures
            r@ == "max-age must not be more than 400 days"@,
    {
        "max-age must not be more than 400 days".to_owned()
    }
}

impl SubscriberJwtMaxAge {
    /// A max-age value always lies within the cookie lifetime limit and
    /// carries normalized nanoseconds.
    #[verifier::type_invariant]
    pub closed spec fn wf(&self) -> bool {
        &&& self.nanos < 1_000_000_000
        &&& self.secs < crate::cookie::MAX_AGE_LIMIT_SECS || (self.secs
            == crate::cookie::MAX_AGE_LIMIT_SECS && self.nanos == 0)
    }

    /// The whole seconds of the max-age.
    pub closed spec fn spec_secs(&self) -> u64 {
        self.secs
    }

    /// The fractional nanoseconds of the max-age.
    pub closed spec fn spec_nanos(&self) -> u32 {
        self.nanos
    }

    /// Validates a duration, given as whole seconds and fractional
    /// nanoseconds, as a subscriber token max-age: accepts it exactly
    /// when it does not exceed the cookie lifetime limit, and keeps it
    /// unchanged.
    pub fn try_from_parts(secs: u64, nanos: u32) -> (r: Result<
        SubscriberJwtMaxAge,
        TryFromDurationError,
    >)
        requires
            nanos < 1_000_000_000,
        ensures
            r is Ok <==> (secs < crate::cookie::MAX_AGE_LIMIT_SECS || (secs
                == crate::cookie::MAX_AGE_LIMIT_SECS && nanos == 0)),
            r matches Ok(m) ==> m.spec_secs() == secs && m.spec_nanos() == nanos,
            r matches Err(e) ==> e.spec_kind() is CookieLifetimeLimitExceeded,
    {
        if secs < crate::cookie::MAX_AGE_LIMIT_SECS || (secs == crate::cookie::MAX_AGE_LIMIT_SECS
            && nanos == 0) {
            Ok(SubscriberJwtMaxAge { secs, nanos })
        } else {
            Err(TryFromDurationError { kind: TryFromDurationErrorKind::CookieLifetimeLimitExceeded })
        }
    }

    /// Validates a [`std::time::Duration`] as a subscriber token
    /// max-age: accepts it exactly when it does not exceed the cookie
    /// lifetime limit, and keeps its seconds and nanoseconds unchanged.
    pub fn try_from(duration: std::time::Duration) -> (r: Result<
        SubscriberJwtMaxAge,
        TryFromDurationError,
    >)
        ensures
            r is Ok <==> (duration_secs_of(duration) < crate::cookie::MAX_AGE_LIMIT_SECS || (
            duration_secs_of(duration) == crate::cookie::MAX_AGE_LIMIT_SECS && duration_nanos_of(
                duration,
            ) == 0)),
            r matches Ok(m) ==> m.spec_secs() == duration_secs_of(duration) && m.spec_nanos()
                == duration_nanos_of(duration),
            r matches Err(e) ==> e.spec_kind() is CookieLifetimeLimitExceeded,
    {
        let (secs, nanos) = duration_parts(&duration);
        SubscriberJwtMaxAge::try_from_parts(secs, nanos)
    }

    /// The largest accepted max-age: the cookie lifetime limit itself.
    pub fn max() -> (r: SubscriberJwtMaxAge)
        ensures
            r.spec_secs() == crate::cookie::MAX_AGE_LIMIT_SECS,
            r.spec_nanos() == 0,
    {
        SubscriberJwtMaxAge { secs: crate::cookie::MAX_AGE_LIMIT_SECS, nanos: 0 }
    }

    /// The whole seconds of the max-age.
    pub fn as_secs(&self) -> (r: u64)
        ensures
            r == self.spec_secs(),
    {
        self.secs
    }

    /// The fractional nanoseconds of the max-age.
    pub fn subsec_nanos(&self) -> (r: u32)
        ensures
            r == self.spec_nanos(),
    {
        self.nanos
    }

    /// The absolute expiry timestamp this max-age yields from a clock
    /// reading: the sum of the whole seconds, plus one when the
    /// fractional nanoseconds carry a full second; `None` exactly when
    /// the sum does not fit a 64-bit signed timestamp.
    pub fn expiry_timestamp(&self, now_secs: u64, now_nanos: u32) -> (r: Option<u64>)
        requires
            now_nanos < 1_000_000_000,
        ensures
            ({
                let carry: int = if now_nanos + self.spec_nanos() >= 1_000_000_000 {
                    1int
                } else {
                    0int
                };
                let total = now_secs + self.spec_secs() + carry;
                &&& total <= 0x7fff_ffff_ffff_ffff ==> r == Some(total as u64)
                &&& total > 0x7fff_ffff_ffff_ffff ==> r is None
                &&& r matches Some(e) ==> e >= self.spec_secs()
            }),
    {
        proof {
            use_type_invariant(&*self);
        }
        let carry: u64 = if now_nanos + self.nanos >= 1_000_000_000 {
            1
        } else {
            0
        };
        if now_secs <= (0x7fff_ffff_ffff_ffffu64 - carry) - self.secs {
            Some(now_secs + self.secs + carry)
        } else {
            None
        }
    }

    /// The max-age as a [`std::time::Duration`] with the same seconds
    /// and nanoseconds, so a duration accepted by
    /// [`SubscriberJwtMaxAge::try_from`] round-trips unchanged.
    pub fn to_duration(&self) -> (r: std::time::Duration)
        ensures
            duration_secs_of(r) == self.spec_secs(),
            duration_nanos_of(r) == self.spec_nanos(),
    {
        proof {
            use_type_invariant(&*self);
        }
        duration_from_parts(self.secs, self.nanos)
    }
}

impl SubscriberJwt {
    /// Creates a new `SubscriberJwt`: builds a claim set whose `mercure`
    /// claim populates only the `subscribe` side with the given
    /// selectors, signs it with HMAC-SHA256 under the secret, and, when
    /// a max-age is given, sets the registered expiry claim to the
    /// current Unix time plus the max-age.
    ///
    /// Without a max-age the token never expires; that is permitted but
    /// discouraged, especially for browser-held tokens. Issuance fails
    /// only when the computed expiry timestamp cannot be represented,
    /// which no realistic clock reaches.
    pub fn new(
        subscriber_jwt_secret: &SubscriberJwtSecret,
        subscriber_jwt_max_age: Option<SubscriberJwtMaxAge>,
        topic_selectors: Vec<TopicSelector>,
    ) -> (r: Result<SubscriberJwt, SubscriberJwtError>)
        ensures
            subscriber_jwt_max_age is None ==> (r matches Ok(t) && t@ == chars_of_ascii(
                compact_jwt(
                    subscriber_jwt_secret@,
                    claims_json(subscriber_claims(topic_selectors.deep_view(), None)),
                ),
            )),
            subscriber_jwt_max_age matches Some(ma) ==> match r {
                Ok(t) => exists|e: u64|
                    e >= ma.spec_secs() && t@ == chars_of_ascii(
                        compact_jwt(
                            subscriber_jwt_secret@,
                            claims_json(subscriber_claims(topic_selectors.deep_view(), Some(e))),
                        ),
                    ),
                Err(err) => err.spec_kind() is EncodeAndSign,
            },
    {
        match subscriber_jwt_max_age {
            None => Ok(
                SubscriberJwt::new_with_expiry(subscriber_jwt_secret, None, topic_selectors),
            ),
            Some(max_age) => {
                let (now_secs, now_nanos) = unix_now();
                match max_age.expiry_timestamp(now_secs, now_nanos) {
                    Some(expiry) => {
                        let token = SubscriberJwt::new_with_expiry(
                            subscriber_jwt_secret,
                            Some(expiry),
                            topic_selectors,
                        );
                        proof {
                            assert(expiry >= max_age.spec_secs() && token@ == chars_of_ascii(
                                compact_jwt(
                                    subscriber_jwt_secret@,
                                    claims_json(
                                        subscriber_claims(
                                            topic_selectors.deep_view(),
                                            Some(expiry),
                                        ),
                                    ),
                                ),
                            ));
                        }
                        Ok(token)
                    },
                    None => Err(
                        SubscriberJwtError {
                            kind: SubscriberJwtErrorKind::EncodeAndSign,
                            cause: "the expiry timestamp should fit in i64".to_owned(),
                        },
                    ),
                }
            },
        }
    }

    /// Creates a `SubscriberJwt` whose registered expiry claim, if any,
    /// is the given absolute Unix timestamp. This is the deterministic
    /// core of [`SubscriberJwt::new`], which derives the timestamp from
    /// the clock.
    pub fn new_with_expiry(
        subscriber_jwt_secret: &SubscriberJwtSecret,
        expiry: Option<u64>,
        topic_selectors: Vec<TopicSelector>,
    ) -> (r: SubscriberJwt)
        ensures
            r@ == chars_of_ascii(
                compact_jwt(
                    subscriber_jwt_secret@,
                    claims_json(subscriber_claims(topic_selectors.deep_view(), expiry)),
                ),
            ),
    {
        let claims = claims_bytes(None, Some(&topic_selectors), expiry);
        let token = sign_compact(&subscriber_jwt_secret.key, &claims);
        SubscriberJwt { token }
    }

    /// The encoded compact serialization of the token.
    pub fn encoded(&self) -> (r: &String)
        ensures
            r@ == self@,
    {
        &self.token
    }
}

/// Relies on `Duration::as_secs` and `Duration::subsec_nanos`: the whole
/// seconds of the duration and its fractional nanoseconds, which are
/// always below one billion.
#[verifier::external_body]
fn duration_parts(duration: &std::time::Duration) -> (r: (u64, u32))
    ensures
        r.0 == duration_secs_of(*duration),
        r.1 == duration_nanos_of(*duration),
        r.1 < 1_000_000_000,
{
    (duration.as_secs(), duration.subsec_nanos())
}

/// Relies on `Duration::new`, which builds the duration with exactly the
/// given whole seconds and fractional nanoseconds (no carry happens
/// below one billion nanoseconds).
#[verifier::external_body]
fn duration_from_parts(secs: u64, nanos: u32) -> (r: std::time::Duration)
    requires
        nanos < 1_000_000_000,
    ensures
        duration_secs_of(r) == secs,
        duration_nanos_of(r) == nanos,
{
    std::time::Duration::new(secs, nanos)
}

/// Relies on `SystemTime::now` and `duration_since(UNIX_EPOCH)`: the
/// current time as whole seconds since the Unix epoch plus fractional
/// nanoseconds, which are always below one billion. A clock set before
/// the epoch reads as the epoch itself; nothing more holds of a clock
/// reading.
#[verifier::external_body]
fn unix_now() -> (r: (u64, u32))
    ensures
        r.1 < 1_000_000_000,
{
    match std::time::SystemTime::now().duration_since(std::time::UNIX_EPOCH) {
        Ok(elapsed) => (elapsed.as_secs(), elapsed.subsec_nanos()),
        Err(_) => (0, 0),
    }
}

} // verus!
