//! The publish-update wire encoding and the hub-side types of the client:
//! the hub URL, the privacy flag, the revision identifier, and the errors
//! a publish can produce.

use vstd::prelude::*;
use vstd::string::StringExecFns;
use vstd::utf8::encode_utf8;

use crate::ascii::{all_ascii, ascii_to_string, chars_of_ascii};
use crate::form::{append_field, render_fields};
use crate::topic::Topic;

verus! {

/// The privacy setting to use when publishing an update.
///
/// When an update is published as `Private`, the hub must not dispatch it
/// to subscribers that are not authorized to receive it.
#[derive(Copy, Clone, PartialEq, Eq, Structural, Hash, Debug)]
pub enum PublishUpdatePrivacy {
    Public,
    Private,
}

impl PublishUpdatePrivacy {
    /// True exactly when the update is public, i.e. the `private` form
    /// field must be omitted from the wire encoding.
    pub fn is_public(&self) -> (r: bool)
        ensures
            r == (*self == PublishUpdatePrivacy::Public),
    {
        *self == PublishUpdatePrivacy::Public
    }
}

/// The bytes of the `topic` field name.
pub open spec fn topic_key() -> Seq<u8> {
    seq![0x74u8, 0x6fu8, 0x70u8, 0x69u8, 0x63u8]
}

/// The bytes of the `data` field name.
pub open spec fn data_key() -> Seq<u8> {
    seq![0x64u8, 0x61u8, 0x74u8, 0x61u8]
}

/// The bytes of the `private` field name.
pub open spec fn private_key() -> Seq<u8> {
    seq![0x70u8, 0x72u8, 0x69u8, 0x76u8, 0x61u8, 0x74u8, 0x65u8]
}

/// The bytes of the literal value `on` carried by the `private` field.
pub open spec fn private_on() -> Seq<u8> {
    seq![0x6fu8, 0x6eu8]
}

/// The view of the optional payload of an update.
pub open spec fn data_view(data: Option<&str>) -> Option<Seq<char>> {
    match data {
        Some(d) => Some(d@),
        None => None,
    }
}

/// The ordered field list of a publish request: one `topic` field per
/// topic URL in iteration order (canonical first), then the `data` field
/// exactly when a payload is given, then `private=on` exactly when the
/// update is private.
pub open spec fn publish_fields(
    urls: Seq<Seq<char>>,
    data: Option<Seq<char>>,
    privacy: PublishUpdatePrivacy,
) -> Seq<(Seq<u8>, Seq<u8>)> {
    urls.map_values(|u: Seq<char>| (topic_key(), encode_utf8(u))) + (match data {
        Some(d) => seq![(data_key(), encode_utf8(d))],
        None => Seq::<(Seq<u8>, Seq<u8>)>::empty(),
    }) + (if privacy == PublishUpdatePrivacy::Private {
        seq![(private_key(), private_on())]
    } else {
        Seq::<(Seq<u8>, Seq<u8>)>::empty()
    })
}

/// The exact `application/x-www-form-urlencoded` body of a publish
/// request.
pub open spec fn publish_body(
    urls: Seq<Seq<char>>,
    data: Option<Seq<char>>,
    privacy: PublishUpdatePrivacy,
) -> Seq<u8> {
    render_fields(publish_fields(urls, data, privacy))
}

/// Encodes the body of a publish request for `topic`, an optional raw
/// payload, and a privacy setting, byte for byte as the hub expects it.
pub fn publish_update_body(topic: &Topic, data: Option<&str>, privacy: PublishUpdatePrivacy) -> (r:
    String)
    ensures
        r@ == chars_of_ascii(publish_body(topic@, data_view(data), privacy)),
{
    let urls = topic.iter();
    let topic_k: Vec<u8> = vec![0x74u8, 0x6fu8, 0x70u8, 0x69u8, 0x63u8];
    let mut out: Vec<u8> = Vec::new();
    let ghost mut fs: Seq<(Seq<u8>, Seq<u8>)> = Seq::empty();
    proof {
        assert(topic_k@ =~= topic_key());
    }
    let mut i: usize = 0;
    while i < urls.len()
        invariant
            i <= urls@.len(),
            urls.deep_view() == topic@,
            urls@.len() == topic@.len(),
            topic_k@ == topic_key(),
            fs =~= topic@.take(i as int).map_values(
                |u: Seq<char>| (topic_key(), encode_utf8(u)),
            ),
            fs.len() == i,
            out@ == render_fields(fs),
            all_ascii(out@),
        decreases urls@.len() - i,
    {
        append_field(&mut out, i > 0, topic_k.as_slice(), urls[i].as_str().as_bytes());
        proof {
            crate::form::lemma_render_fields_snoc(fs, (topic_key(), encode_utf8(urls@[i as int]@)));
            assert(urls.deep_view()[i as int] == urls@[i as int]@);
            fs = fs.push((topic_key(), encode_utf8(topic@[i as int])));
            assert(fs =~= topic@.take(i + 1).map_values(
                |u: Seq<char>| (topic_key(), encode_utf8(u)),
            ));
        }
        i = i + 1;
    }
    proof {
        assert(topic@.take(topic@.len() as int) =~= topic@);
        crate::topic::lemma_topic_view_nonempty(topic);
    }
    match data {
        Some(d) => {
            let data_k: Vec<u8> = vec![0x64u8, 0x61u8, 0x74u8, 0x61u8];
            proof {
                assert(data_k@ =~= data_key());
            }
            append_field(&mut out, true, data_k.as_slice(), d.as_bytes());
            proof {
                crate::form::lemma_render_fields_snoc(fs, (data_key(), encode_utf8(d@)));
                fs = fs.push((data_key(), encode_utf8(d@)));
            }
        },
        None => {},
    }
    match privacy {
        PublishUpdatePrivacy::Private => {
            let private_k: Vec<u8> = vec![0x70u8, 0x72u8, 0x69u8, 0x76u8, 0x61u8, 0x74u8, 0x65u8];
            let on_v: Vec<u8> = vec![0x6fu8, 0x6eu8];
            proof {
                assert(private_k@ =~= private_key());
                assert(on_v@ =~= private_on());
            }
            append_field(&mut out, true, private_k.as_slice(), on_v.as_slice());
            proof {
                crate::form::lemma_render_fields_snoc(fs, (private_key(), private_on()));
                fs = fs.push((private_key(), private_on()));
            }
        },
        PublishUpdatePrivacy::Public => {},
    }
    proof {
        assert(fs =~= publish_fields(topic@, data_view(data), privacy));
    }
    ascii_to_string(out)
}

/// A `Public` update carries no `private` field at all, and a `Private`
/// update carries exactly one, as its last field, with the literal value
/// `on`. The field's mere presence, not its value, is the privacy
/// trigger.
pub proof fn lemma_privacy_field(
    urls: Seq<Seq<char>>,
    data: Option<Seq<char>>,
    privacy: PublishUpdatePrivacy,
)
    ensures
        privacy == PublishUpdatePrivacy::Public ==> forall|i: int|
            0 <= i < publish_fields(urls, data, privacy).len() ==> publish_fields(
                urls,
                data,
                privacy,
            )[i].0 != private_key(),
        privacy == PublishUpdatePrivacy::Private ==> {
            let fs = publish_fields(urls, data, privacy);
            &&& fs.last() == (private_key(), private_on())
            &&& forall|i: int| 0 <= i < fs.len() - 1 ==> fs[i].0 != private_key()
        },
{
    assert(topic_key()[0] != private_key()[0]);
    assert(data_key().len() != private_key().len());
}

/// The `data` field is absent exactly when no payload is given; when a
/// payload is given, exactly one `data` field carries it verbatim
/// (escaping happens only at rendering), placed after the `topic`
/// fields.
pub proof fn lemma_data_field(
    urls: Seq<Seq<char>>,
    data: Option<Seq<char>>,
    privacy: PublishUpdatePrivacy,
)
    ensures
        data is None ==> forall|i: int|
            0 <= i < publish_fields(urls, data, privacy).len() ==> publish_fields(
                urls,
                data,
                privacy,
            )[i].0 != data_key(),
        data matches Some(d) ==> {
            let fs = publish_fields(urls, data, privacy);
            &&& fs[urls.len() as int] == (data_key(), encode_utf8(d))
            &&& forall|i: int| 0 <= i < fs.len() && i != urls.len() ==> fs[i].0 != data_key()
        },
{
    assert(topic_key()[0] != data_key()[0]);
    assert(private_key().len() != data_key().len());
}

/// The `Content-Type` of a publish request body.
pub const FORM_URLENCODED_CONTENT_TYPE: &'static str = "application/x-www-form-urlencoded";

/// The `Authorization` header value of a publish request: the literal
/// `Bearer `, then the encoded publisher token.
pub fn authorization_header_value(publisher_jwt: &crate::jwt::PublisherJwt) -> (r: String)
    ensures
        r@ == "Bearer "@ + publisher_jwt@,
{
    "Bearer ".to_owned().concat(publisher_jwt.encoded().as_str())
}

/// The bytes of the well-known hub path `/.well-known/mercure`, the only
/// path a hub URL may carry.
pub open spec fn hub_path_bytes() -> Seq<u8> {
    seq![
        0x2fu8,
        0x2eu8,
        0x77u8,
        0x65u8,
        0x6cu8,
        0x6cu8,
        0x2du8,
        0x6bu8,
        0x6eu8,
        0x6fu8,
        0x77u8,
        0x6eu8,
        0x2fu8,
        0x6du8,
        0x65u8,
        0x72u8,
        0x63u8,
        0x75u8,
        0x72u8,
        0x65u8,
    ]
}

/// The path component of a URL, as the `url` crate reports it: a
/// function of the URL value alone. Its full definition (the WHATWG URL
/// model) stays with the outside crate.
pub uninterp spec fn url_path_of(u: url::Url) -> Seq<u8>;

/// The URL for connecting to the Mercure hub. Its path component must be
/// exactly the well-known fixed path `/.well-known/mercure`; construction
/// checks this and fails otherwise.
pub struct HubUrl {
    url: url::Url,
}

/// The error type returned when a conversion from `url::Url` to `HubUrl`
/// fails.
#[derive(Debug)]
pub struct TryFromUrlError;

impl HubUrl {
    /// The wrapped URL value.
    pub closed spec fn spec_url(&self) -> url::Url {
        self.url
    }

    /// A hub URL is well formed when the path of the URL it wraps is
    /// the well-known hub path.
    pub open spec fn wf(&self) -> bool {
        url_path_of(self.spec_url()) == hub_path_bytes()
    }

    /// Validates a URL as a hub URL: accepts it exactly when its path
    /// component equals the well-known hub path, and wraps the accepted
    /// URL unchanged.
    pub fn try_from(url: url::Url) -> (r: Result<HubUrl, TryFromUrlError>)
        ensures
            r is Ok <==> url_path_of(url) == hub_path_bytes(),
            r matches Ok(h) ==> h.spec_url() == url && h.wf(),
    {
        let path = url_path_bytes(&url);
        let well_known: Vec<u8> = vec![
            0x2fu8,
            0x2eu8,
            0x77u8,
            0x65u8,
            0x6cu8,
            0x6cu8,
            0x2du8,
            0x6bu8,
            0x6eu8,
            0x6fu8,
            0x77u8,
            0x6eu8,
            0x2fu8,
            0x6du8,
            0x65u8,
            0x72u8,
            0x63u8,
            0x75u8,
            0x72u8,
            0x65u8,
        ];
        proof {
            assert(well_known@ =~= hub_path_bytes());
        }
        if crate::ascii::bytes_eq(path.as_slice(), well_known.as_slice()) {
            Ok(HubUrl { url })
        } else {
            Err(TryFromUrlError)
        }
    }

    /// The validated URL, unchanged, for handing to an HTTP transport.
    pub fn url(&self) -> (r: &url::Url)
        ensures
            *r == self.spec_url(),
    {
        &self.url
    }

    /// The serialization of the hub URL.
    pub fn as_str(&self) -> String {
        url_to_string(&self.url)
    }
}

impl TryFromUrlError {
    /// The human-readable description of the error.
    pub fn message(&self) -> (r: String)
        ensures
            r@ == "the path of the URL must be /.well-known/mercure"@,
    {
        "the path of the URL must be /.well-known/mercure".to_owned()
    }
}

/// The topic's revision identifier assigned by the hub after a successful
/// publish. It is opaque: used only as an identifier, never parsed.
#[derive(Clone, PartialEq, Eq, Hash, Debug)]
pub struct RevisionId(String);

impl View for RevisionId {
    type V = Seq<char>;

    closed spec fn view(&self) -> Seq<char> {
        self.0@
    }
}

impl RevisionId {
    /// Wraps the verbatim response body of a successful publish.
    pub fn new(body: String) -> (r: RevisionId)
        ensures
            r@ == body@,
    {
        RevisionId(body)
    }

    /// The identifier as a string.
    pub fn as_str(&self) -> (r: &String)
        ensures
            r@ == self@,
    {
        &self.0
    }
}

/// The various types of errors that can cause a publish update to fail.
#[derive(Debug)]
#[non_exhaustive]
pub enum PublishUpdateErrorKind {
    /// Failed to serialize parameters to
    /// `application/x-www-form-urlencoded`.
    SerializeParameters,
    /// Failed to send the publish request to the Mercure hub.
    SendRequest,
    /// Failed to read the publish response from the Mercure hub.
    ReadResponse,
}

/// An error returned from publishing an update, carrying a
/// machine-checkable kind and the rendered underlying cause.
#[derive(Debug)]
#[non_exhaustive]
pub struct PublishUpdateError {
    kind: PublishUpdateErrorKind,
    cause: String,
}

impl PublishUpdateError {
    /// The kind of this error.
    pub closed spec fn spec_kind(&self) -> PublishUpdateErrorKind {
        self.kind
    }

    /// The rendered underlying cause of this error.
    pub closed spec fn spec_cause(&self) -> Seq<char> {
        self.cause@
    }

    /// Wraps an underlying cause under an error kind.
    pub fn new(kind: PublishUpdateErrorKind, cause: String) -> (r: PublishUpdateError)
        ensures
            r.spec_kind() == kind,
            r.spec_cause() == cause@,
    {
        PublishUpdateError { kind, cause }
    }

    /// Returns the corresponding [`PublishUpdateErrorKind`] for this
    /// error.
    pub fn kind(&self) -> (r: &PublishUpdateErrorKind)
        ensures
            *r == self.spec_kind(),
    {
        &self.kind
    }

    /// The human-readable description of the error: a prefix naming the
    /// failed step, then the underlying cause.
    pub fn message(&self) -> (r: String)
        ensures
            self.spec_kind() is SerializeParameters ==> r@
                == "failed to serialize parameters to application/x-www-form-urlencoded: "@
                + self.spec_cause(),
            self.spec_kind() is SendRequest ==> r@ == "failed to send request to Mercure hub: "@
                + self.spec_cause(),
            self.spec_kind() is ReadResponse ==> r@ == "failed to read response from Mercure hub: "@
                + self.spec_cause(),
    {
        let prefix = match self.kind {
            PublishUpdateErrorKind::SerializeParameters => "failed to serialize parameters to application/x-www-form-urlencoded: ".to_owned(),
            PublishUpdateErrorKind::SendRequest => "failed to send request to Mercure hub: ".to_owned(),
            PublishUpdateErrorKind::ReadResponse => "failed to read response from Mercure hub: ".to_owned(),
        };
        prefix.concat(self.cause.as_str())
    }
}

/// Relies on `url::Url`: a parsed and normalized URL, opaque to the
/// library; only its path and serialization are read, through the
/// wrappers below.
#[verifier::external_type_specification]
#[verifier::external_body]
pub struct ExUrl(url::Url);

/// Relies on `url::Url::path`: the path component of the URL, as bytes,
/// determined by the URL value alone.
#[verifier::external_body]
fn url_path_bytes(url: &url::Url) -> (r: Vec<u8>)
    ensures
        r@ == url_path_of(*url),
{
    url.path().as_bytes().to_vec()
}

/// Relies on `url::Url::as_str`: the serialization of the URL.
#[verifier::external_body]
fn url_to_string(url: &url::Url) -> String {
    url.as_str().to_owned()
}

/// The leading fields of a publish request are the `topic` fields, one
/// per URL, in the topic's iteration order: the canonical URL first,
/// then the alternates.
pub proof fn lemma_topic_fields(
    urls: Seq<Seq<char>>,
    data: Option<Seq<char>>,
    privacy: PublishUpdatePrivacy,
)
    ensures
        publish_fields(urls, data, privacy).len() >= urls.len(),
        forall|i: int| 0 <= i < urls.len() ==> publish_fields(urls, data, privacy)[i] == (
            topic_key(),
            encode_utf8(urls[i]),
        ),
{
}

} // verus!
