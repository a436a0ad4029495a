//! Content-addressed storage: keys derived from an attachment's final bytes,
//! the content disposition of stored objects, and the check-then-put
//! protocol that stores each distinct content once.
use vstd::prelude::*;
use vstd::string::*;

use base64::prelude::{Engine, BASE64_URL_SAFE_NO_PAD};
use sha2::{Digest, Sha256};

use crate::error::Error;
use crate::postprocess::one_of;
use crate::text::{opt_str_view, opt_string_view, str_eq, to_owned_opt};

verus! {

/// The namespace under which every attachment is stored.
pub const KEY_PREFIX: &'static str = "~meta/mails/v2/";

/// The SHA-256 digest of `bytes`.
pub uninterp spec fn sha256_of(bytes: Seq<u8>) -> Seq<u8>;

/// The URL-safe, unpadded base64 text of `bytes`.
pub uninterp spec fn base64_url_of(bytes: Seq<u8>) -> Seq<char>;

/// Relies on sha2's `Sha256::digest`: the 32-byte digest of the input.
#[verifier::external_body]
fn sha256(bytes: &[u8]) -> (r: Vec<u8>)
    ensures
        r@ == sha256_of(bytes@),
        r@.len() == 32,
{
    Sha256::digest(bytes).to_vec()
}

/// Relies on base64's `BASE64_URL_SAFE_NO_PAD.encode`, which panics only
/// when the encoded length overflows `usize`.
#[verifier::external_body]
fn base64_url(bytes: &[u8]) -> (r: String)
    requires
        bytes@.len() <= usize::MAX / 4,
    ensures
        r@ == base64_url_of(bytes@),
        r@.len() == (4 * bytes@.len() + 2) / 3,
{
    BASE64_URL_SAFE_NO_PAD.encode(bytes)
}

/// The key under which content with final bytes `bytes` is stored.
pub open spec fn key_of(bytes: Seq<u8>) -> Seq<char> {
    KEY_PREFIX@ + base64_url_of(sha256_of(bytes))
}

/// Derives the content key of an attachment from its final bytes.
pub fn content_key(bytes: &[u8]) -> (r: String)
    ensures
        r@ == key_of(bytes@),
        r@.len() == KEY_PREFIX@.len() + 43,
{
    let digest = sha256(bytes);
    let encoded = base64_url(digest.as_slice());
    let mut key = String::from_str(KEY_PREFIX);
    key.append(encoded.as_str());
    key
}

/// The content types that a browser shows in place.
pub open spec fn inline_types() -> Seq<Seq<char>> {
    seq![
        "image/jpeg"@,
        "image/png"@,
        "image/heic"@,
        "image/webp"@,
        "image/gif"@,
        "video/mp4"@,
        "video/mpeg"@,
        "video/ogg"@,
        "video/webm"@,
    ]
}

pub open spec fn disposition_of(content_type: Seq<char>) -> Seq<char> {
    if one_of(content_type, inline_types()) {
        "inline"@
    } else {
        "attachment"@
    }
}

/// Returns the content disposition for the given `content_type`.
pub fn content_type_disposition(content_type: &str) -> (r: &'static str)
    ensures
        r@ == disposition_of(content_type@),
{
    let types: Vec<&'static str> = vec![
        "image/jpeg",
        "image/png",
        "image/heic",
        "image/webp",
        "image/gif",
        "video/mp4",
        "video/mpeg",
        "video/ogg",
        "video/webm",
    ];
    let ghost want = inline_types();
    assert(types@.len() == want.len());
    assert forall|i: int| 0 <= i < want.len() implies #[trigger] types@[i]@ == want[i] by {}
    let mut i: usize = 0;
    while i < types.len()
        invariant
            i <= types@.len(),
            want == inline_types(),
            types@.len() == want.len(),
            forall|i: int| 0 <= i < want.len() ==> #[trigger] types@[i]@ == want[i],
            forall|j: int| 0 <= j < i ==> want[j] != content_type@,
        decreases types@.len() - i,
    {
        if str_eq(types[i], content_type) {
            assert(want[i as int] == content_type@);
            assert(one_of(content_type@, want));
            return "inline";
        }
        i = i + 1;
    }
    "attachment"
}

/// The result of an attachment upload.
pub struct AttachmentUpload {
    /// The key of the stored object.
    pub key: String,
    /// The subject of the e-mail, if any.
    pub subject: Option<String>,
    /// The sender of the e-mail.
    pub sender: Option<String>,
    /// Whether the object already existed in the store before this upload.
    pub cached: bool,
}

/// A store request: put the final bytes at `key`, publicly readable, with
/// the given metadata.
pub struct PutRequest {
    pub key: String,
    pub content_type: String,
    pub disposition: &'static str,
    /// The bytes to store.
    pub body: Vec<u8>,
}

/// What the existence probe for a key reported.
pub enum HeadOutcome {
    /// The store holds an object under the key.
    Found,
    /// The store answered "not found".
    NotFound,
    /// The probe failed otherwise; the store's message.
    Failed(String),
}

/// The next step of an upload once the existence probe has answered.
pub enum UploadStep {
    /// The content is already stored: nothing is sent.
    Cached(AttachmentUpload),
    /// The content must be sent with this request.
    Put(PutRequest),
}

/// Whether an upload with this probe answer sends the bytes. A probe that
/// failed counts as "unknown": storing identical bytes again is harmless.
pub open spec fn puts_object(exists: Result<bool, Error>) -> bool {
    !(exists matches Ok(true))
}

/// Whether `u` records an upload of `key` with this subject and sender.
pub open spec fn upload_of(
    u: AttachmentUpload,
    key: Seq<char>,
    subject: Option<&str>,
    sender: Option<&str>,
    cached: bool,
) -> bool {
    &&& u.key@ == key
    &&& opt_string_view(u.subject) == opt_str_view(subject)
    &&& opt_string_view(u.sender) == opt_str_view(sender)
    &&& u.cached == cached
}

/// Maps the store's answer to an existence probe: "not found" is a
/// legitimate `false`, any other failure is an error.
pub fn exists_from_head(head: HeadOutcome) -> (r: Result<bool, Error>)
    ensures
        match head {
            HeadOutcome::Found => r == Ok::<bool, Error>(true),
            HeadOutcome::NotFound => r == Ok::<bool, Error>(false),
            HeadOutcome::Failed(m) => r == Err::<bool, Error>(Error::AwsS3Error(m)),
        },
{
    match head {
        HeadOutcome::Found => Ok(true),
        HeadOutcome::NotFound => Ok(false),
        HeadOutcome::Failed(m) => Err(Error::AwsS3Error(m)),
    }
}

/// Decides, from the existence probe's answer, whether the content under
/// `key` is already stored or must be sent.
pub fn plan_upload(
    key: String,
    mime_type: &str,
    subject: Option<&str>,
    sender: Option<&str>,
    exists: &Result<bool, Error>,
    body: Vec<u8>,
) -> (r: UploadStep)
    ensures
        (r is Put) == puts_object(*exists),
        r matches UploadStep::Cached(u) ==> upload_of(u, key@, subject, sender, true),
        r matches UploadStep::Put(p) ==> p.key@ == key@ && p.content_type@ == mime_type@
            && p.disposition@ == disposition_of(mime_type@) && p.body@ == body@,
{
    match exists {
        Ok(true) => UploadStep::Cached(
            AttachmentUpload {
                key,
                subject: to_owned_opt(subject),
                sender: to_owned_opt(sender),
                cached: true,
            },
        ),
        _ => UploadStep::Put(
            PutRequest {
                key,
                content_type: mime_type.to_string(),
                disposition: content_type_disposition(mime_type),
                body,
            },
        ),
    }
}

/// Completes the upload of `key` from the outcome of its put request
/// (`Err` holds the store's message).
pub fn finish_upload(
    key: String,
    subject: Option<&str>,
    sender: Option<&str>,
    outcome: Result<(), String>,
) -> (r: Result<AttachmentUpload, Error>)
    ensures
        r.is_ok() == outcome.is_ok(),
        r matches Ok(u) ==> upload_of(u, key@, subject, sender, false),
        outcome matches Err(m) ==> r == Err::<AttachmentUpload, Error>(Error::S3PutObjectFailed(m)),
{
    match outcome {
        Ok(()) => Ok(
            AttachmentUpload {
                key,
                subject: to_owned_opt(subject),
                sender: to_owned_opt(sender),
                cached: false,
            },
        ),
        Err(m) => Err(Error::S3PutObjectFailed(m)),
    }
}

/// Content that arrives twice maps to one key, and once the store holds
/// that key and reports it, the second arrival sends nothing.
pub proof fn dedup_idempotent(first: Seq<u8>, second: Seq<u8>, stored: Set<Seq<char>>)
    requires
        first == second,
        stored.contains(key_of(first)),
    ensures
        key_of(second) == key_of(first),
        !puts_object(Ok(stored.contains(key_of(second)))),
{
}

} // verus!
