//! The ingestion request: mails as base64 text, and their decoding into
//! the parts the handler consumes.
use vstd::prelude::*;

use std::collections::HashMap;

use base64::prelude::{Engine, BASE64_STANDARD};
use mail_parser::MessageParser;

use crate::text::{opt_string_view, str_eq};

verus! {

/// Information about an e-mail that was known prior to parsing.
pub struct MailMetadata {
    /// The intended recipient, if known.
    pub to: Option<String>,
    /// The sender, if known.
    pub from: Option<String>,
    /// E-mail headers, if known.
    pub headers: HashMap<String, String>,
}

/// One e-mail of an ingestion request.
pub struct Mail {
    /// The raw contents of the e-mail, encoded with base64.
    pub raw: String,
    /// The size of the (decoded) raw contents.
    pub raw_size: usize,
    /// Information about the e-mail that was known prior to parsing.
    pub metadata: MailMetadata,
}

/// A batch of e-mails to ingest.
pub struct MailIngestionRequest {
    pub mails: Vec<Mail>,
    pub started_at: String,
}

/// What the handler reads of a parsed message.
pub struct ParsedMail {
    /// The subject, if any.
    pub subject: Option<String>,
    /// The contents of each attachment, in message order.
    pub attachments: Vec<Vec<u8>>,
}

/// The subject and attachment contents of a parsed message.
pub open spec fn parsed_view(p: Option<ParsedMail>) -> Option<(Option<Seq<char>>, Seq<Seq<u8>>)> {
    match p {
        Some(m) => Some((opt_string_view(m.subject), m.attachments@.map_values(|a: Vec<u8>| a@))),
        None => None,
    }
}

/// The bytes that the standard base64 text `s` encodes, if it is valid.
pub uninterp spec fn base64_decoded(s: Seq<char>) -> Option<Seq<u8>>;

/// The subject and attachments that the MIME parser finds in `raw`, if it
/// can parse it.
pub uninterp spec fn parsed_mail_of(raw: Seq<u8>) -> Option<(Option<Seq<char>>, Seq<Seq<u8>>)>;

/// Relies on base64's `BASE64_STANDARD.decode`: the decoded bytes, or an
/// error for text that is not valid base64.
#[verifier::external_body]
fn base64_decode(s: &str) -> (r: Option<Vec<u8>>)
    ensures
        match r {
            Some(v) => base64_decoded(s@) == Some(v@),
            None => base64_decoded(s@) is None,
        },
{
    BASE64_STANDARD.decode(s).ok()
}

/// Relies on mail_parser's `MessageParser::parse`: the subject and the
/// contents of each attachment of the parsed message.
#[verifier::external_body]
fn parse_message(raw: &[u8]) -> (r: Option<ParsedMail>)
    ensures
        parsed_view(r) == parsed_mail_of(raw@),
{
    let parser = MessageParser::new()
        .with_minimal_headers()
        .with_date_headers()
        .with_address_headers()
        .with_message_ids();
    parser.parse(raw).map(|m| ParsedMail {
        subject: m.subject().map(String::from),
        attachments: m.attachments().map(|a| a.contents().to_vec()).collect(),
    })
}

impl Mail {
    /// Decodes and parses the raw contents of this mail. A mail that is not
    /// valid base64, or that the parser cannot read, yields nothing.
    pub fn parse(&self) -> (r: Option<ParsedMail>)
        ensures
            match base64_decoded(self.raw@) {
                Some(bytes) => parsed_view(r) == parsed_mail_of(bytes),
                None => r is None,
            },
    {
        match base64_decode(self.raw.as_str()) {
            Some(bytes) => parse_message(bytes.as_slice()),
            None => None,
        }
    }
}

/// Whether a request's token is the configured ingestion token.
pub fn authorized(token: &str, api_token: &str) -> (r: bool)
    ensures
        r == (token@ == api_token@),
{
    str_eq(token, api_token)
}

} // verus!
