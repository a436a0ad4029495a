//! Notifications about newly stored attachments: the message text, the
//! public link of an object, and the webhook request that carries them.
use vstd::prelude::*;
use vstd::string::*;

use crate::store::AttachmentUpload;
use crate::text::{opt_str_view, opt_string_view};

verus! {

/// The webhook endpoint that relays notifications to the chat channel.
pub const WEBHOOK_URL: &'static str = "https://meta-webhook.infra.rwx.im/trigger";

/// The public base URL of stored objects when none is configured.
pub const DEFAULT_PUBLIC_URL: &'static str = "https://pub.rwx.im";

/// The lower-case hexadecimal digit of `n`, for `n < 16`.
pub open spec fn hex_digit(n: int) -> char {
    seq!['0', '1', '2', '3', '4', '5', '6', '7', '8', '9', 'a', 'b', 'c', 'd', 'e', 'f'][n]
}

/// How one character appears inside a JSON string: quote and backslash are
/// escaped, control characters take their short escape or `\u00XX`, and
/// every other character stands as it is.
pub open spec fn json_escape(c: char) -> Seq<char> {
    if c == '"' {
        seq!['\\', '"']
    } else if c == '\\' {
        seq!['\\', '\\']
    } else if c == '\x08' {
        seq!['\\', 'b']
    } else if c == '\t' {
        seq!['\\', 't']
    } else if c == '\n' {
        seq!['\\', 'n']
    } else if c == '\x0c' {
        seq!['\\', 'f']
    } else if c == '\r' {
        seq!['\\', 'r']
    } else if (c as u32) < 32 {
        seq!['\\', 'u', '0', '0', hex_digit((c as u32) as int / 16), hex_digit((c as u32) as int % 16)]
    } else {
        seq![c]
    }
}

/// The escaped characters of `s`.
pub open spec fn json_escaped(s: Seq<char>) -> Seq<char>
    decreases s.len(),
{
    if s.len() == 0 {
        Seq::empty()
    } else {
        json_escaped(s.drop_last()) + json_escape(s.last())
    }
}

/// The JSON string literal of `s`.
pub open spec fn json_quoted(s: Seq<char>) -> Seq<char> {
    seq!['"'] + json_escaped(s) + seq!['"']
}

/// Relies on `serde_json::to_string` applied to a string slice: the JSON
/// string literal for it. Serialising a string into memory cannot fail; the
/// error arm only converts the outside `Result`.
#[verifier::external_body]
fn json_string(s: &str) -> (r: String)
    ensures
        r@ == json_quoted(s@),
{
    match serde_json::to_string(s) {
        Ok(j) => j,
        Err(_) => String::new(),
    }
}

/// `base` without one trailing slash.
pub open spec fn trim_slash(base: Seq<char>) -> Seq<char> {
    if base.len() > 0 && base.last() == '/' {
        base.drop_last()
    } else {
        base
    }
}

/// The public link of the object stored under `key`.
pub open spec fn object_url(base: Seq<char>, key: Seq<char>) -> Seq<char> {
    trim_slash(base) + "/"@ + key
}

/// The text announcing an upload.
pub open spec fn notification_text(
    subject: Option<Seq<char>>,
    sender: Option<Seq<char>>,
    base: Seq<char>,
    key: Seq<char>,
) -> Seq<char> {
    let who = match sender {
        Some(s) => s,
        None => "unknown"@,
    };
    match subject {
        Some(t) => "\""@ + t + "\" from "@ + who + ": "@ + object_url(base, key),
        None => "Mail received from "@ + who + ": "@ + object_url(base, key),
    }
}

/// With a base URL that does not end in a slash, the announcement of a new
/// upload reads: the quoted subject, " from ", the sender (or "unknown"),
/// ": ", then the base URL, "/" and the key.
pub proof fn announcement_with_subject(
    subject: Seq<char>,
    sender: Option<Seq<char>>,
    base: Seq<char>,
    key: Seq<char>,
)
    requires
        base.len() == 0 || base.last() != '/',
    ensures
        notification_text(Some(subject), sender, base, key) == "\""@ + subject + "\" from "@ + (
        match sender {
            Some(s) => s,
            None => "unknown"@,
        }) + ": "@ + base + "/"@ + key,
{
}

/// Builds the public link of the object stored under `key`.
pub fn public_object_url(base: &str, key: &str) -> (r: String)
    ensures
        r@ == object_url(base@, key@),
{
    let n = base.unicode_len();
    let trimmed = if n > 0 && base.get_char(n - 1) == '/' {
        base.substring_char(0, n - 1)
    } else {
        base
    };
    assert(trimmed@ =~= trim_slash(base@));
    let mut r = String::from_str(trimmed);
    r.append("/");
    r.append(key);
    r
}

/// Formats the message announcing that `key` was stored.
pub fn format_notification(
    subject: Option<&str>,
    sender: Option<&str>,
    public_url: &str,
    key: &str,
) -> (r: String)
    ensures
        r@ == notification_text(opt_str_view(subject), opt_str_view(sender), public_url@, key@),
{
    let who = match sender {
        Some(s) => s,
        None => "unknown",
    };
    let url = public_object_url(public_url, key);
    let mut r = match subject {
        Some(t) => {
            let mut m = String::from_str("\"");
            m.append(t);
            m.append("\" from ");
            m
        },
        None => String::from_str("Mail received from "),
    };
    r.append(who);
    r.append(": ");
    r.append(url.as_str());
    r
}

/// The notification for `upload`: only content that was newly stored is
/// announced.
pub fn notification_for(upload: &AttachmentUpload, public_url: &str) -> (r: Option<String>)
    ensures
        upload.cached ==> r is None,
        !upload.cached ==> (r matches Some(m) && m@ == notification_text(
            opt_string_view(upload.subject),
            opt_string_view(upload.sender),
            public_url@,
            upload.key@,
        )),
{
    if upload.cached {
        return None;
    }
    let subject = match &upload.subject {
        Some(s) => Some(s.as_str()),
        None => None,
    };
    let sender = match &upload.sender {
        Some(s) => Some(s.as_str()),
        None => None,
    };
    Some(format_notification(subject, sender, public_url, upload.key.as_str()))
}

/// The JSON body of a webhook request whose message text is the JSON
/// literal `quoted`.
pub open spec fn envelope(quoted: Seq<char>) -> Seq<char> {
    "{\"method\":\"message\",\"params\":{\"channel\":\"#uplink\",\"message\":"@ + quoted
        + ",\"network\":\"irc.rwx.im:6697\"}}"@
}

/// Builds the webhook body that posts `message` to the chat channel.
pub fn chat_payload(message: &str) -> (r: String)
    ensures
        r@ == envelope(json_quoted(message@)),
{
    let quoted = json_string(message);
    let mut body = String::from_str(
        "{\"method\":\"message\",\"params\":{\"channel\":\"#uplink\",\"message\":",
    );
    body.append(quoted.as_str());
    body.append(",\"network\":\"irc.rwx.im:6697\"}}");
    body
}

/// The `Authorization` header value that carries the webhook token.
pub fn authorization_header(token: &str) -> (r: String)
    ensures
        r@ == "Bearer "@ + token@,
{
    let mut r = String::from_str("Bearer ");
    r.append(token);
    r
}

} // verus!
