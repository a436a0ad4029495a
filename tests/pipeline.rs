use std::collections::HashMap;

use base64::Engine;

use meta_mail_ingress::api::{authorized, Mail, MailMetadata, ParsedMail};
use meta_mail_ingress::attachment::{Action, Outcome, Phase};
use meta_mail_ingress::cli::Format;
use meta_mail_ingress::config::AwsS3Config;
use meta_mail_ingress::http::{AuthRejection, AuthToken};
use meta_mail_ingress::notify::{
    authorization_header, chat_payload, format_notification, notification_for, public_object_url,
};
use meta_mail_ingress::postprocess::{applicable_processors, init, registered, ChainRun, Processor};
use meta_mail_ingress::store::{
    content_key, content_type_disposition, exists_from_head, finish_upload, plan_upload,
    AttachmentUpload, HeadOutcome, UploadStep,
};
use meta_mail_ingress::{Error, MailHandler};

fn handler() -> MailHandler {
    MailHandler::new(
        AwsS3Config { bucket_name: "bucket".to_string(), public_url: None },
        "secret".to_string(),
        registered(),
    )
}

#[test]
fn disposition_of_example_types() {
    assert_eq!(content_type_disposition("image/jpeg"), "inline");
    assert_eq!(content_type_disposition("video/webm"), "inline");
    assert_eq!(content_type_disposition("application/pdf"), "attachment");
    assert_eq!(content_type_disposition(""), "attachment");
}

#[test]
fn processors_apply_by_type() {
    assert!(Processor::RotateImageExif.applicable("image/png"));
    assert!(!Processor::RotateImageExif.applicable("video/mp4"));
    assert!(Processor::RemoveExif.applicable("video/mp4"));
    assert!(Processor::RemoveExif.applicable("video/x-quicktime"));
    assert!(!Processor::RemoveExif.applicable("application/pdf"));
    let all = registered();
    assert_eq!(applicable_processors(&all, "image/jpeg"), vec![Processor::RotateImageExif, Processor::RemoveExif]);
    assert_eq!(applicable_processors(&all, "video/mpeg"), vec![Processor::RemoveExif]);
    assert!(applicable_processors(&all, "text/plain").is_empty());
}

#[test]
fn init_refuses_failed_health_check() {
    assert_eq!(init(&vec![true, true]), Ok(registered()));
    assert_eq!(init(&vec![true, false]), Err(Error::ToolCheckFailed("exiftool".to_string())));
    assert_eq!(init(&vec![false, false]), Err(Error::ToolCheckFailed("exiftran".to_string())));
}

#[test]
fn tool_invocations() {
    assert_eq!(Processor::RotateImageExif.tool(), "exiftran");
    assert_eq!(Processor::RotateImageExif.apply_args(), vec!["-i", "-a"]);
    assert_eq!(Processor::RemoveExif.check_args(), vec!["-ver"]);
}

#[test]
fn chain_fails_closed() {
    let h = handler();
    let mut chain = h.chain_for("image/jpeg");
    assert_eq!(chain.next_stage(), Some(Processor::RotateImageExif));
    chain.record(false);
    assert_eq!(chain.next_stage(), None);
    assert!(!chain.survived());
}

#[test]
fn failed_stage_drops_attachment() {
    let mut h = handler();
    let (mut run, action) = h.start_typed_attachment(14, "image/jpeg", Some("s"), None);
    assert!(matches!(action, Action::Apply(Processor::RotateImageExif)));
    let action = run.applied(true);
    assert!(matches!(action, Action::Apply(Processor::RemoveExif)));
    assert_eq!(run.current_phase(), Phase::Processing);
    let action = run.applied(false);
    assert!(matches!(action, Action::Finish));
    assert_eq!(run.current_phase(), Phase::Finished);
    assert!(matches!(h.finish_attachment(run), Outcome::Dropped));
    assert_eq!(h.num_attachments_processed, 1);
    assert_eq!(h.num_attachments_bytes_processed, 14);
}

#[test]
fn chain_without_stages_survives() {
    let h = handler();
    let chain = h.chain_for("application/pdf");
    assert_eq!(chain.next_stage(), None);
    assert!(chain.survived());
    let (_, action) = h.start_typed_attachment(4, "application/pdf", None, None);
    assert!(matches!(action, Action::ReadFinalBytes));
}

#[test]
fn content_key_of_empty_input() {
    assert_eq!(content_key(b""), "~meta/mails/v2/47DEQpj8HBSa-_TImW-5JCeuQeRkm5NMpJWZG3hSuFU");
}

#[test]
fn content_key_is_deterministic() {
    let a = content_key(b"same bytes");
    let b = content_key(b"same bytes");
    let c = content_key(b"other bytes");
    assert_eq!(a, b);
    assert_ne!(a, c);
    assert!(a.starts_with("~meta/mails/v2/"));
    assert_eq!(a.len(), "~meta/mails/v2/".len() + 43);
}

#[test]
fn existence_probe_mapping() {
    assert_eq!(exists_from_head(HeadOutcome::Found), Ok(true));
    assert_eq!(exists_from_head(HeadOutcome::NotFound), Ok(false));
    assert_eq!(
        exists_from_head(HeadOutcome::Failed("denied".to_string())),
        Err(Error::AwsS3Error("denied".to_string()))
    );
}

#[test]
fn plan_skips_known_key() {
    match plan_upload("k".to_string(), "image/jpeg", Some("s"), None, &Ok(true), vec![]) {
        UploadStep::Cached(u) => {
            assert_eq!(u.key, "k");
            assert!(u.cached);
            assert_eq!(u.subject.as_deref(), Some("s"));
            assert_eq!(u.sender, None);
        }
        UploadStep::Put(_) => panic!("a stored key must not be sent again"),
    }
}

#[test]
fn plan_puts_unknown_or_failed_probe() {
    for probe in [Ok(false), Err(Error::AwsS3Error("x".to_string()))] {
        match plan_upload("k".to_string(), "application/pdf", None, None, &probe, vec![1, 2]) {
            UploadStep::Put(p) => {
                assert_eq!(p.key, "k");
                assert_eq!(p.content_type, "application/pdf");
                assert_eq!(p.disposition, "attachment");
                assert_eq!(p.body, vec![1, 2]);
            }
            UploadStep::Cached(_) => panic!("an unknown key must be sent"),
        }
    }
}

#[test]
fn failed_put_is_an_error() {
    let req = match plan_upload("k".to_string(), "image/png", None, None, &Ok(false), vec![]) {
        UploadStep::Put(p) => p,
        UploadStep::Cached(_) => unreachable!(),
    };
    assert_eq!(
        finish_upload(req.key, None, None, Err("boom".to_string())).err(),
        Some(Error::S3PutObjectFailed("boom".to_string()))
    );
}

#[test]
fn notification_text_with_and_without_subject() {
    assert_eq!(
        format_notification(Some("Holiday"), Some("a@b.c"), "https://pub.example", "~meta/mails/v2/K"),
        "\"Holiday\" from a@b.c: https://pub.example/~meta/mails/v2/K"
    );
    assert_eq!(
        format_notification(None, None, "https://pub.example/", "K"),
        "Mail received from unknown: https://pub.example/K"
    );
}

#[test]
fn public_url_joins_once() {
    assert_eq!(public_object_url("https://x.y/", "k"), "https://x.y/k");
    assert_eq!(public_object_url("https://x.y", "k"), "https://x.y/k");
}

#[test]
fn cached_upload_is_not_announced() {
    let u = AttachmentUpload { key: "k".to_string(), subject: None, sender: None, cached: true };
    assert_eq!(notification_for(&u, "https://x.y"), None);
}

#[test]
fn webhook_request_parts() {
    assert_eq!(
        chat_payload("hi \"there\""),
        "{\"method\":\"message\",\"params\":{\"channel\":\"#uplink\",\"message\":\"hi \\\"there\\\"\",\"network\":\"irc.rwx.im:6697\"}}"
    );
    assert_eq!(
        chat_payload("a\nb\u{1}\\é"),
        "{\"method\":\"message\",\"params\":{\"channel\":\"#uplink\",\"message\":\"a\\nb\\u0001\\\\é\",\"network\":\"irc.rwx.im:6697\"}}"
    );
    assert_eq!(authorization_header("tok"), "Bearer tok");
    assert_eq!(handler().authorization(), "Bearer secret");
}

#[test]
fn counters_add_up_over_mails() {
    let mut h = handler();
    for size in [3usize, 5] {
        h.record_attachment(size);
    }
    h.record_mail(2);
    h.record_attachment(10);
    h.record_mail(1);
    assert_eq!(h.num_attachments_processed, 3);
    assert_eq!(h.num_attachments_bytes_processed, 18);
    assert_eq!(h.num_mails_processed, 2);
}

fn parsed(subject: Option<&str>, attachments: Vec<Vec<u8>>) -> ParsedMail {
    ParsedMail { subject: subject.map(String::from), attachments }
}

#[test]
fn mail_without_attachments_is_skipped() {
    let h = handler();
    assert!(h.begin_mail(parsed(Some("hi"), vec![]), Some("a@b.c")).is_none());
    assert_eq!(h.num_mails_processed, 0);
    assert_eq!(h.num_attachments_processed, 0);
    assert_eq!(h.num_attachments_bytes_processed, 0);
}

#[test]
fn skipped_attachment_is_counted() {
    let mut h = handler();
    let mail = parsed(Some("s"), vec![b"abcd".to_vec(), b"xy".to_vec()]);
    let mut mail_run = h.begin_mail(mail, None).unwrap();
    h.skip_next(&mut mail_run);
    assert!(mail_run.pending());
    assert_eq!(mail_run.content(), b"xy");
    h.skip_next(&mut mail_run);
    assert!(!mail_run.pending());
    h.finish_mail(mail_run);
    assert_eq!(h.num_attachments_processed, 2);
    assert_eq!(h.num_attachments_bytes_processed, 6);
    assert_eq!(h.num_mails_processed, 1);
}

#[test]
fn mail_run_counts_every_attachment() {
    let mut h = handler();
    let mail = parsed(None, vec![b"abc".to_vec(), b"%PDF".to_vec(), vec![0u8; 10]]);
    let mut mail_run = h.begin_mail(mail, None).unwrap();
    let mut seen = Vec::new();
    let mut first = true;
    while mail_run.pending() {
        seen.push(mail_run.content().to_vec());
        let (mut run, mut action) = h.start_next(&mail_run);
        // The first attachment fails at the store, the others are dropped
        // or stored: every one is counted.
        loop {
            action = match action {
                Action::Apply(_) => run.applied(false),
                Action::ReadFinalBytes => run.final_bytes(b"final".to_vec()),
                Action::CheckExists(_) => run.exists_checked(Ok(false)),
                Action::Store(_) => {
                    let outcome = if first { Err("down".to_string()) } else { Ok(()) };
                    run.stored(outcome)
                }
                Action::Announce(_) => run.announced(),
                Action::Finish => break,
            };
        }
        first = false;
        let _ = h.finish_next(&mut mail_run, run);
    }
    h.finish_mail(mail_run);
    assert_eq!(seen, vec![b"abc".to_vec(), b"%PDF".to_vec(), vec![0u8; 10]]);
    assert_eq!(h.num_mails_processed, 1);
    assert_eq!(h.num_attachments_processed, 3);
    assert_eq!(h.num_attachments_bytes_processed, 17);
}

#[test]
fn mail_without_attachments_changes_nothing() {
    let mut h = handler();
    assert!(!h.accepts_mail(0));
    h.record_mail(0);
    assert_eq!(h.num_mails_processed, 0);
    assert_eq!(h.num_attachments_processed, 0);
    assert_eq!(h.num_attachments_bytes_processed, 0);
}

#[test]
fn jpeg_attachment_is_stored_and_announced() {
    let mut h = handler();
    let received: &[u8] = b"\xff\xd8\xff\xe0 jpeg with exif";
    assert!(h.accepts_mail(1));
    let (mut run, mut action) =
        h.start_typed_attachment(received.len(), "image/jpeg", Some("Photos"), Some("me@x.y"));
    let mut applied = 0;
    while let Action::Apply(_) = action {
        action = run.applied(true);
        applied += 1;
    }
    assert_eq!(applied, 2);
    assert!(matches!(action, Action::ReadFinalBytes));
    let processed: &[u8] = b"\xff\xd8\xff\xe0 jpeg";
    let key = match run.final_bytes(processed.to_vec()) {
        Action::CheckExists(k) => k,
        _ => panic!("the key must be probed"),
    };
    assert_eq!(key, content_key(processed));
    assert_ne!(key, content_key(received));
    let mut puts = 0;
    let request = match run.exists_checked(Ok(false)) {
        Action::Store(p) => p,
        _ => panic!("new content must be stored"),
    };
    puts += 1;
    assert_eq!(request.key, key);
    assert_eq!(request.content_type, "image/jpeg");
    assert_eq!(request.disposition, "inline");
    assert_eq!(request.body, processed.to_vec());
    let message = match run.stored(Ok(())) {
        Action::Announce(m) => m,
        _ => panic!("new content must be announced"),
    };
    assert_eq!(message, format!("\"Photos\" from me@x.y: https://pub.rwx.im/{key}"));
    assert!(matches!(run.announced(), Action::Finish));
    match h.finish_attachment(run) {
        Outcome::Stored(u) => {
            assert_eq!(u.key, key);
            assert!(!u.cached);
        }
        _ => panic!("the attachment must be stored"),
    }
    h.record_mail(1);
    assert_eq!(puts, 1);
    assert_eq!(h.num_mails_processed, 1);
    assert_eq!(h.num_attachments_processed, 1);
    assert_eq!(h.num_attachments_bytes_processed, received.len() as u64);
}

#[test]
fn repeated_content_is_not_stored_again() {
    let mut h = handler();
    let bytes: &[u8] = b"%PDF-1.4 same document";
    let mut keys = Vec::new();
    for probe in [false, true] {
        let (mut run, action) = h.start_typed_attachment(bytes.len(), "application/pdf", None, None);
        assert!(matches!(action, Action::ReadFinalBytes));
        match run.final_bytes(bytes.to_vec()) {
            Action::CheckExists(k) => keys.push(k),
            _ => panic!("the key must be probed"),
        }
        match run.exists_checked(Ok(probe)) {
            Action::Store(_) => {
                assert!(!probe);
                assert!(matches!(run.stored(Ok(())), Action::Announce(_)));
                assert!(matches!(run.announced(), Action::Finish));
                assert!(matches!(h.finish_attachment(run), Outcome::Stored(_)));
            }
            Action::Finish => {
                assert!(probe);
                match h.finish_attachment(run) {
                    Outcome::AlreadyStored(u) => assert!(u.cached),
                    _ => panic!("known content must count as already stored"),
                }
            }
            _ => panic!("unexpected step"),
        }
        h.record_mail(1);
    }
    assert_eq!(keys[0], keys[1]);
    assert_eq!(h.num_attachments_processed, 2);
    assert_eq!(h.num_attachments_bytes_processed, 2 * bytes.len() as u64);
    assert_eq!(h.num_mails_processed, 2);
}

#[test]
fn failed_store_is_reported() {
    let mut h = handler();
    let (mut run, _) = h.start_typed_attachment(3, "text/plain", None, None);
    let _ = run.final_bytes(b"abc".to_vec());
    assert!(matches!(run.exists_checked(Err(Error::AwsS3Error("x".to_string()))), Action::Store(_)));
    assert!(matches!(run.stored(Err("denied".to_string())), Action::Finish));
    match h.finish_attachment(run) {
        Outcome::StoreFailed(e) => assert_eq!(e, Error::S3PutObjectFailed("denied".to_string())),
        _ => panic!("the failure must be reported"),
    }
    assert_eq!(h.num_attachments_processed, 1);
}

#[test]
fn configured_public_url_is_used() {
    let h = MailHandler::new(
        AwsS3Config { bucket_name: "b".to_string(), public_url: Some("https://cdn.example/".to_string()) },
        "t".to_string(),
        registered(),
    );
    assert_eq!(h.public_url(), "https://cdn.example/");
    let (mut run, _) = h.start_typed_attachment(1, "text/plain", None, Some("s"));
    let key = match run.final_bytes(b"x".to_vec()) {
        Action::CheckExists(k) => k,
        _ => unreachable!(),
    };
    let _ = run.exists_checked(Ok(false));
    match run.stored(Ok(())) {
        Action::Announce(m) => assert_eq!(m, format!("Mail received from s: https://cdn.example/{key}")),
        _ => panic!("new content must be announced"),
    }
}

#[test]
fn sniffed_run_counts_attachment_size() {
    let h = handler();
    let (run, _) = h.start_attachment(b"hello", None, None);
    assert_eq!(run.size(), 5);
}

#[test]
fn auth_header_parsing() {
    assert_eq!(AuthToken::from_header(None).err(), Some(AuthRejection::Missing));
    assert_eq!(AuthToken::from_header(Some(b"Bearer x")).err(), Some(AuthRejection::InvalidScheme));
    assert_eq!(AuthToken::from_header(Some(b"Token abc")).ok().unwrap().0, "abc");
    assert_eq!(AuthToken::from_header(Some(b"Token a\xffb")).ok().unwrap().0, "a\u{fffd}b");
    assert_eq!(AuthRejection::Missing.message(), "authorization token is missing");
    assert_eq!(AuthRejection::InvalidScheme.status(), 400);
    let t = AuthToken::from_header(Some(b"Token abc")).ok().unwrap();
    assert!(t.matches("abc"));
    assert!(!t.matches("abd"));
    assert!(authorized("x", "x"));
    assert!(!authorized("x", "y"));
}

#[test]
fn format_names() {
    assert_eq!(Format::parse("json"), Ok(Format::Json));
    assert_eq!("pretty".parse::<Format>(), Ok(Format::Pretty));
    assert_eq!(Format::parse("full"), Err("unsupported format, must be one of json, pretty, compact, full".to_string()));
    assert_eq!(
        "JSON".parse::<Format>(),
        Err("unsupported format, must be one of json, pretty, compact, full".to_string())
    );
    assert_eq!("compact".parse::<Format>(), Ok(Format::Compact));
    assert_eq!(Format::default(), Format::Compact);
    assert_eq!(Format::Compact.as_str(), "compact");
}

fn mail(raw: &str) -> Mail {
    Mail {
        raw: raw.to_string(),
        raw_size: 0,
        metadata: MailMetadata { to: None, from: None, headers: HashMap::new() },
    }
}

#[test]
fn mail_decoding() {
    assert!(mail("not base64!").parse().is_none());
    let message = "From: a@b.c\r\nSubject: Hello\r\nMIME-Version: 1.0\r\nContent-Type: multipart/mixed; boundary=\"XX\"\r\n\r\n--XX\r\nContent-Type: text/plain\r\n\r\nbody\r\n--XX\r\nContent-Type: application/octet-stream\r\nContent-Disposition: attachment; filename=\"a.bin\"\r\nContent-Transfer-Encoding: base64\r\n\r\nAAECAw==\r\n--XX--\r\n";
    let raw = base64::engine::general_purpose::STANDARD.encode(message);
    let parsed = mail(&raw).parse().unwrap();
    assert_eq!(parsed.subject.as_deref(), Some("Hello"));
    assert_eq!(parsed.attachments, vec![vec![0u8, 1, 2, 3]]);
}
