//! The mail handler: its counters, and the decisions it takes for each
//! attachment of a message.
use vstd::prelude::*;

use crate::attachment::{Action, AttachmentRun, Outcome};
use crate::config::AwsS3Config;
use crate::notify::{authorization_header, DEFAULT_PUBLIC_URL};
use crate::postprocess::{applicable_spec, ChainRun, Processor};
use crate::api::ParsedMail;
use crate::text::{as_opt_str, opt_str_view, opt_string_view, to_owned_opt};

verus! {

/// Relies on `tree_magic_mini::from_u8`: a content type for the bytes. It
/// consults the machine's MIME database, so nothing is promised of it.
#[verifier::external_body]
fn sniff(bytes: &[u8]) -> (r: &'static str) {
    tree_magic_mini::from_u8(bytes)
}

/// The three counters of a handler.
pub struct Counters {
    pub mails: nat,
    pub attachments: nat,
    pub bytes: nat,
}

/// Whether `post` is `pre` after one attachment of `size` bytes.
pub open spec fn attachment_counted(pre: Counters, post: Counters, size: nat) -> bool {
    &&& post.mails == pre.mails
    &&& post.attachments == pre.attachments + 1
    &&& post.bytes == pre.bytes + size
}

/// Whether `post` is `pre` after a message with `count` attachments has
/// been completed.
pub open spec fn mail_counted(pre: Counters, post: Counters, count: nat) -> bool {
    &&& post.mails == (if count == 0 { pre.mails } else { pre.mails + 1 })
    &&& post.attachments == pre.attachments
    &&& post.bytes == pre.bytes
}

/// The sum of `sizes`.
pub open spec fn sum_sizes(sizes: Seq<nat>) -> nat
    decreases sizes.len(),
{
    if sizes.len() == 0 {
        0
    } else {
        sum_sizes(sizes.drop_last()) + sizes.last()
    }
}

/// The handling of one message: its attachments run one after another,
/// each is counted when it ends, and the message is counted last.
pub struct MailRun {
    mail: ParsedMail,
    sender: Option<String>,
    next: usize,
    start: Ghost<Counters>,
}

impl MailRun {
    /// The sizes of the message's attachments, in order.
    pub closed spec fn sizes(&self) -> Seq<nat> {
        self.mail.attachments@.map_values(|a: Vec<u8>| a@.len())
    }

    /// The contents of the message's attachments, in order.
    pub closed spec fn contents(&self) -> Seq<Seq<u8>> {
        self.mail.attachments@.map_values(|a: Vec<u8>| a@)
    }

    pub closed spec fn subject(&self) -> Option<Seq<char>> {
        opt_string_view(self.mail.subject)
    }

    pub closed spec fn sender(&self) -> Option<Seq<char>> {
        opt_string_view(self.sender)
    }

    /// How many attachments have been counted.
    pub closed spec fn done(&self) -> nat {
        self.next as nat
    }

    /// The handler's counters when the message arrived.
    pub closed spec fn start(&self) -> Counters {
        self.start@
    }

    pub open spec fn wf(&self) -> bool {
        &&& 0 < self.sizes().len()
        &&& self.done() <= self.sizes().len()
        &&& self.contents().len() == self.sizes().len()
        &&& forall|i: int| 0 <= i < self.sizes().len() ==> #[trigger] self.sizes()[i] == self.contents()[i].len()
    }

    /// Whether an attachment is still to be handled.
    pub open spec fn has_next(&self) -> bool {
        self.done() < self.sizes().len()
    }

    /// Whether an attachment is still to be handled.
    pub fn pending(&self) -> (r: bool)
        requires
            self.wf(),
        ensures
            r == self.has_next(),
    {
        self.next < self.mail.attachments.len()
    }

    /// The contents of the next attachment.
    pub fn content(&self) -> (r: &[u8])
        requires
            self.wf(),
            self.has_next(),
        ensures
            r@ == self.contents()[self.done() as int],
    {
        self.mail.attachments[self.next].as_slice()
    }
}

/// Handles messages: owns the counters, the post-processors, and what is
/// needed to reach the store and the notification webhook.
pub struct MailHandler {
    /// The number of e-mails that have been processed.
    pub num_mails_processed: u64,
    /// The number of attachments that have been processed.
    pub num_attachments_processed: u64,
    /// The number of attachment bytes that have been processed.
    pub num_attachments_bytes_processed: u64,
    /// The registered post-processors, in order.
    pub processors: Vec<Processor>,
    /// The bucket configuration.
    pub s3_config: AwsS3Config,
    /// The webhook's bearer token.
    pub meta_webhook_token: String,
}

impl MailHandler {
    pub open spec fn counters(&self) -> Counters {
        Counters {
            mails: self.num_mails_processed as nat,
            attachments: self.num_attachments_processed as nat,
            bytes: self.num_attachments_bytes_processed as nat,
        }
    }

    /// The base URL of stored objects.
    pub open spec fn public_url_spec(&self) -> Seq<char> {
        match self.s3_config.public_url {
            Some(u) => u@,
            None => DEFAULT_PUBLIC_URL@,
        }
    }

    /// A handler with all counters at zero.
    pub fn new(
        s3_config: AwsS3Config,
        meta_webhook_token: String,
        processors: Vec<Processor>,
    ) -> (r: MailHandler)
        ensures
            r.num_mails_processed == 0,
            r.num_attachments_processed == 0,
            r.num_attachments_bytes_processed == 0,
            r.processors@ == processors@,
            r.s3_config == s3_config,
            r.meta_webhook_token == meta_webhook_token,
    {
        MailHandler {
            num_mails_processed: 0,
            num_attachments_processed: 0,
            num_attachments_bytes_processed: 0,
            processors,
            s3_config,
            meta_webhook_token,
        }
    }

    /// Whether the counters are those at the start of `mail` plus its
    /// attachments counted so far.
    pub open spec fn counted_so_far(&self, mail: &MailRun) -> bool {
        &&& self.counters().mails == mail.start().mails
        &&& self.counters().attachments == mail.start().attachments + mail.done()
        &&& self.counters().bytes == mail.start().bytes + sum_sizes(
            mail.sizes().subrange(0, mail.done() as int),
        )
    }

    /// Starts handling a parsed message from `sender`. A message without
    /// attachments is skipped: nothing is processed and nothing counted.
    pub fn begin_mail(&self, mail: ParsedMail, sender: Option<&str>) -> (r: Option<MailRun>)
        ensures
            r is None <==> mail.attachments@.len() == 0,
            r matches Some(m) ==> {
                &&& m.wf()
                &&& m.done() == 0
                &&& m.contents() == mail.attachments@.map_values(|a: Vec<u8>| a@)
                &&& m.subject() == opt_string_view(mail.subject)
                &&& m.sender() == opt_str_view(sender)
                &&& self.counted_so_far(&m)
            },
    {
        if !self.accepts_mail(mail.attachments.len()) {
            return None;
        }
        let run = MailRun {
            mail,
            sender: to_owned_opt(sender),
            next: 0,
            start: Ghost(self.counters()),
        };
        assert(run.sizes().subrange(0, 0) =~= Seq::<nat>::empty());
        Some(run)
    }

    /// Starts the run of the next attachment of `mail`.
    pub fn start_next(&self, mail: &MailRun) -> (r: (AttachmentRun, Action))
        requires
            mail.wf(),
            mail.has_next(),
        ensures
            r.0.wf(),
            r.0.chain().stages() == applicable_spec(self.processors@, r.0.mime_type()),
            r.0.chain().completed() == 0,
            !r.0.chain().failed(),
            r.0.subject() == mail.subject(),
            r.0.sender() == mail.sender(),
            r.0.public_url() == self.public_url_spec(),
            r.0.attachment_size() == mail.sizes()[mail.done() as int],
            r.0.after_chain(r.1),
    {
        let content = mail.content();
        self.start_attachment(content, as_opt_str(&mail.mail.subject), as_opt_str(&mail.sender))
    }

    /// Ends the run of the next attachment of `mail` and counts it, whatever
    /// became of it.
    pub fn finish_next(&mut self, mail: &mut MailRun, run: AttachmentRun) -> (r: Outcome)
        requires
            old(mail).wf(),
            old(mail).has_next(),
            old(self).counted_so_far(&*old(mail)),
            run.wf(),
            run.finished(),
            run.attachment_size() == old(mail).sizes()[old(mail).done() as int],
            old(self).num_attachments_processed < u64::MAX,
            old(self).num_attachments_bytes_processed + run.attachment_size() <= u64::MAX,
        ensures
            final(mail).wf(),
            final(mail).done() == old(mail).done() + 1,
            final(mail).sizes() == old(mail).sizes(),
            final(mail).contents() == old(mail).contents(),
            final(mail).subject() == old(mail).subject(),
            final(mail).sender() == old(mail).sender(),
            final(mail).start() == old(mail).start(),
            final(self).counted_so_far(&*final(mail)),
            Some(r) == run.outcome(),
            final(self).processors == old(self).processors,
            final(self).s3_config == old(self).s3_config,
            final(self).meta_webhook_token == old(self).meta_webhook_token,
    {
        let r = self.finish_attachment(run);
        let ghost done = mail.next as int;
        let n = mail.mail.attachments.len();
        assert(mail.next < n);
        mail.next = mail.next + 1;
        proof {
            let s = mail.sizes();
            assert(s.subrange(0, done + 1).drop_last() =~= s.subrange(0, done));
        }
        r
    }

    /// Counts the next attachment of `mail` without running it, when its
    /// scratch file could not be written or read: every attachment is
    /// counted, whatever became of it.
    pub fn skip_next(&mut self, mail: &mut MailRun)
        requires
            old(mail).wf(),
            old(mail).has_next(),
            old(self).counted_so_far(&*old(mail)),
            old(self).num_attachments_processed < u64::MAX,
            old(self).num_attachments_bytes_processed + old(mail).sizes()[old(mail).done() as int]
                <= u64::MAX,
        ensures
            final(mail).wf(),
            final(mail).done() == old(mail).done() + 1,
            final(mail).sizes() == old(mail).sizes(),
            final(mail).contents() == old(mail).contents(),
            final(mail).subject() == old(mail).subject(),
            final(mail).sender() == old(mail).sender(),
            final(mail).start() == old(mail).start(),
            final(self).counted_so_far(&*final(mail)),
            final(self).processors == old(self).processors,
            final(self).s3_config == old(self).s3_config,
            final(self).meta_webhook_token == old(self).meta_webhook_token,
    {
        let size = mail.content().len();
        self.record_attachment(size);
        let ghost done = mail.next as int;
        let n = mail.mail.attachments.len();
        assert(mail.next < n);
        mail.next = mail.next + 1;
        proof {
            let s = mail.sizes();
            assert(s.subrange(0, done + 1).drop_last() =~= s.subrange(0, done));
        }
    }

    /// Counts a message once all its attachments have been counted. Over the
    /// whole message, the attachment counter grows by the number of its
    /// attachments, the byte counter by the sum of their sizes, and the mail
    /// counter by one.
    pub fn finish_mail(&mut self, mail: MailRun)
        requires
            mail.wf(),
            !mail.has_next(),
            old(self).counted_so_far(&mail),
            old(self).num_mails_processed < u64::MAX,
        ensures
            final(self).counters() == (Counters {
                mails: mail.start().mails + 1,
                attachments: mail.start().attachments + mail.sizes().len(),
                bytes: mail.start().bytes + sum_sizes(mail.sizes()),
            }),
            final(self).processors == old(self).processors,
            final(self).s3_config == old(self).s3_config,
            final(self).meta_webhook_token == old(self).meta_webhook_token,
    {
        assert(mail.sizes().subrange(0, mail.sizes().len() as int) =~= mail.sizes());
        self.record_mail(mail.mail.attachments.len());
    }

    /// Whether a message with `attachment_count` attachments is processed
    /// at all: one without attachments is skipped.
    pub fn accepts_mail(&self, attachment_count: usize) -> (r: bool)
        ensures
            r == (attachment_count > 0),
    {
        attachment_count > 0
    }

    /// Sniffs the content type of an attachment and starts its run through
    /// the pipeline.
    pub fn start_attachment(
        &self,
        content: &[u8],
        subject: Option<&str>,
        sender: Option<&str>,
    ) -> (r: (AttachmentRun, Action))
        ensures
            r.0.wf(),
            r.0.chain().stages() == applicable_spec(self.processors@, r.0.mime_type()),
            r.0.chain().completed() == 0,
            !r.0.chain().failed(),
            r.0.subject() == opt_str_view(subject),
            r.0.sender() == opt_str_view(sender),
            r.0.public_url() == self.public_url_spec(),
            r.0.attachment_size() == content@.len(),
            r.0.after_chain(r.1),
    {
        let mime_type = sniff(content);
        self.start_typed_attachment(content.len(), mime_type, subject, sender)
    }

    /// Starts the run of an attachment of `size` bytes whose content type is
    /// already known.
    pub fn start_typed_attachment(
        &self,
        size: usize,
        mime_type: &str,
        subject: Option<&str>,
        sender: Option<&str>,
    ) -> (r: (AttachmentRun, Action))
        ensures
            r.0.wf(),
            r.0.mime_type() == mime_type@,
            r.0.chain().stages() == applicable_spec(self.processors@, mime_type@),
            r.0.chain().completed() == 0,
            !r.0.chain().failed(),
            r.0.subject() == opt_str_view(subject),
            r.0.sender() == opt_str_view(sender),
            r.0.public_url() == self.public_url_spec(),
            r.0.attachment_size() == size,
            r.0.after_chain(r.1),
    {
        let chain = self.chain_for(mime_type);
        AttachmentRun::new(chain, mime_type, subject, sender, self.public_url(), size)
    }

    /// The run of this handler's processors for content of type `mime_type`.
    pub fn chain_for(&self, mime_type: &str) -> (r: ChainRun)
        ensures
            r.wf(),
            r.stages() == applicable_spec(self.processors@, mime_type@),
            r.completed() == 0,
            !r.failed(),
    {
        ChainRun::new(&self.processors, mime_type)
    }

    /// The base URL of stored objects.
    pub fn public_url(&self) -> (r: &str)
        ensures
            r@ == self.public_url_spec(),
    {
        match &self.s3_config.public_url {
            Some(u) => u.as_str(),
            None => DEFAULT_PUBLIC_URL,
        }
    }

    /// The `Authorization` header of webhook requests.
    pub fn authorization(&self) -> (r: String)
        ensures
            r@ == "Bearer "@ + self.meta_webhook_token@,
    {
        authorization_header(self.meta_webhook_token.as_str())
    }

    /// Ends the run of an attachment and counts it, whatever became of it.
    pub fn finish_attachment(&mut self, run: AttachmentRun) -> (r: Outcome)
        requires
            run.wf(),
            run.finished(),
            old(self).num_attachments_processed < u64::MAX,
            old(self).num_attachments_bytes_processed + run.attachment_size() <= u64::MAX,
        ensures
            attachment_counted(old(self).counters(), final(self).counters(), run.attachment_size()),
            Some(r) == run.outcome(),
            final(self).processors == old(self).processors,
            final(self).s3_config == old(self).s3_config,
            final(self).meta_webhook_token == old(self).meta_webhook_token,
    {
        let size = run.size();
        self.record_attachment(size);
        run.into_outcome()
    }

    /// Counts one processed attachment of `size` bytes, whatever became of it.
    pub fn record_attachment(&mut self, size: usize)
        requires
            old(self).num_attachments_processed < u64::MAX,
            old(self).num_attachments_bytes_processed + size <= u64::MAX,
        ensures
            attachment_counted(old(self).counters(), final(self).counters(), size as nat),
            final(self).processors == old(self).processors,
            final(self).s3_config == old(self).s3_config,
            final(self).meta_webhook_token == old(self).meta_webhook_token,
    {
        self.num_attachments_processed = self.num_attachments_processed + 1;
        self.num_attachments_bytes_processed = self.num_attachments_bytes_processed + size as u64;
    }

    /// Completes a message that had `attachment_count` attachments. A message
    /// without attachments changes no counter.
    pub fn record_mail(&mut self, attachment_count: usize)
        requires
            attachment_count > 0 ==> old(self).num_mails_processed < u64::MAX,
        ensures
            mail_counted(old(self).counters(), final(self).counters(), attachment_count as nat),
            final(self).processors == old(self).processors,
            final(self).s3_config == old(self).s3_config,
            final(self).meta_webhook_token == old(self).meta_webhook_token,
    {
        if attachment_count > 0 {
            self.num_mails_processed = self.num_mails_processed + 1;
        }
    }
}

/// One step of a handler's history: an attachment of the given size was
/// counted, or a message with the given number of attachments completed.
pub enum CountStep {
    Attachment(nat),
    Mail(nat),
}

pub open spec fn step_holds(pre: Counters, post: Counters, step: CountStep) -> bool {
    match step {
        CountStep::Attachment(size) => attachment_counted(pre, post, size),
        CountStep::Mail(count) => mail_counted(pre, post, count),
    }
}

/// The number of attachments counted in `steps`.
pub open spec fn attachments_in(steps: Seq<CountStep>) -> nat
    decreases steps.len(),
{
    if steps.len() == 0 {
        0
    } else {
        attachments_in(steps.drop_last()) + match steps.last() {
            CountStep::Attachment(_) => 1nat,
            CountStep::Mail(_) => 0nat,
        }
    }
}

/// The sum of the sizes of the attachments counted in `steps`.
pub open spec fn bytes_in(steps: Seq<CountStep>) -> nat
    decreases steps.len(),
{
    if steps.len() == 0 {
        0
    } else {
        bytes_in(steps.drop_last()) + match steps.last() {
            CountStep::Attachment(size) => size,
            CountStep::Mail(_) => 0nat,
        }
    }
}

/// The number of messages with at least one attachment completed in `steps`.
pub open spec fn mails_in(steps: Seq<CountStep>) -> nat
    decreases steps.len(),
{
    if steps.len() == 0 {
        0
    } else {
        mails_in(steps.drop_last()) + match steps.last() {
            CountStep::Mail(count) => if count > 0 { 1nat } else { 0nat },
            CountStep::Attachment(_) => 0nat,
        }
    }
}

/// Over any history of calls, the attachment counter grows by exactly the
/// number of attachments counted and the byte counter by the sum of their
/// sizes, whatever became of each attachment; the mail counter grows by the
/// number of messages that had attachments.
pub proof fn counters_add_up(history: Seq<Counters>, steps: Seq<CountStep>)
    requires
        history.len() == steps.len() + 1,
        forall|i: int| 0 <= i < steps.len() ==> step_holds(#[trigger] history[i], history[i + 1], steps[i]),
    ensures
        history.last().attachments == history[0].attachments + attachments_in(steps),
        history.last().bytes == history[0].bytes + bytes_in(steps),
        history.last().mails == history[0].mails + mails_in(steps),
    decreases steps.len(),
{
    if steps.len() > 0 {
        let n = steps.len() - 1;
        let h = history.drop_last();
        assert forall|i: int| 0 <= i < steps.drop_last().len() implies step_holds(
            #[trigger] h[i],
            h[i + 1],
            steps.drop_last()[i],
        ) by {
            assert(step_holds(history[i], history[i + 1], steps[i]));
        }
        counters_add_up(h, steps.drop_last());
        assert(step_holds(history[n], history[n + 1], steps[n]));
    }
}

/// A message with a single attachment adds exactly that attachment's size
/// to the byte counter, whether it was stored, found in the store, dropped
/// or failed.
pub proof fn single_attachment_sum(sizes: Seq<nat>)
    requires
        sizes.len() == 1,
    ensures
        sum_sizes(sizes) == sizes[0],
{
    assert(sizes.drop_last().len() == 0);
    assert(sum_sizes(sizes.drop_last()) == 0);
    assert(sizes.last() == sizes[0]);
}

/// Completing a message without attachments leaves every counter as it was.
pub proof fn empty_mail_changes_nothing(pre: Counters, post: Counters)
    requires
        mail_counted(pre, post, 0),
    ensures
        post == pre,
{
}

} // verus!
