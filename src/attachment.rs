//! One attachment's way through the pipeline, as a state machine: the
//! post-processor chain, the content key, the existence probe, the store
//! request and the announcement. The caller performs each action it is
//! handed and reports the result; every decision is taken here.
use vstd::prelude::*;

use crate::error::Error;
use crate::notify::{notification_for, notification_text};
use crate::postprocess::{ChainRun, Processor};
use crate::store::{
    content_key, disposition_of, finish_upload, key_of, plan_upload, puts_object,
    AttachmentUpload, PutRequest, UploadStep,
};
use crate::text::{as_opt_str, opt_str_view, opt_string_view};

verus! {

/// Where a run stands.
#[derive(Debug, Clone, Copy, PartialEq, Eq)]
pub enum Phase {
    /// Post-processors are still to be applied.
    Processing,
    /// The chain survived; the final bytes are awaited.
    Hashing,
    /// The key is known; the existence probe's answer is awaited.
    Probing,
    /// The bytes are being stored; the outcome is awaited.
    Storing,
    /// The bytes were stored; the announcement is being sent.
    Announcing,
    /// Nothing more happens to this attachment.
    Finished,
}

/// What the caller must do next.
pub enum Action {
    /// Apply this processor to the scratch file, then call `applied`.
    Apply(Processor),
    /// Read the scratch file's final bytes, then call `final_bytes`.
    ReadFinalBytes,
    /// Ask the store whether this key exists, then call `exists_checked`.
    CheckExists(String),
    /// Store the final bytes as requested, then call `stored`.
    Store(PutRequest),
    /// Send this notification, then call `announced` whatever came of it.
    Announce(String),
    /// The attachment is done.
    Finish,
}

/// What became of an attachment.
pub enum Outcome {
    /// A post-processor failed: nothing was stored.
    Dropped,
    /// The content was already in the store: nothing was sent.
    AlreadyStored(AttachmentUpload),
    /// The content was stored under a new key.
    Stored(AttachmentUpload),
    /// Storing the content failed.
    StoreFailed(Error),
}

/// The run of one attachment.
pub struct AttachmentRun {
    chain: ChainRun,
    mime_type: String,
    subject: Option<String>,
    sender: Option<String>,
    public_url: String,
    size: usize,
    phase: Phase,
    key: String,
    hashed: Option<Vec<u8>>,
    upload: Option<AttachmentUpload>,
    outcome: Option<Outcome>,
}

impl AttachmentRun {
    pub closed spec fn chain(&self) -> ChainRun {
        self.chain
    }

    pub closed spec fn phase(&self) -> Phase {
        self.phase
    }

    /// The sniffed content type.
    pub closed spec fn mime_type(&self) -> Seq<char> {
        self.mime_type@
    }

    pub closed spec fn subject(&self) -> Option<Seq<char>> {
        opt_string_view(self.subject)
    }

    pub closed spec fn sender(&self) -> Option<Seq<char>> {
        opt_string_view(self.sender)
    }

    pub closed spec fn public_url(&self) -> Seq<char> {
        self.public_url@
    }

    /// The size of the attachment as received, in bytes.
    pub closed spec fn attachment_size(&self) -> nat {
        self.size as nat
    }

    /// The content key, once the final bytes are known.
    pub closed spec fn key(&self) -> Seq<char> {
        self.key@
    }

    /// The final bytes the key was derived from, while they await storing.
    pub closed spec fn hashed(&self) -> Option<Seq<u8>> {
        match self.hashed {
            Some(b) => Some(b@),
            None => None,
        }
    }

    /// What became of the attachment, once the run has finished.
    pub closed spec fn outcome(&self) -> Option<Outcome> {
        self.outcome
    }

    pub closed spec fn wf(&self) -> bool {
        &&& self.chain.wf()
        &&& (self.phase == Phase::Processing) == self.chain.pending()
        &&& self.phase != Phase::Processing && self.phase != Phase::Finished
            ==> self.chain.survived_spec()
        &&& (self.phase == Phase::Announcing) == (self.upload is Some)
        &&& (self.phase == Phase::Probing) == (self.hashed is Some)
        &&& self.hashed matches Some(b) ==> self.key@ == key_of(b@)
        &&& (self.phase == Phase::Finished) == (self.outcome is Some)
        &&& self.upload matches Some(u) ==> u.key@ == self.key@ && !u.cached
            && opt_string_view(u.subject) == opt_string_view(self.subject)
            && opt_string_view(u.sender) == opt_string_view(self.sender)
    }

    /// Whether the run has nothing left to do.
    pub open spec fn finished(&self) -> bool {
        self.phase() == Phase::Finished
    }

    /// Whether `other` is a later state of the same run: the parts fixed at
    /// the start agree.
    pub open spec fn same_attachment(&self, other: &AttachmentRun) -> bool {
        &&& other.chain().stages() == self.chain().stages()
        &&& other.mime_type() == self.mime_type()
        &&& other.subject() == self.subject()
        &&& other.sender() == self.sender()
        &&& other.public_url() == self.public_url()
        &&& other.attachment_size() == self.attachment_size()
    }

    /// The step that follows the chain's latest report: the next stage, the
    /// final bytes once every stage succeeded, or the end after a failure.
    pub open spec fn after_chain(&self, a: Action) -> bool {
        if self.chain().pending() {
            self.phase() == Phase::Processing && a == Action::Apply(
                self.chain().stages()[self.chain().completed() as int],
            )
        } else if self.chain().survived_spec() {
            self.phase() == Phase::Hashing && a == Action::ReadFinalBytes
        } else {
            self.phase() == Phase::Finished && self.outcome() == Some(Outcome::Dropped) && a
                == Action::Finish
        }
    }

    /// Takes the step that follows the chain's latest report.
    fn chain_action(&mut self) -> (a: Action)
        requires
            old(self).chain.wf(),
            old(self).upload is None,
            old(self).hashed is None,
            old(self).outcome is None,
        ensures
            final(self).wf(),
            final(self).after_chain(a),
            final(self).chain == old(self).chain,
            final(self).mime_type == old(self).mime_type,
            final(self).subject == old(self).subject,
            final(self).sender == old(self).sender,
            final(self).public_url == old(self).public_url,
            final(self).size == old(self).size,
            final(self).key == old(self).key,
            final(self).hashed is None,
    {
        match self.chain.next_stage() {
            Some(p) => {
                self.phase = Phase::Processing;
                Action::Apply(p)
            },
            None => {
                if self.chain.survived() {
                    self.phase = Phase::Hashing;
                    Action::ReadFinalBytes
                } else {
                    self.phase = Phase::Finished;
                    self.outcome = Some(Outcome::Dropped);
                    Action::Finish
                }
            },
        }
    }

    /// Starts the run of an attachment of `size` bytes and content type
    /// `mime_type` through `chain`.
    pub fn new(
        chain: ChainRun,
        mime_type: &str,
        subject: Option<&str>,
        sender: Option<&str>,
        public_url: &str,
        size: usize,
    ) -> (r: (AttachmentRun, Action))
        requires
            chain.wf(),
            chain.completed() == 0,
            !chain.failed(),
        ensures
            r.0.wf(),
            r.0.chain() == chain,
            r.0.mime_type() == mime_type@,
            r.0.subject() == opt_str_view(subject),
            r.0.sender() == opt_str_view(sender),
            r.0.public_url() == public_url@,
            r.0.attachment_size() == size,
            r.0.after_chain(r.1),
    {
        let mut run = AttachmentRun {
            chain,
            mime_type: mime_type.to_string(),
            subject: crate::text::to_owned_opt(subject),
            sender: crate::text::to_owned_opt(sender),
            public_url: public_url.to_string(),
            size,
            phase: Phase::Processing,
            key: String::new(),
            hashed: None,
            upload: None,
            outcome: None,
        };
        let a = run.chain_action();
        (run, a)
    }

    /// Reports whether the processor of the last `Apply` succeeded. A
    /// failure ends the run: the attachment is dropped, nothing is stored.
    pub fn applied(&mut self, succeeded: bool) -> (a: Action)
        requires
            old(self).wf(),
            old(self).phase() == Phase::Processing,
        ensures
            final(self).wf(),
            old(self).same_attachment(&*final(self)),
            final(self).chain().completed() == old(self).chain().completed() + 1,
            final(self).chain().failed() == !succeeded,
            final(self).after_chain(a),
            !succeeded ==> final(self).outcome() == Some(Outcome::Dropped) && a == Action::Finish,
    {
        self.chain.record(succeeded);
        self.chain_action()
    }

    /// Reports the scratch file's bytes after the chain: they decide the key.
    pub fn final_bytes(&mut self, bytes: Vec<u8>) -> (a: Action)
        requires
            old(self).wf(),
            old(self).phase() == Phase::Hashing,
        ensures
            final(self).wf(),
            old(self).same_attachment(&*final(self)),
            final(self).phase() == Phase::Probing,
            final(self).key() == key_of(bytes@),
            final(self).hashed() == Some(bytes@),
            a matches Action::CheckExists(k) && k@ == key_of(bytes@),
    {
        self.key = content_key(bytes.as_slice());
        self.hashed = Some(bytes);
        self.phase = Phase::Probing;
        Action::CheckExists(self.key.clone())
    }

    /// Reports the existence probe's answer. A key that the store reports
    /// as present is not sent again; otherwise the bytes are stored.
    pub fn exists_checked(&mut self, exists: Result<bool, Error>) -> (a: Action)
        requires
            old(self).wf(),
            old(self).phase() == Phase::Probing,
        ensures
            final(self).wf(),
            old(self).same_attachment(&*final(self)),
            final(self).key() == old(self).key(),
            puts_object(exists) ==> final(self).phase() == Phase::Storing && (a matches Action::Store(
                p,
            ) && p.key@ == old(self).key() && p.content_type@ == old(self).mime_type()
                && p.disposition@ == disposition_of(old(self).mime_type())
                && Some(p.body@) == old(self).hashed()),
            !puts_object(exists) ==> final(self).phase() == Phase::Finished && a == Action::Finish
                && (final(self).outcome() matches Some(Outcome::AlreadyStored(u)) && u.key@
                == old(self).key() && u.cached && opt_string_view(u.subject) == old(self).subject()
                && opt_string_view(u.sender) == old(self).sender()),
    {
        let body = match self.hashed.take() {
            Some(b) => b,
            None => {
                assert(false);
                Vec::new()
            },
        };
        let step = plan_upload(
            self.key.clone(),
            self.mime_type.as_str(),
            as_opt_str(&self.subject),
            as_opt_str(&self.sender),
            &exists,
            body,
        );
        match step {
            UploadStep::Cached(u) => {
                self.phase = Phase::Finished;
                self.outcome = Some(Outcome::AlreadyStored(u));
                Action::Finish
            },
            UploadStep::Put(p) => {
                self.phase = Phase::Storing;
                Action::Store(p)
            },
        }
    }

    /// Reports the outcome of the store request (`Err` holds the store's
    /// message). New content is announced; a failure ends the run.
    pub fn stored(&mut self, outcome: Result<(), String>) -> (a: Action)
        requires
            old(self).wf(),
            old(self).phase() == Phase::Storing,
        ensures
            final(self).wf(),
            old(self).same_attachment(&*final(self)),
            final(self).key() == old(self).key(),
            outcome is Ok ==> final(self).phase() == Phase::Announcing && (a matches Action::Announce(
                m,
            ) && m@ == notification_text(
                old(self).subject(),
                old(self).sender(),
                old(self).public_url(),
                old(self).key(),
            )),
            outcome matches Err(m) ==> final(self).phase() == Phase::Finished && a == Action::Finish
                && final(self).outcome() == Some(Outcome::StoreFailed(Error::S3PutObjectFailed(m))),
    {
        let r = finish_upload(
            self.key.clone(),
            as_opt_str(&self.subject),
            as_opt_str(&self.sender),
            outcome,
        );
        match r {
            Ok(u) => {
                let m = notification_for(&u, self.public_url.as_str());
                self.upload = Some(u);
                self.phase = Phase::Announcing;
                match m {
                    Some(m) => Action::Announce(m),
                    None => {
                        assert(false);
                        Action::Finish
                    },
                }
            },
            Err(e) => {
                self.phase = Phase::Finished;
                self.outcome = Some(Outcome::StoreFailed(e));
                Action::Finish
            },
        }
    }

    /// Reports that the announcement was sent or failed; either way the
    /// content is stored and the run ends.
    pub fn announced(&mut self) -> (a: Action)
        requires
            old(self).wf(),
            old(self).phase() == Phase::Announcing,
        ensures
            final(self).wf(),
            old(self).same_attachment(&*final(self)),
            final(self).phase() == Phase::Finished,
            a == Action::Finish,
            final(self).outcome() matches Some(Outcome::Stored(u)) && u.key@ == old(self).key()
                && !u.cached && opt_string_view(u.subject) == old(self).subject()
                && opt_string_view(u.sender) == old(self).sender(),
    {
        let u = self.upload.take();
        match u {
            Some(u) => {
                self.outcome = Some(Outcome::Stored(u));
            },
            None => {
                assert(false);
            },
        }
        self.phase = Phase::Finished;
        Action::Finish
    }

    /// Where the run stands.
    pub fn current_phase(&self) -> (r: Phase)
        ensures
            r == self.phase(),
    {
        self.phase
    }

    /// The size of the attachment as received.
    pub fn size(&self) -> (r: usize)
        ensures
            r == self.attachment_size(),
    {
        self.size
    }

    /// Ends a finished run and hands back what became of the attachment.
    pub fn into_outcome(self) -> (r: Outcome)
        requires
            self.wf(),
            self.finished(),
        ensures
            Some(r) == self.outcome(),
    {
        match self.outcome {
            Some(o) => o,
            None => {
                assert(false);
                Outcome::Dropped
            },
        }
    }
}

/// Bytes reach the store only through a chain whose every stage
/// succeeded: a run that is storing, or announcing a stored attachment, has
/// a surviving chain.
pub proof fn store_requires_surviving_chain(run: AttachmentRun)
    requires
        run.wf(),
        run.phase() == Phase::Storing || run.phase() == Phase::Announcing,
    ensures
        run.chain().survived_spec(),
        run.chain().completed() == run.chain().stages().len(),
        !run.chain().failed(),
{
}

} // verus!
