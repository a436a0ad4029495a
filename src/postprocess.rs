//! Post-processors: external tools that rewrite an attachment in place
//! before it is stored, and the fail-closed chain that runs them.
use vstd::prelude::*;

use crate::error::Error;
use crate::text::str_eq;

verus! {

/// The closed set of post-processors. Each one wraps an external tool.
#[derive(Debug, Clone, Copy, PartialEq, Eq)]
pub enum Processor {
    /// Normalises the orientation of an image from its EXIF data (`exiftran`).
    RotateImageExif,
    /// Strips all metadata from images and videos (`exiftool`).
    RemoveExif,
}

/// Whether `mime` is one of `types`.
pub open spec fn one_of(mime: Seq<char>, types: Seq<Seq<char>>) -> bool {
    exists|i: int| 0 <= i < types.len() && types[i] == mime
}

pub open spec fn rotate_types() -> Seq<Seq<char>> {
    seq!["image/jpeg"@, "image/png"@, "image/heic"@, "image/webp"@]
}

pub open spec fn strip_types() -> Seq<Seq<char>> {
    seq![
        "image/jpeg"@,
        "image/png"@,
        "image/heic"@,
        "image/webp"@,
        "video/mp4"@,
        "video/heic"@,
        "video/mpeg"@,
        "video/x-quicktime"@,
    ]
}

/// The processors in the order in which they are registered.
pub open spec fn registered_spec() -> Seq<Processor> {
    seq![Processor::RotateImageExif, Processor::RemoveExif]
}

/// Whether `mime` is in `types`, tested one entry at a time.
fn matches_any(mime: &str, types: &Vec<&'static str>) -> (r: bool)
    ensures
        r == exists|i: int| 0 <= i < types@.len() && types@[i]@ == mime@,
{
    let mut i: usize = 0;
    while i < types.len()
        invariant
            i <= types@.len(),
            forall|j: int| 0 <= j < i ==> types@[j]@ != mime@,
        decreases types@.len() - i,
    {
        if str_eq(types[i], mime) {
            return true;
        }
        i = i + 1;
    }
    false
}

impl Processor {
    /// The content types this processor handles.
    pub open spec fn types(self) -> Seq<Seq<char>> {
        match self {
            Processor::RotateImageExif => rotate_types(),
            Processor::RemoveExif => strip_types(),
        }
    }

    pub open spec fn accepts(self, mime: Seq<char>) -> bool {
        one_of(mime, self.types())
    }

    /// Returns true if the processor should run for the given content type.
    pub fn applicable(&self, mime_type: &str) -> (r: bool)
        ensures
            r == self.accepts(mime_type@),
    {
        let types: Vec<&'static str> = match self {
            Processor::RotateImageExif => vec!["image/jpeg", "image/png", "image/heic", "image/webp"],
            Processor::RemoveExif => vec![
                "image/jpeg",
                "image/png",
                "image/heic",
                "image/webp",
                "video/mp4",
                "video/heic",
                "video/mpeg",
                "video/x-quicktime",
            ],
        };
        let ghost want = self.types();
        assert(types@.len() == want.len());
        assert forall|i: int| 0 <= i < want.len() implies #[trigger] types@[i]@ == want[i] by {}
        let r = matches_any(mime_type, &types);
        proof {
            if r {
                let i = choose|i: int| 0 <= i < types@.len() && types@[i]@ == mime_type@;
                assert(want[i] == mime_type@);
            }
            if one_of(mime_type@, want) {
                let i = choose|i: int| 0 <= i < want.len() && want[i] == mime_type@;
                assert(types@[i]@ == mime_type@);
            }
        }
        r
    }

    /// The name of the external tool this processor runs.
    pub fn tool(&self) -> (r: &'static str)
        ensures
            r@ == self.tool_spec(),
    {
        match self {
            Processor::RotateImageExif => "exiftran",
            Processor::RemoveExif => "exiftool",
        }
    }

    pub open spec fn tool_spec(self) -> Seq<char> {
        match self {
            Processor::RotateImageExif => "exiftran"@,
            Processor::RemoveExif => "exiftool"@,
        }
    }

    /// The arguments of the harmless invocation that probes the tool.
    pub fn check_args(&self) -> (r: Vec<&'static str>)
        ensures
            r@.len() == 1,
            r@[0]@ == (match self {
                Processor::RotateImageExif => "-h"@,
                Processor::RemoveExif => "-ver"@,
            }),
    {
        match self {
            Processor::RotateImageExif => vec!["-h"],
            Processor::RemoveExif => vec!["-ver"],
        }
    }

    /// The arguments placed before the file path when the tool rewrites a file.
    pub fn apply_args(&self) -> (r: Vec<&'static str>)
        ensures
            match self {
                Processor::RotateImageExif => r@.len() == 2 && r@[0]@ == "-i"@ && r@[1]@ == "-a"@,
                Processor::RemoveExif => r@.len() == 1 && r@[0]@ == "-all="@,
            },
    {
        match self {
            Processor::RotateImageExif => vec!["-i", "-a"],
            Processor::RemoveExif => vec!["-all="],
        }
    }
}

/// The processors of this service, in registration order.
pub fn registered() -> (r: Vec<Processor>)
    ensures
        r@ == registered_spec(),
{
    let r = vec![Processor::RotateImageExif, Processor::RemoveExif];
    assert(r@ =~= registered_spec());
    r
}

/// Builds the processor list from the outcome of each registered
/// processor's health check (`health[i]` for the `i`-th of `registered()`).
/// Any failed check refuses the whole list and names the first failing tool.
pub fn init(health: &Vec<bool>) -> (r: Result<Vec<Processor>, Error>)
    requires
        health@.len() == registered_spec().len(),
    ensures
        r.is_ok() <==> (forall|i: int| 0 <= i < health@.len() ==> health@[i]),
        r matches Ok(v) ==> v@ == registered_spec(),
        r matches Err(e) ==> exists|i: int|
            0 <= i < health@.len() && !health@[i] && (forall|j: int| 0 <= j < i ==> health@[j])
                && (e matches Error::ToolCheckFailed(name) && name@ == registered_spec()[i].tool_spec()),
{
    let processors = registered();
    let mut i: usize = 0;
    while i < processors.len()
        invariant
            processors@ == registered_spec(),
            health@.len() == processors@.len(),
            i <= processors@.len(),
            forall|j: int| 0 <= j < i ==> health@[j],
        decreases processors@.len() - i,
    {
        if !health[i] {
            let name = processors[i].tool().to_string();
            return Err(Error::ToolCheckFailed(name));
        }
        i = i + 1;
    }
    Ok(processors)
}

/// The processors out of `processors` that accept `mime`, in registration order.
pub open spec fn applicable_spec(processors: Seq<Processor>, mime: Seq<char>) -> Seq<Processor> {
    processors.filter(|p: Processor| p.accepts(mime))
}

/// Selects the processors that apply to `mime_type`, keeping their order.
pub fn applicable_processors(processors: &Vec<Processor>, mime_type: &str) -> (r: Vec<Processor>)
    ensures
        r@ == applicable_spec(processors@, mime_type@),
{
    let ghost pred = |p: Processor| p.accepts(mime_type@);
    let mut r: Vec<Processor> = Vec::new();
    let mut i: usize = 0;
    proof {
        reveal(Seq::filter);
        assert(processors@.subrange(0, 0) =~= Seq::<Processor>::empty());
    }
    while i < processors.len()
        invariant
            i <= processors@.len(),
            pred == (|p: Processor| p.accepts(mime_type@)),
            r@ == processors@.subrange(0, i as int).filter(pred),
        decreases processors@.len() - i,
    {
        let p = processors[i];
        let ok = p.applicable(mime_type);
        proof {
            reveal(Seq::filter);
            let next = processors@.subrange(0, i + 1);
            assert(next.drop_last() =~= processors@.subrange(0, i as int));
            assert(next.last() == p);
        }
        if ok {
            r.push(p);
        }
        i = i + 1;
    }
    assert(processors@.subrange(0, processors@.len() as int) =~= processors@);
    r
}

/// One attachment's run through its applicable processors. Stages run in
/// order; the first failure ends the run and the attachment is dropped.
pub struct ChainRun {
    stages: Vec<Processor>,
    completed: usize,
    failed: bool,
}

impl ChainRun {
    /// The stages of this run, in the order they are applied.
    pub closed spec fn stages(&self) -> Seq<Processor> {
        self.stages@
    }

    /// How many stages have reported an outcome.
    pub closed spec fn completed(&self) -> nat {
        self.completed as nat
    }

    /// Whether a stage has failed.
    pub closed spec fn failed(&self) -> bool {
        self.failed
    }

    pub open spec fn wf(&self) -> bool {
        self.completed() <= self.stages().len()
    }

    /// Whether the run still has a stage to apply.
    pub open spec fn pending(&self) -> bool {
        !self.failed() && self.completed() < self.stages().len()
    }

    /// Whether every stage has run and succeeded.
    pub open spec fn survived_spec(&self) -> bool {
        !self.failed() && self.completed() == self.stages().len()
    }

    /// Starts the run of the processors that apply to `mime_type`.
    pub fn new(processors: &Vec<Processor>, mime_type: &str) -> (r: ChainRun)
        ensures
            r.wf(),
            r.stages() == applicable_spec(processors@, mime_type@),
            r.completed() == 0,
            !r.failed(),
    {
        ChainRun { stages: applicable_processors(processors, mime_type), completed: 0, failed: false }
    }

    /// The next processor to apply, if the run has not ended.
    pub fn next_stage(&self) -> (r: Option<Processor>)
        requires
            self.wf(),
        ensures
            r == (if self.pending() {
                Some(self.stages()[self.completed() as int])
            } else {
                None::<Processor>
            }),
    {
        if self.failed || self.completed == self.stages.len() {
            None
        } else {
            Some(self.stages[self.completed])
        }
    }

    /// Records the outcome of the stage returned by `next_stage`.
    pub fn record(&mut self, succeeded: bool)
        requires
            old(self).wf(),
            old(self).pending(),
        ensures
            final(self).wf(),
            final(self).stages() == old(self).stages(),
            final(self).completed() == old(self).completed() + 1,
            final(self).failed() == !succeeded,
    {
        let n = self.stages.len();
        assert(self.completed < n);
        self.completed = self.completed + 1;
        self.failed = !succeeded;
    }

    /// Whether every stage ran and succeeded, so the bytes may be stored.
    pub fn survived(&self) -> (r: bool)
        requires
            self.wf(),
        ensures
            r == self.survived_spec(),
    {
        !self.failed && self.completed == self.stages.len()
    }
}

/// A run in which a stage has failed applies no further stage and never
/// lets the attachment through.
pub proof fn chain_fail_closed(c: ChainRun)
    requires
        c.wf(),
        c.failed(),
    ensures
        !c.pending(),
        !c.survived_spec(),
{
}

/// A run survives exactly when each of its stages was applied and reported
/// success: feeding the outcomes `outcomes` one by one into a fresh run
/// ends with a surviving run only when all of them are `true`.
pub proof fn chain_survives_iff_all_succeed(start: ChainRun, runs: Seq<ChainRun>, outcomes: Seq<bool>)
    requires
        start.wf(),
        start.completed() == 0,
        !start.failed(),
        runs.len() == outcomes.len() + 1,
        runs[0] == start,
        forall|i: int|
            0 <= i < outcomes.len() ==> (#[trigger] runs[i]).pending()
                && runs[i + 1].wf()
                && runs[i + 1].stages() == runs[i].stages()
                && runs[i + 1].completed() == runs[i].completed() + 1
                && runs[i + 1].failed() == !outcomes[i],
    ensures
        runs.last().survived_spec() <==> (outcomes.len() == start.stages().len() && forall|i: int|
            0 <= i < outcomes.len() ==> outcomes[i]),
{
    let n = outcomes.len() as int;
    lemma_chain_prefix(start, runs, outcomes, n);
}

proof fn lemma_chain_prefix(start: ChainRun, runs: Seq<ChainRun>, outcomes: Seq<bool>, k: int)
    requires
        start.wf(),
        start.completed() == 0,
        !start.failed(),
        runs.len() == outcomes.len() + 1,
        runs[0] == start,
        forall|i: int|
            0 <= i < outcomes.len() ==> (#[trigger] runs[i]).pending()
                && runs[i + 1].wf()
                && runs[i + 1].stages() == runs[i].stages()
                && runs[i + 1].completed() == runs[i].completed() + 1
                && runs[i + 1].failed() == !outcomes[i],
        0 <= k <= outcomes.len(),
    ensures
        runs[k].stages() == start.stages(),
        runs[k].completed() == k,
        forall|i: int| 0 <= i < k - 1 ==> outcomes[i],
        k > 0 ==> runs[k].failed() == !outcomes[k - 1],
        k == 0 ==> !runs[k].failed(),
    decreases k,
{
    if k > 0 {
        lemma_chain_prefix(start, runs, outcomes, k - 1);
        assert(runs[k - 1].pending());
    }
}

} // verus!
